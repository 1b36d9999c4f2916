//! The render pipeline: a fresh frame of 44 cells, lit by the arrival
//! countdown, overlaid by the activity pulse while a fetch is in flight, and
//! dimmed once, last.
use vstd::prelude::*;
use crate::color::{black, gray, scaled, white, Rgb};

verus! {

/// Cells of the outer ring, at the start of the frame.
pub const OUTSIDE_RING_SIZE: usize = 24;
/// Cells of the inner ring, after the outer ring.
pub const INSIDE_RING_SIZE: usize = 16;
/// Cells of the center indicator, at the end of the frame.
pub const CENTER_RING_SIZE: usize = 4;
/// Cells of a frame.
pub const BUFFER_SIZE: usize = 44;
/// First cell of the inner ring.
pub const INSIDE_RING_START: usize = 24;
/// First cell of the center indicator.
pub const CENTER_RING_START: usize = 40;

/// `count` cells lit in a zone of `size` cells: none for a count below one,
/// the whole zone for a count beyond it.
pub open spec fn lit_in_zone(count: int, size: int) -> int {
    if count < 0 {
        0
    } else if count > size {
        size
    } else {
        count
    }
}

/// `cells` with the first `lit_in_zone(count, size)` cells of the zone that
/// starts at `start` set to `color`.
pub open spec fn filled(cells: Seq<Rgb>, start: int, size: int, count: int, color: Rgb) -> Seq<Rgb> {
    Seq::new(
        cells.len(),
        |i: int|
            if start <= i < start + lit_in_zone(count, size) {
                color
            } else {
                cells[i]
            },
    )
}

/// A frame of light cells: outer ring, inner ring, then center indicator.
pub struct LEDBuffer {
    pub rgb_buffer: [Rgb; 44],
}

impl LEDBuffer {
    pub open spec fn cells(&self) -> Seq<Rgb> {
        self.rgb_buffer@
    }

    /// A frame with every cell unlit.
    pub fn new() -> (r: LEDBuffer)
        ensures
            r.cells() == Seq::new(44, |i: int| black()),
    {
        let r = LEDBuffer { rgb_buffer: [Rgb::black(); 44] };
        assert(r.cells() =~= Seq::new(44, |i: int| black()));
        r
    }

    /// Sets the first `count` cells of the zone at `start` of `size` cells to
    /// `color`; a count below one sets none, one beyond the zone sets all.
    fn fill_ring(&mut self, start: usize, size: usize, count: i32, color: Rgb)
        requires
            start + size <= 44,
        ensures
            final(self).cells() == filled(old(self).cells(), start as int, size as int, count as int, color),
    {
        let lit: usize = if count < 0 {
            0
        } else if count as usize > size {
            size
        } else {
            count as usize
        };
        let mut k: usize = 0;
        while k < lit
            invariant
                k <= lit,
                lit == lit_in_zone(count as int, size as int),
                start + size <= 44,
                lit <= size,
                self.cells().len() == 44,
                forall|i: int|
                    0 <= i < 44 ==> #[trigger] self.cells()[i] == if start <= i < start + k {
                        color
                    } else {
                        old(self).cells()[i]
                    },
            decreases lit - k,
        {
            self.rgb_buffer[start + k] = color;
            k = k + 1;
        }
        assert(self.cells() =~= filled(old(self).cells(), start as int, size as int, count as int, color));
    }
}

/// Microseconds in a minute.
pub const MICROSEC_PER_MIN: u64 = 60000000;

/// Whole minutes in `elapsed_us` microseconds; part of a minute counts for
/// nothing.
pub open spec fn whole_minutes(elapsed_us: u64) -> int {
    elapsed_us as int / MICROSEC_PER_MIN as int
}

/// The arrivals still ahead after `elapsed_min` minutes, in the order given:
/// each arrival less the elapsed minutes, without those at zero or below.
pub open spec fn remaining_minutes(arrivals: Seq<i32>, elapsed_min: int) -> Seq<i32>
    decreases arrivals.len(),
{
    if arrivals.len() == 0 {
        seq![]
    } else {
        let rest = remaining_minutes(arrivals.drop_last(), elapsed_min);
        let left = arrivals.last() - elapsed_min;
        if left > 0 {
            rest.push(left as i32)
        } else {
            rest
        }
    }
}

/// Inner-ring cells for the arrivals ahead: the first one, unless it is
/// beyond the inner ring.
pub open spec fn inner_count(ahead: Seq<i32>) -> int {
    if ahead.len() == 0 || ahead[0] > INSIDE_RING_SIZE {
        0
    } else {
        ahead[0] as int
    }
}

/// Outer-ring cells for the arrivals ahead: the first one where it is beyond
/// the inner ring, else the second one, if any.
pub open spec fn outer_count(ahead: Seq<i32>) -> int {
    if ahead.len() == 0 {
        0
    } else if ahead[0] > INSIDE_RING_SIZE {
        ahead[0] as int
    } else if ahead.len() >= 2 {
        ahead[1] as int
    } else {
        0
    }
}

/// The countdown layer: lit counts of the inner and outer ring.
pub struct ETDLEDs {
    pub inside_ring_count: i32,
    pub outside_ring_count: i32,
}

impl ETDLEDs {
    /// A countdown with both rings dark.
    pub fn new() -> (r: ETDLEDs)
        ensures
            r.inside_ring_count == 0,
            r.outside_ring_count == 0,
    {
        ETDLEDs { inside_ring_count: 0, outside_ring_count: 0 }
    }

    /// Sets the ring counts for arrivals `etd_mins` (nearest first) after
    /// `elapsed_since_fetch_microsec`: the nearest arrival still ahead lights
    /// the inner ring, the next the outer ring; a nearest arrival beyond the
    /// inner ring lights the outer ring alone.
    pub fn update(&mut self, etd_mins: &Vec<i32>, elapsed_since_fetch_microsec: u64)
        ensures
            final(self).inside_ring_count == inner_count(
                remaining_minutes(etd_mins@, whole_minutes(elapsed_since_fetch_microsec)),
            ),
            final(self).outside_ring_count == outer_count(
                remaining_minutes(etd_mins@, whole_minutes(elapsed_since_fetch_microsec)),
            ),
    {
        let elapsed_min: u64 = elapsed_since_fetch_microsec / MICROSEC_PER_MIN;
        let ghost m = whole_minutes(elapsed_since_fetch_microsec);
        assert(elapsed_min as int == m);
        assert(elapsed_min < 0x1_0000_0000_0000);
        let mut ahead: Vec<i32> = Vec::new();
        let mut i: usize = 0;
        while i < etd_mins.len()
            invariant
                i <= etd_mins@.len(),
                elapsed_min as int == m,
                elapsed_min < 0x1_0000_0000_0000,
                ahead@ == remaining_minutes(etd_mins@.subrange(0, i as int), m),
            decreases etd_mins@.len() - i,
        {
            let ghost after = etd_mins@.subrange(0, i as int + 1);
            assert(after.drop_last() =~= etd_mins@.subrange(0, i as int));
            let left: i64 = etd_mins[i] as i64 - elapsed_min as i64;
            if left > 0 {
                ahead.push(left as i32);
            }
            i = i + 1;
        }
        assert(etd_mins@.subrange(0, etd_mins@.len() as int) =~= etd_mins@);
        self.outside_ring_count = 0;
        self.inside_ring_count = 0;
        if ahead.len() == 0 {
            return;
        }
        let next_train = ahead[0];
        if next_train > INSIDE_RING_SIZE as i32 {
            self.outside_ring_count = next_train;
        } else {
            self.inside_ring_count = next_train;
            if ahead.len() >= 2 {
                self.outside_ring_count = ahead[1];
            }
        }
    }

    /// Lights the first cells of each ring in white, as many as its count.
    pub fn render(&self, led_buffer: &mut LEDBuffer)
        ensures
            final(led_buffer).cells() == countdown_layer(old(led_buffer).cells(), *self),
    {
        led_buffer.fill_ring(INSIDE_RING_START, INSIDE_RING_SIZE, self.inside_ring_count, Rgb::white());
        led_buffer.fill_ring(0, OUTSIDE_RING_SIZE, self.outside_ring_count, Rgb::white());
    }
}

/// `cells` with the countdown of `etd` drawn over them.
pub open spec fn countdown_layer(cells: Seq<Rgb>, etd: ETDLEDs) -> Seq<Rgb> {
    filled(
        filled(cells, INSIDE_RING_START as int, INSIDE_RING_SIZE as int, etd.inside_ring_count as int, white()),
        0,
        OUTSIDE_RING_SIZE as int,
        etd.outside_ring_count as int,
        white(),
    )
}

/// The activity pulse of the center indicator, timed from the start of a
/// fetch.
pub struct NetworkAnimation {
    pub start_time_microsec: u64,
}

/// Brightness of the two opposite pairs of center cells at one moment of the
/// activity pulse: the first and third cell at `level`, the second and fourth
/// at `opposite`, the brightness of the curve in opposite phase.
#[derive(Clone, Copy, Debug, PartialEq, Eq, Structural)]
pub struct Pulse {
    pub level: u8,
    pub opposite: u8,
}

/// `cells` with the center indicator showing `pulse`.
pub open spec fn pulse_layer(cells: Seq<Rgb>, pulse: Pulse) -> Seq<Rgb> {
    cells.update(40, gray(pulse.level)).update(42, gray(pulse.level)).update(41, gray(pulse.opposite)).update(
        43,
        gray(pulse.opposite),
    )
}

impl NetworkAnimation {
    /// A pulse that started at `start_time_microsec`.
    pub fn new(start_time_microsec: u64) -> (r: Self)
        ensures
            r.start_time_microsec == start_time_microsec,
    {
        Self { start_time_microsec }
    }

    /// Microseconds into the pulse at `current_time_microsec`; none before it
    /// started.
    pub fn elapsed(&self, current_time_microsec: u64) -> (r: u64)
        ensures
            r == if current_time_microsec >= self.start_time_microsec {
                current_time_microsec - self.start_time_microsec
            } else {
                0
            },
    {
        if current_time_microsec >= self.start_time_microsec {
            current_time_microsec - self.start_time_microsec
        } else {
            0
        }
    }

    /// Draws `pulse` over the center indicator: white scaled by its level on
    /// two opposite cells, by its opposite level on the other two.
    pub fn render(&self, led_buffer: &mut LEDBuffer, pulse: Pulse)
        ensures
            final(led_buffer).cells() == pulse_layer(old(led_buffer).cells(), pulse),
    {
        let white = Rgb::white();
        let bright = white.dim(pulse.level);
        let other = white.dim(pulse.opposite);
        proof {
            crate::color::lemma_scaled_white(pulse.level);
            crate::color::lemma_scaled_white(pulse.opposite);
        }
        led_buffer.rgb_buffer[CENTER_RING_START] = bright;
        led_buffer.rgb_buffer[CENTER_RING_START + 2] = bright;
        led_buffer.rgb_buffer[CENTER_RING_START + 1] = other;
        led_buffer.rgb_buffer[CENTER_RING_START + 3] = other;
        assert(led_buffer.cells() =~= pulse_layer(old(led_buffer).cells(), pulse));
    }
}

/// `cells` with every channel scaled by `amount`.
pub open spec fn dimmed_layer(cells: Seq<Rgb>, amount: u8) -> Seq<Rgb> {
    Seq::new(cells.len(), |i: int| scaled(cells[i], amount))
}

/// Relies on `smart_leds::brightness`: each channel of each cell becomes
/// `channel * (amount + 1) / 256`, the cells in the same order.
#[verifier::external_body]
fn brightness_of(cells: &[Rgb], amount: u8) -> (r: Vec<Rgb>)
    ensures
        r@ == dimmed_layer(cells@, amount),
{
    let colors = cells.iter().map(|c| smart_leds::RGB8::new(c.r, c.g, c.b));
    smart_leds::brightness(colors, amount).map(|c| Rgb::new(c.r, c.g, c.b)).collect()
}

/// The final attenuation of a whole frame.
pub struct Dim {
    pub scale_value: u8,
}

impl Dim {
    /// An attenuation by `scale_value`: channels become
    /// `channel * (scale_value + 1) / 256`.
    pub fn new(scale_value: u8) -> (r: Self)
        ensures
            r.scale_value == scale_value,
    {
        Self { scale_value }
    }

    /// Scales every channel of every cell of the frame.
    pub fn render(&self, led_buffer: &mut LEDBuffer)
        ensures
            final(led_buffer).cells() == dimmed_layer(old(led_buffer).cells(), self.scale_value),
    {
        let dimmed = brightness_of(led_buffer.rgb_buffer.as_slice(), self.scale_value);
        let ghost before = led_buffer.cells();
        let mut i: usize = 0;
        while i < BUFFER_SIZE
            invariant
                i <= 44,
                dimmed@ == dimmed_layer(before, self.scale_value),
                before.len() == 44,
                led_buffer.cells().len() == 44,
                forall|k: int|
                    0 <= k < 44 ==> #[trigger] led_buffer.cells()[k] == if k < i {
                        dimmed@[k]
                    } else {
                        before[k]
                    },
            decreases 44 - i,
        {
            led_buffer.rgb_buffer[i] = dimmed[i];
            i = i + 1;
        }
        assert(led_buffer.cells() =~= dimmed_layer(before, self.scale_value));
    }
}

/// One step of the render pipeline.
pub enum PipelineStep {
    /// The arrival countdown on the two rings.
    Countdown(ETDLEDs),
    /// The activity pulse on the center indicator.
    Activity(NetworkAnimation),
    /// The attenuation of the whole frame.
    Dim(Dim),
}

/// `cells` after `step`, with the activity pulse at `pulse`.
pub open spec fn step_layer(step: PipelineStep, cells: Seq<Rgb>, pulse: Pulse) -> Seq<Rgb> {
    match step {
        PipelineStep::Countdown(etd) => countdown_layer(cells, etd),
        PipelineStep::Activity(_) => pulse_layer(cells, pulse),
        PipelineStep::Dim(dim) => dimmed_layer(cells, dim.scale_value),
    }
}

/// `cells` after each of `steps` in turn.
pub open spec fn pipeline_layers(steps: Seq<PipelineStep>, cells: Seq<Rgb>, pulse: Pulse) -> Seq<Rgb>
    decreases steps.len(),
{
    if steps.len() == 0 {
        cells
    } else {
        step_layer(steps.last(), pipeline_layers(steps.drop_last(), cells, pulse), pulse)
    }
}

/// The frame with every cell unlit.
pub open spec fn dark_frame() -> Seq<Rgb> {
    Seq::new(44, |i: int| black())
}

impl PipelineStep {
    /// Applies this step to the frame, with the activity pulse at `pulse`.
    pub fn render(&self, led_buffer: &mut LEDBuffer, pulse: Pulse)
        ensures
            final(led_buffer).cells() == step_layer(*self, old(led_buffer).cells(), pulse),
    {
        match self {
            PipelineStep::Countdown(etd) => etd.render(led_buffer),
            PipelineStep::Activity(animation) => animation.render(led_buffer, pulse),
            PipelineStep::Dim(dim) => dim.render(led_buffer),
        }
    }
}

impl LEDBuffer {
    /// A fresh dark frame with each step of `pipeline` applied in order, the
    /// activity pulse at `level`.
    pub fn process_pipeline(pipeline: &Vec<PipelineStep>, pulse: Pulse) -> (r: LEDBuffer)
        ensures
            r.cells() == pipeline_layers(pipeline@, dark_frame(), pulse),
    {
        let mut led_buffer = LEDBuffer::new();
        let mut i: usize = 0;
        while i < pipeline.len()
            invariant
                i <= pipeline@.len(),
                led_buffer.cells() == pipeline_layers(pipeline@.subrange(0, i as int), dark_frame(), pulse),
            decreases pipeline@.len() - i,
        {
            let ghost after = pipeline@.subrange(0, i as int + 1);
            assert(after.drop_last() =~= pipeline@.subrange(0, i as int));
            pipeline[i].render(&mut led_buffer, pulse);
            i = i + 1;
        }
        assert(pipeline@.subrange(0, pipeline@.len() as int) =~= pipeline@);
        led_buffer
    }
}

} // verus!
