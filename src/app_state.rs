//! The arrival model and fetch-cadence policy.
use vstd::prelude::*;
use crate::color::{black, gray, scaled, white, Rgb};
use crate::error::ControllerError;
use crate::json::{parse_json, payload_text};
use crate::led_pipeline::{
    dark_frame, inner_count, lit_in_zone, outer_count, pipeline_layers, remaining_minutes,
    whole_minutes, Dim, ETDLEDs, LEDBuffer, NetworkAnimation, PipelineStep, Pulse, INSIDE_RING_SIZE,
    OUTSIDE_RING_SIZE,
};
use crate::payload::{arrival_minutes, is_ascending, payload_minutes, Root};

verus! {

/// Longest wait between fetches, in minutes.
pub const FETCH_CORRECTION_TIME_MIN: u64 = 10;
/// Wait before the next fetch when at most one arrival is known, in minutes.
pub const FETCH_REFRESH_TIME_MIN: u64 = 5;
/// How long before the nearer of two arrivals to fetch again, in minutes.
pub const FETCH_NEXT_TRAIN_TIME_MIN: i32 = 2;
/// Wait before the next fetch after a failed one, in minutes.
pub const FETCH_RETRY_TIME_MIN: u64 = 2;
/// Time since the last motion after which fetching stops, in minutes.
pub const NETWORK_SLEEP_TIME_MIN: u64 = 10;
/// Microseconds in the sleep threshold.
pub const NETWORK_SLEEP_TIME_MICROSEC: u64 = NETWORK_SLEEP_TIME_MIN * 60000000;
/// Attenuation applied last to every frame.
pub const DIM_SCALE: u8 = 9;

/// The model state: the arrival minutes (ascending), the start of the fetch
/// in flight, and the time of the last motion, in microseconds.
pub ghost struct AppStateView {
    pub arrival_minutes: Seq<i32>,
    pub activity_started_at: Option<u64>,
    pub last_motion_at: u64,
}

/// `v` in `[low, high]`.
pub open spec fn clamp(v: int, low: int, high: int) -> int {
    if v < low {
        low
    } else if v > high {
        high
    } else {
        v
    }
}

/// Minutes until the next fetch for the arrivals known: five for at most
/// one, ten for three or more, and for two, the nearer less two, in
/// `[0, 10]`.
pub open spec fn fetch_delay_minutes(arrivals: Seq<i32>) -> int {
    if arrivals.len() <= 1 {
        FETCH_REFRESH_TIME_MIN as int
    } else if arrivals.len() == 2 {
        clamp(arrivals[0] - FETCH_NEXT_TRAIN_TIME_MIN, 0, FETCH_CORRECTION_TIME_MIN as int)
    } else {
        FETCH_CORRECTION_TIME_MIN as int
    }
}

/// Distance between two times.
pub open spec fn time_between(a: u64, b: u64) -> int {
    if a >= b {
        a - b
    } else {
        b - a
    }
}

/// Whether a fetch is worth making at `now`: motion was seen within the
/// sleep threshold.
pub open spec fn fetch_allowed(s: AppStateView, now: u64) -> bool {
    time_between(s.last_motion_at, now) < NETWORK_SLEEP_TIME_MICROSEC
}

impl AppStateView {
    /// This state after motion at `now`.
    pub open spec fn sensed_motion(self, now: u64) -> AppStateView {
        AppStateView { last_motion_at: now, ..self }
    }
}

/// A countdown cell of the undimmed frame: the outer ring lit up to `outer`,
/// the inner ring up to `inner`, the center dark.
pub open spec fn countdown_cell(i: int, inner: int, outer: int) -> Rgb {
    if i < OUTSIDE_RING_SIZE {
        if i < lit_in_zone(outer, OUTSIDE_RING_SIZE as int) {
            white()
        } else {
            black()
        }
    } else if i < OUTSIDE_RING_SIZE + INSIDE_RING_SIZE {
        if i - OUTSIDE_RING_SIZE < lit_in_zone(inner, INSIDE_RING_SIZE as int) {
            white()
        } else {
            black()
        }
    } else {
        black()
    }
}

/// A cell of the undimmed frame: the countdown, with the center pulsing at
/// `pulse` while `active`.
pub open spec fn frame_cell(i: int, inner: int, outer: int, active: bool, pulse: Pulse) -> Rgb {
    if active && i >= OUTSIDE_RING_SIZE + INSIDE_RING_SIZE {
        if (i - (OUTSIDE_RING_SIZE + INSIDE_RING_SIZE)) % 2 == 0 {
            gray(pulse.level)
        } else {
            gray(pulse.opposite)
        }
    } else {
        countdown_cell(i, inner, outer)
    }
}

/// What taking the outcome of a fetch does to the state `before`, giving
/// `after` and the delay `r` in seconds: the fetch is over and motion is kept.
/// After a transport error, or a response whose text holds no payload, the
/// arrivals are kept and the retry delay comes. After a response that holds
/// a payload, the arrivals are its selected numeric minutes, ascending, and
/// the delay is the one that they call for.
pub open spec fn fetch_outcome(
    before: AppStateView,
    after: AppStateView,
    response: Result<String, ControllerError>,
    r: u64,
) -> bool {
    let kept = after.arrival_minutes == before.arrival_minutes && r == FETCH_RETRY_TIME_MIN * 60;
    &&& after.activity_started_at is None
    &&& after.last_motion_at == before.last_motion_at
    &&& is_ascending(after.arrival_minutes)
    &&& match response {
        Err(_) => kept,
        Ok(text) => match payload_text(text@) {
            Some(payload) => {
                &&& after.arrival_minutes.to_multiset() == payload_minutes(payload).to_multiset()
                &&& r == fetch_delay_minutes(after.arrival_minutes) * 60
            },
            None => kept,
        },
    }
}

/// The frame shown for `arrivals` after `elapsed_us` since the fetch, with
/// the center at `pulse` while `active`, dimmed.
pub open spec fn frame(arrivals: Seq<i32>, elapsed_us: u64, active: bool, pulse: Pulse) -> Seq<Rgb> {
    let ahead = remaining_minutes(arrivals, whole_minutes(elapsed_us));
    Seq::new(
        44,
        |i: int| scaled(frame_cell(i, inner_count(ahead), outer_count(ahead), active, pulse), DIM_SCALE),
    )
}

/// The frame that a state shows.
pub open spec fn state_frame(s: AppStateView, elapsed_us: u64, pulse: Pulse) -> Seq<Rgb> {
    frame(s.arrival_minutes, elapsed_us, s.activity_started_at is Some, pulse)
}

/// The arrival model: arrival minutes, fetch activity and last motion.
pub struct AppState {
    etd_mins: Vec<i32>,
    network_animation: Option<NetworkAnimation>,
    last_motion_sensed: u64,
}

impl View for AppState {
    type V = AppStateView;

    closed spec fn view(&self) -> AppStateView {
        AppStateView {
            arrival_minutes: self.etd_mins@,
            activity_started_at: match self.network_animation {
                Some(a) => Some(a.start_time_microsec),
                None => None,
            },
            last_motion_at: self.last_motion_sensed,
        }
    }
}

impl AppState {
    #[verifier::type_invariant]
    spec fn arrivals_ascending(self) -> bool {
        is_ascending(self.etd_mins@)
    }

    /// The state at boot, `now`: no arrivals, no fetch in flight, motion
    /// taken as seen at boot.
    pub fn new(now: u64) -> (r: AppState)
        ensures
            r@ == (AppStateView { arrival_minutes: seq![], activity_started_at: None, last_motion_at: now }),
    {
        let r = AppState { etd_mins: Vec::new(), network_animation: None, last_motion_sensed: now };
        assert(r@.arrival_minutes =~= seq![]);
        r
    }

    /// Records that a fetch started at `elapse_time_microsec`.
    pub fn network_activity_started(&mut self, elapse_time_microsec: u64)
        ensures
            final(self)@ == (AppStateView { activity_started_at: Some(elapse_time_microsec), ..old(self)@ }),
    {
        proof {
            use_type_invariant(&*self);
        }
        self.network_animation = Some(NetworkAnimation::new(elapse_time_microsec));
    }

    /// Records that the fetch in flight is over.
    pub fn network_activity_complete(&mut self)
        ensures
            final(self)@ == (AppStateView { activity_started_at: None, ..old(self)@ }),
    {
        proof {
            use_type_invariant(&*self);
        }
        self.network_animation = None;
    }

    /// Takes a fetch result: a payload replaces the arrivals with its
    /// selected numeric minutes, ascending, and gives the delay that they
    /// call for; an error keeps the arrivals and gives the retry delay. The
    /// fetch is over either way. The delay is in seconds.
    pub fn received_payload(&mut self, payload: Result<Root, ControllerError>) -> (r: u64)
        ensures
            final(self)@.activity_started_at is None,
            final(self)@.last_motion_at == old(self)@.last_motion_at,
            match payload {
                Ok(root) => {
                    &&& is_ascending(final(self)@.arrival_minutes)
                    &&& final(self)@.arrival_minutes.to_multiset() == payload_minutes(root@).to_multiset()
                    &&& r == fetch_delay_minutes(final(self)@.arrival_minutes) * 60
                },
                Err(_) => {
                    &&& final(self)@.arrival_minutes == old(self)@.arrival_minutes
                    &&& r == FETCH_RETRY_TIME_MIN * 60
                },
            },
    {
        self.network_activity_complete();
        let minutes = match payload {
            Ok(root) => {
                self.update_state(&root);
                self.next_fetch_time()
            },
            Err(_) => FETCH_RETRY_TIME_MIN,
        };
        minutes * 60
    }

    /// Takes the outcome of a fetch: the response text is read as a payload
    /// and handled as `received_payload` says. A transport error, or text
    /// that holds no payload, keeps the arrivals and gives the retry delay.
    /// The fetch is over either way. The delay is in seconds.
    pub fn received_http_response(&mut self, response: Result<String, ControllerError>) -> (r: u64)
        ensures
            fetch_outcome(old(self)@, final(self)@, response, r),
    {
        let r = match response {
            Err(e) => self.received_payload(Err(e)),
            Ok(payload) => {
                let parsed = parse_json(payload.as_str());
                match parsed {
                    Ok(root) => self.received_payload(Ok(root)),
                    Err(e) => self.received_payload(Err(e)),
                }
            },
        };
        proof {
            use_type_invariant(&*self);
        }
        r
    }

    /// The frame for `elapse_time_microsec` since the last fetch, with the
    /// activity pulse at `pulse` while a fetch is in flight. It depends
    /// on the arrivals and on whether a fetch is in flight, nothing else.
    pub fn get_current_led_buffer(&self, elapse_time_microsec: u64, pulse: Pulse) -> (r: LEDBuffer)
        ensures
            r.cells() == state_frame(self@, elapse_time_microsec, pulse),
    {
        let mut etd_led = ETDLEDs::new();
        etd_led.update(&self.etd_mins, elapse_time_microsec);
        let ghost etd = etd_led;
        let mut pipeline: Vec<PipelineStep> = Vec::new();
        pipeline.push(PipelineStep::Countdown(etd_led));
        match &self.network_animation {
            Some(animation) => pipeline.push(
                PipelineStep::Activity(NetworkAnimation::new(animation.start_time_microsec)),
            ),
            None => {},
        }
        pipeline.push(PipelineStep::Dim(Dim::new(DIM_SCALE)));
        let r = LEDBuffer::process_pipeline(&pipeline, pulse);
        proof {
            lemma_pipeline_frame(pipeline@, etd, self.network_animation is Some, pulse);
        }
        assert(r.cells() =~= state_frame(self@, elapse_time_microsec, pulse));
        r
    }

    /// The arrival minutes, ascending in every state.
    pub fn arrival_minutes(&self) -> (r: &Vec<i32>)
        ensures
            r@ == self@.arrival_minutes,
            is_ascending(r@),
    {
        proof {
            use_type_invariant(self);
        }
        &self.etd_mins
    }

    /// Microseconds into the fetch in flight at `current_time_microsec`, on
    /// the time base of its start; none when no fetch is in flight.
    pub fn activity_elapsed(&self, current_time_microsec: u64) -> (r: Option<u64>)
        ensures
            r == match self@.activity_started_at {
                Some(start) => Some(
                    if current_time_microsec >= start {
                        (current_time_microsec - start) as u64
                    } else {
                        0u64
                    },
                ),
                None => None,
            },
    {
        match &self.network_animation {
            Some(animation) => Some(animation.elapsed(current_time_microsec)),
            None => None,
        }
    }

    /// Whether a fetch is in flight.
    pub fn fetch_in_flight(&self) -> (r: bool)
        ensures
            r == (self@.activity_started_at is Some),
    {
        self.network_animation.is_some()
    }

    /// Records motion at `now`.
    pub fn motion_sensed(&mut self, now: u64)
        ensures
            final(self)@ == old(self)@.sensed_motion(now),
    {
        proof {
            use_type_invariant(&*self);
        }
        self.last_motion_sensed = now;
    }

    /// Whether to fetch at `now`: motion was seen within the sleep threshold.
    pub fn should_perform_fetch(&self, now: u64) -> (r: bool)
        ensures
            r == fetch_allowed(self@, now),
    {
        let elapsed: u64 = if now >= self.last_motion_sensed {
            now - self.last_motion_sensed
        } else {
            self.last_motion_sensed - now
        };
        elapsed < NETWORK_SLEEP_TIME_MICROSEC
    }

    /// Replaces the arrivals with the selected numeric minutes of `root`,
    /// ascending.
    fn update_state(&mut self, root: &Root)
        ensures
            final(self)@ == (AppStateView { arrival_minutes: final(self)@.arrival_minutes, ..old(self)@ }),
            is_ascending(final(self)@.arrival_minutes),
            final(self)@.arrival_minutes.to_multiset() == payload_minutes(root@).to_multiset(),
    {
        self.etd_mins = arrival_minutes(root);
    }

    /// Minutes until the next fetch for the arrivals now known: five for at
    /// most one, ten for three or more, and for two, the nearer less two,
    /// within `[0, 10]`.
    pub fn next_fetch_time(&self) -> (r: u64)
        ensures
            r == fetch_delay_minutes(self@.arrival_minutes),
            r <= FETCH_CORRECTION_TIME_MIN,
    {
        let n = self.etd_mins.len();
        if n <= 1 {
            FETCH_REFRESH_TIME_MIN
        } else if n == 2 {
            let next_train = self.etd_mins[0];
            if next_train <= FETCH_NEXT_TRAIN_TIME_MIN {
                0
            } else if next_train - FETCH_NEXT_TRAIN_TIME_MIN >= FETCH_CORRECTION_TIME_MIN as i32 {
                FETCH_CORRECTION_TIME_MIN
            } else {
                (next_train - FETCH_NEXT_TRAIN_TIME_MIN) as u64
            }
        } else {
            FETCH_CORRECTION_TIME_MIN
        }
    }
}

/// Rendering is a function of the arrivals and of whether a fetch is in
/// flight: two states that agree on those show the same frame for the same
/// elapsed time and pulse, whatever else differs between them.
pub proof fn lemma_frame_depends_on_snapshot(a: AppStateView, b: AppStateView, elapsed_us: u64, pulse: Pulse)
    requires
        a.arrival_minutes == b.arrival_minutes,
        (a.activity_started_at is Some) == (b.activity_started_at is Some),
    ensures
        state_frame(a, elapsed_us, pulse) == state_frame(b, elapsed_us, pulse),
{
}

/// Every arrival still ahead is at least one minute away.
proof fn lemma_remaining_positive(arrivals: Seq<i32>, elapsed_min: int)
    requires
        elapsed_min >= 0,
    ensures
        forall|i: int|
            0 <= i < remaining_minutes(arrivals, elapsed_min).len() ==> #[trigger] remaining_minutes(
                arrivals,
                elapsed_min,
            )[i] > 0,
    decreases arrivals.len(),
{
    if arrivals.len() > 0 {
        lemma_remaining_positive(arrivals.drop_last(), elapsed_min);
        let rest = remaining_minutes(arrivals.drop_last(), elapsed_min);
        let left = arrivals.last() - elapsed_min;
        if left > 0 {
            assert(remaining_minutes(arrivals, elapsed_min) == rest.push(left as i32));
            assert(left as i32 == left);
        }
    }
}

/// The countdown never lights more cells than a ring holds: the inner ring
/// shows at most 16 lit cells and the outer ring at most 24, each as a run
/// from the start of the ring; every other cell of the rings, and the whole
/// center, keeps the background color.
pub proof fn lemma_zone_capacity(arrivals: Seq<i32>, elapsed_us: u64)
    ensures
        ({
            let ahead = remaining_minutes(arrivals, whole_minutes(elapsed_us));
            let inner = inner_count(ahead);
            let outer = outer_count(ahead);
            &&& 0 <= inner <= INSIDE_RING_SIZE
            &&& 0 <= lit_in_zone(outer, OUTSIDE_RING_SIZE as int) <= OUTSIDE_RING_SIZE
            &&& forall|i: int|
                0 <= i < OUTSIDE_RING_SIZE ==> (#[trigger] countdown_cell(i, inner, outer) == white()
                    <==> i < lit_in_zone(outer, OUTSIDE_RING_SIZE as int))
            &&& forall|i: int|
                OUTSIDE_RING_SIZE <= i < OUTSIDE_RING_SIZE + INSIDE_RING_SIZE ==> (
                #[trigger] countdown_cell(i, inner, outer) == white() <==> i - OUTSIDE_RING_SIZE < inner)
            &&& forall|i: int|
                0 <= i < 44 ==> #[trigger] countdown_cell(i, inner, outer) == white()
                    || countdown_cell(i, inner, outer) == black()
        }),
{
    lemma_remaining_positive(arrivals, whole_minutes(elapsed_us));
    assert(white() != black());
}

/// Motion at `motion_at` opens the fetch window around it whatever the state
/// before: a fetch is allowed at every time within the sleep threshold of
/// the motion and at none beyond it.
pub proof fn lemma_motion_resets_window(before: AppStateView, motion_at: u64, now: u64)
    ensures
        fetch_allowed(before.sensed_motion(motion_at), now) <==> time_between(motion_at, now)
            < NETWORK_SLEEP_TIME_MICROSEC,
{
}

/// The countdown layer over a dark frame, cell by cell.
proof fn lemma_countdown_over_dark(etd: ETDLEDs)
    ensures
        crate::led_pipeline::countdown_layer(dark_frame(), etd) =~= Seq::new(
            44,
            |i: int| countdown_cell(i, etd.inside_ring_count as int, etd.outside_ring_count as int),
        ),
{
}

/// The steps that a frame is made of give the frame, cell by cell.
proof fn lemma_pipeline_frame(steps: Seq<PipelineStep>, etd: ETDLEDs, active: bool, pulse: Pulse)
    requires
        steps.len() == if active { 3int } else { 2int },
        steps[0] == PipelineStep::Countdown(etd),
        active ==> steps[1] is Activity,
        steps.last() == PipelineStep::Dim(Dim { scale_value: DIM_SCALE }),
    ensures
        pipeline_layers(steps, dark_frame(), pulse) =~= Seq::new(
            44,
            |i: int|
                scaled(
                    frame_cell(i, etd.inside_ring_count as int, etd.outside_ring_count as int, active, pulse),
                    DIM_SCALE,
                ),
        ),
{
    let inner = etd.inside_ring_count as int;
    let outer = etd.outside_ring_count as int;
    let counted = crate::led_pipeline::countdown_layer(dark_frame(), etd);
    lemma_countdown_over_dark(etd);
    let first = steps.subrange(0, 1);
    assert(first.drop_last() =~= Seq::<PipelineStep>::empty());
    assert(first.last() == steps[0]);
    assert(pipeline_layers(first.drop_last(), dark_frame(), pulse) == dark_frame());
    assert(pipeline_layers(first, dark_frame(), pulse) == counted);
    if active {
        let two = steps.subrange(0, 2);
        assert(two.drop_last() =~= first);
        assert(two.last() == steps[1]);
        let pulsed = crate::led_pipeline::pulse_layer(counted, pulse);
        assert(pipeline_layers(two, dark_frame(), pulse) == pulsed);
        assert(pulsed =~= Seq::new(44, |i: int| frame_cell(i, inner, outer, active, pulse)));
        assert(steps.drop_last() =~= two);
    } else {
        assert(counted =~= Seq::new(44, |i: int| frame_cell(i, inner, outer, active, pulse)));
        assert(steps.drop_last() =~= first);
    }
}

} // verus!
