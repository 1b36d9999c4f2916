//! The arrival payload: its shape, the reading of it from JSON text, and the
//! extraction of the arrival minutes that the display shows.
use vstd::prelude::*;
use vstd::multiset::Multiset;

verus! {

/// One estimate of a departure: its minutes field as sent, a decimal number
/// or a word such as "Leaving".
pub struct Estimate {
    pub minutes: String,
}

/// The departures of one line, under its direction code.
pub struct Etd {
    pub abbreviation: String,
    pub estimate: Vec<Estimate>,
}

/// One station and its departures.
pub struct Station {
    pub etd: Vec<Etd>,
}

/// The payload root: the stations reported.
pub struct Root {
    pub station: Vec<Station>,
}

/// A line of a payload as plain values: its direction code and the minutes
/// fields of its estimates.
pub ghost struct EtdView {
    pub abbreviation: Seq<char>,
    pub minutes: Seq<Seq<char>>,
}

/// A payload as plain values: for each station, its lines.
pub type RootView = Seq<Seq<EtdView>>;

impl View for Estimate {
    type V = Seq<char>;

    open spec fn view(&self) -> Seq<char> {
        self.minutes@
    }
}

impl View for Etd {
    type V = EtdView;

    open spec fn view(&self) -> EtdView {
        EtdView { abbreviation: self.abbreviation@, minutes: self.estimate@.map_values(|e: Estimate| e@) }
    }
}

impl View for Station {
    type V = Seq<EtdView>;

    open spec fn view(&self) -> Seq<EtdView> {
        self.etd@.map_values(|e: Etd| e@)
    }
}

impl View for Root {
    type V = RootView;

    open spec fn view(&self) -> RootView {
        self.station@.map_values(|s: Station| s@)
    }
}

/// The direction codes whose departures are shown.
pub open spec fn is_selected_code(code: Seq<char>) -> bool {
    code == "MLBR"@ || code == "SFIA"@
}

pub open spec fn is_digit(c: char) -> bool {
    '0' <= c && c <= '9'
}

pub open spec fn all_digits(d: Seq<char>) -> bool {
    forall|i: int| 0 <= i < d.len() ==> is_digit(#[trigger] d[i])
}

/// The value of a string of decimal digits.
pub open spec fn digits_value(d: Seq<char>) -> int
    decreases d.len(),
{
    if d.len() == 0 {
        0
    } else {
        digits_value(d.drop_last()) * 10 + (d.last() as int - '0' as int)
    }
}

/// The integer written by `s`: an optional `+` or `-` and at least one
/// decimal digit, nothing else.
pub open spec fn decimal_value(s: Seq<char>) -> Option<int> {
    if s.len() > 0 && (s[0] == '+' || s[0] == '-') {
        let d = s.drop_first();
        if d.len() > 0 && all_digits(d) {
            Some(if s[0] == '-' { -digits_value(d) } else { digits_value(d) })
        } else {
            None
        }
    } else if s.len() > 0 && all_digits(s) {
        Some(digits_value(s))
    } else {
        None
    }
}

/// The `i32` written by `s`, if it is a decimal integer in range.
pub open spec fn decimal_i32(s: Seq<char>) -> Option<i32> {
    match decimal_value(s) {
        Some(v) => if i32::MIN <= v <= i32::MAX {
            Some(v as i32)
        } else {
            None
        },
        None => None,
    }
}

/// The numeric minutes among the minutes fields `ests`, in order; other
/// words are left out.
pub open spec fn estimate_minutes(ests: Seq<Seq<char>>) -> Seq<i32>
    decreases ests.len(),
{
    if ests.len() == 0 {
        seq![]
    } else {
        let rest = estimate_minutes(ests.drop_last());
        match decimal_i32(ests.last()) {
            Some(m) => rest.push(m),
            None => rest,
        }
    }
}

/// The numeric minutes of the selected lines among `etds`, in order.
pub open spec fn etd_minutes(etds: Seq<EtdView>) -> Seq<i32>
    decreases etds.len(),
{
    if etds.len() == 0 {
        seq![]
    } else {
        let last = etds.last();
        etd_minutes(etds.drop_last()) + if is_selected_code(last.abbreviation) {
            estimate_minutes(last.minutes)
        } else {
            seq![]
        }
    }
}

/// The numeric minutes of the selected lines of all `stations`, in order.
pub open spec fn station_minutes(stations: Seq<Seq<EtdView>>) -> Seq<i32>
    decreases stations.len(),
{
    if stations.len() == 0 {
        seq![]
    } else {
        station_minutes(stations.drop_last()) + etd_minutes(stations.last())
    }
}

/// The numeric minutes of the selected lines of a payload, in payload order.
pub open spec fn payload_minutes(root: RootView) -> Seq<i32> {
    station_minutes(root)
}

pub open spec fn is_ascending(s: Seq<i32>) -> bool {
    forall|i: int, j: int| 0 <= i < j < s.len() ==> s[i] <= s[j]
}

/// Relies on `i32::from_str`: an optional sign and decimal digits, with
/// no other character, that fit an `i32`.
#[verifier::external_body]
fn parse_i32(text: &str) -> (r: Option<i32>)
    ensures
        r == decimal_i32(text@),
{
    text.parse::<i32>().ok()
}

/// Whether `code` is one of the selected direction codes.
pub fn is_selected(code: &String) -> (r: bool)
    ensures
        r == is_selected_code(code@),
{
    let first = String::from_str("MLBR");
    let second = String::from_str("SFIA");
    *code == first || *code == second
}

/// The minutes of a departure estimate, if its field is a number.
pub fn estimate_value(est: &Estimate) -> (r: Option<i32>)
    ensures
        r == decimal_i32(est.minutes@),
{
    parse_i32(est.minutes.as_str())
}

/// Appends the numeric minutes of `ests` to `out`, in order.
fn push_estimate_minutes(out: &mut Vec<i32>, ests: &Vec<Estimate>)
    ensures
        final(out)@ == old(out)@ + estimate_minutes(ests@.map_values(|e: Estimate| e@)),
{
    let ghost fields = ests@.map_values(|e: Estimate| e@);
    let mut k: usize = 0;
    while k < ests.len()
        invariant
            k <= ests@.len(),
            fields == ests@.map_values(|e: Estimate| e@),
            out@ == old(out)@ + estimate_minutes(fields.subrange(0, k as int)),
        decreases ests@.len() - k,
    {
        let ghost before = fields.subrange(0, k as int);
        let ghost after = fields.subrange(0, k as int + 1);
        assert(after.drop_last() =~= before);
        match estimate_value(&ests[k]) {
            Some(m) => {
                out.push(m);
                assert(out@ =~= old(out)@ + estimate_minutes(after));
            },
            None => {},
        }
        k = k + 1;
    }
    assert(fields.subrange(0, fields.len() as int) =~= fields);
}

/// Appends the numeric minutes of the selected lines of `etds` to `out`.
fn push_etd_minutes(out: &mut Vec<i32>, etds: &Vec<Etd>)
    ensures
        final(out)@ == old(out)@ + etd_minutes(etds@.map_values(|e: Etd| e@)),
{
    let ghost lines = etds@.map_values(|e: Etd| e@);
    let mut j: usize = 0;
    while j < etds.len()
        invariant
            j <= etds@.len(),
            lines == etds@.map_values(|e: Etd| e@),
            out@ == old(out)@ + etd_minutes(lines.subrange(0, j as int)),
        decreases etds@.len() - j,
    {
        let ghost before = lines.subrange(0, j as int);
        let ghost after = lines.subrange(0, j as int + 1);
        assert(after.drop_last() =~= before);
        let etd = &etds[j];
        if is_selected(&etd.abbreviation) {
            push_estimate_minutes(out, &etd.estimate);
        }
        assert(out@ =~= old(out)@ + etd_minutes(after));
        j = j + 1;
    }
    assert(lines.subrange(0, lines.len() as int) =~= lines);
}

/// The numeric minutes of the selected lines of `root`, in payload order.
pub fn collect_minutes(root: &Root) -> (r: Vec<i32>)
    ensures
        r@ == payload_minutes(root@),
{
    let ghost stations = root@;
    let mut out: Vec<i32> = Vec::new();
    let mut i: usize = 0;
    while i < root.station.len()
        invariant
            i <= root.station@.len(),
            stations == root@,
            out@ == station_minutes(stations.subrange(0, i as int)),
        decreases root.station@.len() - i,
    {
        let ghost before = stations.subrange(0, i as int);
        let ghost after = stations.subrange(0, i as int + 1);
        assert(after.drop_last() =~= before);
        push_etd_minutes(&mut out, &root.station[i].etd);
        i = i + 1;
    }
    assert(stations.subrange(0, stations.len() as int) =~= stations);
    out
}

/// Inserting into a sequence adds the element to its multiset.
proof fn lemma_insert_multiset(s: Seq<i32>, p: int, x: i32)
    requires
        0 <= p <= s.len(),
    ensures
        s.insert(p, x).to_multiset() =~= s.to_multiset().insert(x),
{
    let left = s.subrange(0, p);
    let right = s.subrange(p, s.len() as int);
    assert(s =~= left + right);
    assert(s.insert(p, x) =~= left + (seq![x] + right));
    vstd::seq_lib::lemma_multiset_commutative(left, right);
    vstd::seq_lib::lemma_multiset_commutative(seq![x], right);
    vstd::seq_lib::lemma_multiset_commutative(left, seq![x] + right);
    assert(seq![x].to_multiset() =~= Multiset::empty().insert(x)) by {
        broadcast use vstd::seq_lib::group_to_multiset_ensures;
        assert(seq![x] =~= Seq::<i32>::empty().push(x));
    }
}

/// The values of `v` in ascending order.
pub fn sorted_ascending(v: &Vec<i32>) -> (r: Vec<i32>)
    ensures
        is_ascending(r@),
        r@.to_multiset() == v@.to_multiset(),
{
    let mut out: Vec<i32> = Vec::new();
    let mut i: usize = 0;
    assert(v@.subrange(0, 0) =~= out@);
    while i < v.len()
        invariant
            i <= v@.len(),
            is_ascending(out@),
            out@.to_multiset() == v@.subrange(0, i as int).to_multiset(),
        decreases v@.len() - i,
    {
        let x = v[i];
        let mut p: usize = 0;
        while p < out.len() && out[p] <= x
            invariant
                p <= out@.len(),
                forall|q: int| 0 <= q < p ==> out@[q] <= x,
            decreases out@.len() - p,
        {
            p = p + 1;
        }
        proof {
            lemma_insert_multiset(out@, p as int, x);
            assert(v@.subrange(0, i as int + 1) =~= v@.subrange(0, i as int).push(x));
            broadcast use vstd::seq_lib::group_to_multiset_ensures;
        }
        out.insert(p, x);
        i = i + 1;
    }
    assert(v@.subrange(0, v@.len() as int) =~= v@);
    out
}

/// The arrival minutes of a payload: the numeric minutes of the selected
/// lines, in ascending order.
pub fn arrival_minutes(root: &Root) -> (r: Vec<i32>)
    ensures
        is_ascending(r@),
        r@.to_multiset() == payload_minutes(root@).to_multiset(),
{
    let all = collect_minutes(root);
    sorted_ascending(&all)
}

} // verus!
