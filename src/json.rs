//! Reading the arrival payload out of JSON text.
//!
//! serde_json does the parsing; the walk over its document tree picks out
//! `root.station[].etd[].abbreviation` and `root.station[].etd[].estimate[].minutes`,
//! and rejects a document in which any of them is missing or of another kind.
use vstd::prelude::*;
use crate::error::ControllerError;
use crate::json_value::{json_array, json_document, json_pointer, json_str};
use crate::payload::{Estimate, Etd, EtdView, Root, RootView, Station};

verus! {

/// The array that `pointer` names under `v`, if it is one.
pub open spec fn field_array(v: serde_json::Value, pointer: Seq<char>) -> Option<Seq<serde_json::Value>> {
    match json_pointer(v, pointer) {
        Some(item) => json_array(item),
        None => None,
    }
}

/// The string that `pointer` names under `v`, if it is one.
pub open spec fn field_str(v: serde_json::Value, pointer: Seq<char>) -> Option<Seq<char>> {
    match json_pointer(v, pointer) {
        Some(item) => json_str(item),
        None => None,
    }
}

/// The minutes field of an estimate object.
pub open spec fn estimate_text(v: serde_json::Value) -> Option<Seq<char>> {
    field_str(v, "/minutes"@)
}

/// The minutes fields of estimate objects, if every one has one.
pub open spec fn estimates_text(items: Seq<serde_json::Value>) -> Option<Seq<Seq<char>>> {
    if forall|i: int| 0 <= i < items.len() ==> #[trigger] estimate_text(items[i]) is Some {
        Some(Seq::new(items.len(), |i: int| estimate_text(items[i])->Some_0))
    } else {
        None
    }
}

/// A line object: its direction code and its estimates.
pub open spec fn etd_text(v: serde_json::Value) -> Option<EtdView> {
    match field_str(v, "/abbreviation"@) {
        Some(abbreviation) => match field_array(v, "/estimate"@) {
            Some(items) => match estimates_text(items) {
                Some(minutes) => Some(EtdView { abbreviation, minutes }),
                None => None,
            },
            None => None,
        },
        None => None,
    }
}

/// Line objects, if every one is well formed.
pub open spec fn etds_text(items: Seq<serde_json::Value>) -> Option<Seq<EtdView>> {
    if forall|i: int| 0 <= i < items.len() ==> #[trigger] etd_text(items[i]) is Some {
        Some(Seq::new(items.len(), |i: int| etd_text(items[i])->Some_0))
    } else {
        None
    }
}

/// A station object: its lines.
pub open spec fn station_text(v: serde_json::Value) -> Option<Seq<EtdView>> {
    match field_array(v, "/etd"@) {
        Some(items) => etds_text(items),
        None => None,
    }
}

/// Station objects, if every one is well formed.
pub open spec fn stations_text(items: Seq<serde_json::Value>) -> Option<RootView> {
    if forall|i: int| 0 <= i < items.len() ==> #[trigger] station_text(items[i]) is Some {
        Some(Seq::new(items.len(), |i: int| station_text(items[i])->Some_0))
    } else {
        None
    }
}

/// The payload that JSON text holds: none where the text is not JSON or
/// lacks a field of the payload's shape.
pub open spec fn payload_text(text: Seq<char>) -> Option<RootView> {
    match json_document(text) {
        Some(document) => match field_array(document, "/root/station"@) {
            Some(items) => stations_text(items),
            None => None,
        },
        None => None,
    }
}

/// Relies on `serde_json::from_str`: the document tree of JSON text, or an
/// error where the text is not JSON; the outcome depends on the text alone.
#[verifier::external_body]
fn read_document(text: &str) -> (r: Result<serde_json::Value, serde_json::Error>)
    ensures
        r matches Ok(document) ==> json_document(text@) == Some(document),
        r is Err ==> json_document(text@) is None,
{
    serde_json::from_str(text)
}

/// The array that `pointer` names under `v`.
fn array_at<'a>(v: &'a serde_json::Value, pointer: &str) -> (r: Result<&'a Vec<serde_json::Value>, ControllerError>)
    ensures
        match r {
            Ok(items) => field_array(*v, pointer@) == Some(items@),
            Err(e) => e == ControllerError::Parse && field_array(*v, pointer@) is None,
        },
{
    match v.pointer(pointer) {
        Some(item) => match item.as_array() {
            Some(items) => Ok(items),
            None => Err(ControllerError::Parse),
        },
        None => Err(ControllerError::Parse),
    }
}

/// The string that `pointer` names under `v`, as an owned `String`.
fn string_at(v: &serde_json::Value, pointer: &str) -> (r: Result<String, ControllerError>)
    ensures
        match r {
            Ok(s) => field_str(*v, pointer@) == Some(s@),
            Err(e) => e == ControllerError::Parse && field_str(*v, pointer@) is None,
        },
{
    match v.pointer(pointer) {
        Some(item) => match item.as_str() {
            Some(text) => Ok(String::from_str(text)),
            None => Err(ControllerError::Parse),
        },
        None => Err(ControllerError::Parse),
    }
}

fn read_estimate(v: &serde_json::Value) -> (r: Result<Estimate, ControllerError>)
    ensures
        match r {
            Ok(est) => estimate_text(*v) == Some(est@),
            Err(e) => e == ControllerError::Parse && estimate_text(*v) is None,
        },
{
    match string_at(v, "/minutes") {
        Ok(minutes) => Ok(Estimate { minutes }),
        Err(e) => Err(e),
    }
}

fn read_etd(v: &serde_json::Value) -> (r: Result<Etd, ControllerError>)
    ensures
        match r {
            Ok(etd) => etd_text(*v) == Some(etd@),
            Err(e) => e == ControllerError::Parse && etd_text(*v) is None,
        },
{
    let abbreviation = match string_at(v, "/abbreviation") {
        Ok(found) => found,
        Err(e) => return Err(e),
    };
    let items = match array_at(v, "/estimate") {
        Ok(found) => found,
        Err(e) => return Err(e),
    };
    let mut estimate: Vec<Estimate> = Vec::new();
    let mut k: usize = 0;
    while k < items.len()
        invariant
            k <= items@.len(),
            estimate@.len() == k,
            field_str(*v, "/abbreviation"@) == Some(abbreviation@),
            field_array(*v, "/estimate"@) == Some(items@),
            forall|i: int| 0 <= i < k ==> estimate_text(items@[i]) == Some(#[trigger] estimate@[i]@),
        decreases items@.len() - k,
    {
        match read_estimate(&items[k]) {
            Ok(found) => estimate.push(found),
            Err(e) => {
                assert(estimate_text(items@[k as int]) is None);
                assert(estimates_text(items@) is None);
                return Err(e);
            },
        }
        k = k + 1;
    }
    let etd = Etd { abbreviation, estimate };
    assert forall|i: int| 0 <= i < items@.len() implies #[trigger] estimate_text(items@[i]) is Some by {
        assert(estimate_text(items@[i]) == Some(etd.estimate@[i]@));
    }
    assert(Seq::new(items@.len(), |i: int| estimate_text(items@[i])->Some_0) =~= etd@.minutes);
    Ok(etd)
}

fn read_station(v: &serde_json::Value) -> (r: Result<Station, ControllerError>)
    ensures
        match r {
            Ok(station) => station_text(*v) == Some(station@),
            Err(e) => e == ControllerError::Parse && station_text(*v) is None,
        },
{
    let items = match array_at(v, "/etd") {
        Ok(found) => found,
        Err(e) => return Err(e),
    };
    let mut etd: Vec<Etd> = Vec::new();
    let mut j: usize = 0;
    while j < items.len()
        invariant
            j <= items@.len(),
            etd@.len() == j,
            field_array(*v, "/etd"@) == Some(items@),
            forall|i: int| 0 <= i < j ==> etd_text(items@[i]) == Some(#[trigger] etd@[i]@),
        decreases items@.len() - j,
    {
        match read_etd(&items[j]) {
            Ok(found) => etd.push(found),
            Err(e) => {
                assert(etd_text(items@[j as int]) is None);
                assert(etds_text(items@) is None);
                return Err(e);
            },
        }
        j = j + 1;
    }
    let station = Station { etd };
    assert forall|i: int| 0 <= i < items@.len() implies #[trigger] etd_text(items@[i]) is Some by {
        assert(etd_text(items@[i]) == Some(station.etd@[i]@));
    }
    assert(Seq::new(items@.len(), |i: int| etd_text(items@[i])->Some_0) =~= station@);
    Ok(station)
}

/// Reads an arrival payload out of JSON text: the payload that the text
/// holds, or `ControllerError::Parse` where the text is not JSON or lacks a
/// field of the payload's shape. No text makes it fail in another way.
pub fn parse_json(text: &str) -> (r: Result<Root, ControllerError>)
    ensures
        match r {
            Ok(root) => payload_text(text@) == Some(root@),
            Err(e) => e == ControllerError::Parse && payload_text(text@) is None,
        },
{
    let document = match read_document(text) {
        Ok(document) => document,
        Err(_) => return Err(ControllerError::Parse),
    };
    let items = match array_at(&document, "/root/station") {
        Ok(found) => found,
        Err(e) => return Err(e),
    };
    let mut station: Vec<Station> = Vec::new();
    let mut i: usize = 0;
    while i < items.len()
        invariant
            i <= items@.len(),
            station@.len() == i,
            json_document(text@) == Some(document),
            field_array(document, "/root/station"@) == Some(items@),
            forall|k: int| 0 <= k < i ==> station_text(items@[k]) == Some(#[trigger] station@[k]@),
        decreases items@.len() - i,
    {
        match read_station(&items[i]) {
            Ok(found) => station.push(found),
            Err(e) => {
                assert(station_text(items@[i as int]) is None);
                assert(stations_text(items@) is None);
                return Err(e);
            },
        }
        i = i + 1;
    }
    let root = Root { station };
    assert forall|k: int| 0 <= k < items@.len() implies #[trigger] station_text(items@[k]) is Some by {
        assert(station_text(items@[k]) == Some(root.station@[k]@));
    }
    assert(Seq::new(items@.len(), |k: int| station_text(items@[k])->Some_0) =~= root@);
    Ok(root)
}

} // verus!
