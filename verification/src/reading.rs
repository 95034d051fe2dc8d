//! Reading the tracking service's answer: from a JSON document to the
//! shipment's record.
//!
//! The service answers with
//! `{"result": {"waybills": [{"lastStatus": .., "traces": [..]}, ..]}}`.
//! Only the first waybill is read. Where the answer has another shape the
//! reading ends in a `Fault`.

use serde_json::Value;
use vstd::prelude::*;
use crate::json::{json_of, member, Json};
use crate::text::opt_chars;
use crate::waybill::{
    trace_views, Trace, TraceEvent, TraceEventView, TraceView, Waybill, WaybillView,
};

verus! {

/// What is wrong with the shape of an answer.
#[derive(Clone, Copy, Debug, PartialEq, Eq, Structural)]
pub enum Fault {
    /// There is no `result.waybills[0]`.
    NoWaybill,
    /// The waybill's `lastStatus` is missing or is not a string.
    NoStatus,
    /// The waybill's `traces` is missing or is not an array.
    NoTraces,
    /// The entry at this place of `traces` is an object that lacks a string it
    /// must have; no entry before it does.
    BadTrace(usize),
}

/// The first waybill of an answer.
pub open spec fn first_waybill(doc: Json) -> Option<Json> {
    match doc.field("result"@) {
        Some(result) => match result.field("waybills"@) {
            Some(waybills) => waybills.element(0),
            None => None,
        },
        None => None,
    }
}

/// The characters of the member `key`, where it is there and is a string.
pub open spec fn text_field(value: Json, key: Seq<char>) -> Option<Seq<char>> {
    match value.field(key) {
        Some(found) => found.text(),
        None => None,
    }
}

/// The status of a waybill.
pub open spec fn status_of(waybill: Json) -> Option<Seq<char>> {
    text_field(waybill, "lastStatus"@)
}

/// The history entry that a JSON value stands for, or `None` where it is an
/// object without the strings it must have.
///
/// Anything but an object is `Other`. An object must have `eventDesc` and
/// `oprTime` as strings. If it has `oprCountry`, that must be a string; if it
/// has `oprCity` as well, that must be one too. A city beside no country is
/// kept where it is a string and dropped where it is not.
pub open spec fn trace_of(entry: Json) -> Option<TraceView> {
    if !(entry is Object) {
        Some(TraceView::Other)
    } else {
        let description = text_field(entry, "eventDesc"@);
        let time = text_field(entry, "oprTime"@);
        let city = text_field(entry, "oprCity"@);
        let country = text_field(entry, "oprCountry"@);
        let has_city = entry.field("oprCity"@).is_some();
        let has_country = entry.field("oprCountry"@).is_some();
        if description.is_none() || time.is_none() {
            None
        } else if has_country && country.is_none() {
            None
        } else if has_country && has_city && city.is_none() {
            None
        } else {
            Some(
                TraceView::Event(
                    TraceEventView {
                        description: description.unwrap(),
                        time: time.unwrap(),
                        city,
                        country,
                    },
                ),
            )
        }
    }
}

/// The history that a JSON array stands for, or the place of its first entry
/// that stands for none.
pub open spec fn history_of(items: Seq<Json>) -> Result<Seq<TraceView>, nat>
    decreases items.len(),
{
    if items.len() == 0 {
        Ok(Seq::empty())
    } else {
        match history_of(items.drop_last()) {
            Err(place) => Err(place),
            Ok(before) => match trace_of(items.last()) {
                Some(trace) => Ok(before.push(trace)),
                None => Err((items.len() - 1) as nat),
            },
        }
    }
}

/// The history of a waybill.
pub open spec fn traces_of(waybill: Json) -> Result<Seq<TraceView>, Fault> {
    match waybill.field("traces"@) {
        Some(Json::List(items)) => match history_of(items) {
            Ok(traces) => Ok(traces),
            Err(place) => Err(Fault::BadTrace(place as usize)),
        },
        _ => Err(Fault::NoTraces),
    }
}

/// The shipment's record in an answer.
pub open spec fn waybill_of(doc: Json) -> Result<WaybillView, Fault> {
    match first_waybill(doc) {
        None => Err(Fault::NoWaybill),
        Some(waybill) => match status_of(waybill) {
            None => Err(Fault::NoStatus),
            Some(last_status) => match traces_of(waybill) {
                Err(fault) => Err(fault),
                Ok(traces) => Ok(WaybillView { last_status, traces }),
            },
        },
    }
}

/// The view of an optional history entry.
pub open spec fn opt_trace_view(trace: Option<Trace>) -> Option<TraceView> {
    match trace {
        Some(found) => Some(found@),
        None => None,
    }
}

/// Finds the first waybill of an answer.
pub fn find_waybill<'a>(doc: &'a Value) -> (res: Option<&'a Value>)
    ensures
        match res {
            Some(waybill) => first_waybill(json_of(*doc)) == Some(json_of(*waybill)),
            None => first_waybill(json_of(*doc)).is_none(),
        },
{
    let result = match member(doc, "result") {
        Some(result) => result,
        None => return None,
    };
    let waybills = match member(result, "waybills") {
        Some(waybills) => waybills,
        None => return None,
    };
    match waybills.as_array() {
        Some(list) => if list.len() > 0 {
            Some(&list[0])
        } else {
            None
        },
        None => None,
    }
}

/// Reads the member `key` as a string.
pub fn read_text(value: &Value, key: &str) -> (res: Option<String>)
    ensures
        opt_chars(res) == text_field(json_of(*value), key@),
{
    match member(value, key) {
        Some(found) => match found.as_str() {
            Some(chars) => Some(String::from_str(chars)),
            None => None,
        },
        None => None,
    }
}

/// Reads the status of a waybill.
pub fn read_status(waybill: &Value) -> (res: Option<String>)
    ensures
        opt_chars(res) == status_of(json_of(*waybill)),
{
    read_text(waybill, "lastStatus")
}

/// Reads one entry of a history.
pub fn read_trace(entry: &Value) -> (res: Option<Trace>)
    ensures
        opt_trace_view(res) == trace_of(json_of(*entry)),
{
    if !entry.is_object() {
        return Some(Trace::Other);
    }
    let description = read_text(entry, "eventDesc");
    let time = read_text(entry, "oprTime");
    let city = read_text(entry, "oprCity");
    let country = read_text(entry, "oprCountry");
    let has_city = member(entry, "oprCity").is_some();
    let has_country = member(entry, "oprCountry").is_some();
    if has_country && country.is_none() {
        return None;
    }
    if has_country && has_city && city.is_none() {
        return None;
    }
    match (description, time) {
        (Some(description), Some(time)) => Some(
            Trace::Event(TraceEvent { description, time, city, country }),
        ),
        _ => None,
    }
}

/// Reads the history of a waybill.
pub fn read_traces(waybill: &Value) -> (res: Result<Vec<Trace>, Fault>)
    ensures
        match res {
            Ok(traces) => traces_of(json_of(*waybill)) == Ok::<Seq<TraceView>, Fault>(
                trace_views(traces@),
            ),
            Err(fault) => traces_of(json_of(*waybill)) == Err::<Seq<TraceView>, Fault>(fault),
        },
{
    let entries = match member(waybill, "traces") {
        Some(found) => match found.as_array() {
            Some(entries) => entries,
            None => return Err(Fault::NoTraces),
        },
        None => return Err(Fault::NoTraces),
    };
    let ghost items = entries@.map_values(|item: Value| json_of(item));
    let mut traces: Vec<Trace> = Vec::new();
    let mut i: usize = 0;
    proof {
        assert(trace_views(traces@) =~= Seq::empty());
    }
    while i < entries.len()
        invariant
            i <= entries.len(),
            items == entries@.map_values(|item: Value| json_of(item)),
            json_of(*waybill).field("traces"@) == Some(Json::List(items)),
            history_of(items.take(i as int)) == Ok::<Seq<TraceView>, nat>(trace_views(traces@)),
        decreases entries.len() - i,
    {
        proof {
            assert(items.take(i as int + 1).drop_last() =~= items.take(i as int));
            assert(items.take(i as int + 1).last() == json_of(entries@[i as int]));
        }
        match read_trace(&entries[i]) {
            Some(trace) => {
                proof {
                    assert(trace_views(traces@.push(trace)) =~= trace_views(traces@).push(trace@));
                }
                traces.push(trace);
            },
            None => {
                proof {
                    assert(history_of(items.take(i as int + 1)) == Err::<Seq<TraceView>, nat>(
                        i as nat,
                    ));
                    lemma_history_fault_stays(items, i as int + 1);
                }
                return Err(Fault::BadTrace(i));
            },
        }
        i = i + 1;
    }
    proof {
        assert(items.take(i as int) =~= items);
    }
    Ok(traces)
}

/// Reads the shipment's record from an answer.
pub fn read_waybill(doc: &Value) -> (res: Result<Waybill, Fault>)
    ensures
        match res {
            Ok(waybill) => waybill_of(json_of(*doc)) == Ok::<WaybillView, Fault>(waybill@),
            Err(fault) => waybill_of(json_of(*doc)) == Err::<WaybillView, Fault>(fault),
        },
{
    let waybill = match find_waybill(doc) {
        Some(waybill) => waybill,
        None => return Err(Fault::NoWaybill),
    };
    let last_status = match read_status(waybill) {
        Some(status) => status,
        None => return Err(Fault::NoStatus),
    };
    match read_traces(waybill) {
        Ok(traces) => Ok(Waybill { last_status, traces }),
        Err(fault) => Err(fault),
    }
}

/// A history is read entry by entry: it is there when every entry of the
/// array stands for one, and then has them in the array's order; otherwise
/// the place named is that of the first entry that stands for none.
pub proof fn lemma_history_is_read_entry_by_entry(items: Seq<Json>)
    ensures
        match history_of(items) {
            Ok(traces) => {
                &&& traces.len() == items.len()
                &&& forall|i: int|
                    0 <= i < items.len() ==> trace_of(#[trigger] items[i]) == Some(traces[i])
            },
            Err(place) => {
                &&& place < items.len()
                &&& trace_of(items[place as int]) is None
                &&& forall|i: int| 0 <= i < place ==> trace_of(#[trigger] items[i]) is Some
            },
        },
    decreases items.len(),
{
    if items.len() > 0 {
        let before = items.drop_last();
        lemma_history_is_read_entry_by_entry(before);
        assert forall|i: int| 0 <= i < before.len() implies before[i] == items[i] by {}
    }
}

/// A fault among the first `n` entries of an array is the fault of the whole
/// array.
pub proof fn lemma_history_fault_stays(items: Seq<Json>, n: int)
    requires
        0 <= n <= items.len(),
        history_of(items.take(n)) is Err,
    ensures
        history_of(items) == history_of(items.take(n)),
    decreases items.len() - n,
{
    if n < items.len() {
        assert(items.take(n + 1).drop_last() =~= items.take(n));
        lemma_history_fault_stays(items, n + 1);
    } else {
        assert(items.take(n) =~= items);
    }
}

} // verus!
