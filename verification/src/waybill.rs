//! The shipment's record as the tracking service reports it: its status and
//! the history of checkpoints it went through.

use vstd::prelude::*;
use crate::text::opt_chars;

verus! {

/// One checkpoint of a shipment. City and country are there where the record
/// has them.
#[derive(Clone, Debug, PartialEq, Eq)]
pub struct TraceEvent {
    pub description: String,
    pub time: String,
    pub city: Option<String>,
    pub country: Option<String>,
}

/// A checkpoint in contracts: its strings by their characters.
pub struct TraceEventView {
    pub description: Seq<char>,
    pub time: Seq<char>,
    pub city: Option<Seq<char>>,
    pub country: Option<Seq<char>>,
}

impl View for TraceEvent {
    type V = TraceEventView;

    open spec fn view(&self) -> TraceEventView {
        TraceEventView {
            description: self.description@,
            time: self.time@,
            city: opt_chars(self.city),
            country: opt_chars(self.country),
        }
    }
}

/// An entry of a shipment's history: a checkpoint, or something else that the
/// service put in its place, of which nothing can be shown.
#[derive(Clone, Debug, PartialEq, Eq)]
pub enum Trace {
    Event(TraceEvent),
    Other,
}

/// An entry of a history in contracts.
pub enum TraceView {
    Event(TraceEventView),
    Other,
}

impl View for Trace {
    type V = TraceView;

    open spec fn view(&self) -> TraceView {
        match self {
            Trace::Event(event) => TraceView::Event(event@),
            Trace::Other => TraceView::Other,
        }
    }
}

/// A shipment's record: its current status and its history, oldest entry
/// first.
#[derive(Clone, Debug, PartialEq, Eq)]
pub struct Waybill {
    pub last_status: String,
    pub traces: Vec<Trace>,
}

/// A record in contracts.
pub struct WaybillView {
    pub last_status: Seq<char>,
    pub traces: Seq<TraceView>,
}

/// The views of a history's entries, in order.
pub open spec fn trace_views(traces: Seq<Trace>) -> Seq<TraceView> {
    traces.map_values(|trace: Trace| trace@)
}

impl View for Waybill {
    type V = WaybillView;

    open spec fn view(&self) -> WaybillView {
        WaybillView { last_status: self.last_status@, traces: trace_views(self.traces@) }
    }
}

/// How a checkpoint is shown: what happened and when, then the place in
/// brackets, as far as it is known. The place is the city and the country, or
/// the country alone; a city without a country is not shown.
pub open spec fn event_text(event: TraceEventView) -> Seq<char> {
    let what = event.description + " : "@ + event.time;
    match event.country {
        Some(country) => match event.city {
            Some(city) => what + " ("@ + city + ", "@ + country + ")"@,
            None => what + " ("@ + country + ")"@,
        },
        None => what,
    }
}

/// How an entry of the history is shown: a checkpoint by `event_text`, anything
/// else as nothing.
pub open spec fn trace_text(trace: TraceView) -> Seq<char> {
    match trace {
        TraceView::Event(event) => event_text(event),
        TraceView::Other => Seq::empty(),
    }
}

/// The line of an entry in the message.
pub open spec fn history_line(trace: TraceView) -> Seq<char> {
    " \t - "@ + trace_text(trace) + "\n"@
}

/// The two lines that open the message.
pub open spec fn header_text(status: Seq<char>) -> Seq<char> {
    "Status : "@ + status + "\nHistory : \n"@
}

/// The message for a status and a history: the header, then the line of each
/// entry, oldest first.
pub open spec fn message_text(status: Seq<char>, traces: Seq<TraceView>) -> Seq<char> {
    header_text(status) + traces.flat_map(|trace: TraceView| history_line(trace))
}

/// Shows a checkpoint.
pub fn format_event(event: &TraceEvent) -> (text: String)
    ensures
        text@ == event_text(event@),
{
    let mut text = String::from_str(event.description.as_str());
    text.append(" : ");
    text.append(event.time.as_str());
    match &event.country {
        Some(country) => {
            match &event.city {
                Some(city) => {
                    text.append(" (");
                    text.append(city.as_str());
                    text.append(", ");
                    text.append(country.as_str());
                    text.append(")");
                },
                None => {
                    text.append(" (");
                    text.append(country.as_str());
                    text.append(")");
                },
            }
        },
        None => {},
    }
    text
}

/// Shows an entry of the history.
pub fn format_trace(trace: &Trace) -> (text: String)
    ensures
        text@ == trace_text(trace@),
{
    match trace {
        Trace::Event(event) => format_event(event),
        Trace::Other => String::new(),
    }
}

/// Composes the message for a status and a history.
pub fn compose(status: &str, traces: &Vec<Trace>) -> (message: String)
    ensures
        message@ == message_text(status@, trace_views(traces@)),
{
    let mut message = String::from_str("Status : ");
    message.append(status);
    message.append("\nHistory : \n");
    let ghost line = |trace: TraceView| history_line(trace);
    let ghost shown = trace_views(traces@);
    let mut i: usize = 0;
    while i < traces.len()
        invariant
            i <= traces.len(),
            shown == trace_views(traces@),
            line == (|trace: TraceView| history_line(trace)),
            message@ == header_text(status@) + shown.take(i as int).flat_map(line),
        decreases traces.len() - i,
    {
        let text = format_trace(&traces[i]);
        proof {
            shown.take(i as int).lemma_flat_map_push(line, shown[i as int]);
            assert(shown.take(i as int + 1) =~= shown.take(i as int).push(shown[i as int]));
        }
        message.append(" \t - ");
        message.append(text.as_str());
        message.append("\n");
        i = i + 1;
    }
    proof {
        assert(shown.take(i as int) =~= shown);
    }
    message
}

/// Composes the message for a shipment's record.
pub fn compose_message(waybill: &Waybill) -> (message: String)
    ensures
        message@ == message_text(waybill@.last_status, waybill@.traces),
{
    compose(waybill.last_status.as_str(), &waybill.traces)
}

} // verus!
