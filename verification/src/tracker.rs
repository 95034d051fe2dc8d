//! The loop that watches a shipment, as a machine: it is told what happened
//! (an `Event`) and answers with what to report and what to do next (a
//! `Reaction`). All it remembers is the status it saw last.
//!
//! One round goes: fetch the answer of the tracking service; if its status
//! code is 200, read and parse the body; if the shipment's status differs
//! from the remembered one, remember it and send the message; pause. The
//! pause closes the round, so the first question is put as soon as the watch
//! begins, and its length is that of the settings.
//!
//! A round that fails at the status code or at the parsing starts over at
//! once, without the pause, and as often as it fails. An answer of another
//! shape than expected ends the watch: the caller is told to abort, and it is
//! the caller who stops. The chat service's answer is reported and changes
//! nothing: a message that was refused is not sent again.
//!
//! The machine does not hold the caller to an order of events. It answers
//! each event by what the event and the remembered status say.

use serde_json::Value;
use vstd::prelude::*;
use crate::config::{Config, ConfigView};
use crate::json::{complaint, json_of, json_parsed, parse_json, Json};
use crate::reading::{
    find_waybill, first_waybill, read_status, read_traces, status_of, traces_of, Fault,
};
use crate::requests::{
    chat_request, chat_request_of, tracking_request, tracking_request_of, ChatRequest,
    ChatRequestView, TrackingRequest, TrackingRequestView,
};
use crate::waybill::{compose_message, message_text, TraceView, Waybill, WaybillView};

verus! {

/// What happened outside.
#[derive(Clone, Debug, PartialEq, Eq)]
pub enum Event {
    /// The watch begins.
    Started,
    /// The tracking service answered with this status code.
    Status(u16),
    /// This is the body of its answer.
    Body(String),
    /// The chat service answered with this status code.
    Notified(u16),
    /// This is the body of the chat service's answer of refusal.
    Refusal(String),
    /// The pause is over.
    Slept,
}

/// An event in contracts.
pub enum EventView {
    Started,
    Status(u16),
    Body(Seq<char>),
    Notified(u16),
    Refusal(Seq<char>),
    Slept,
}

impl View for Event {
    type V = EventView;

    open spec fn view(&self) -> EventView {
        match self {
            Event::Started => EventView::Started,
            Event::Status(code) => EventView::Status(*code),
            Event::Body(text) => EventView::Body(text@),
            Event::Notified(code) => EventView::Notified(*code),
            Event::Refusal(text) => EventView::Refusal(text@),
            Event::Slept => EventView::Slept,
        }
    }
}

/// What to do next.
#[derive(Clone, Debug, PartialEq, Eq)]
pub enum Action {
    /// Put this question to the tracking service and tell the status code of
    /// its answer.
    Fetch(TrackingRequest),
    /// Read the body of the tracking service's answer and tell it.
    ReadBody,
    /// Show the text of this message, hand the message to the chat service,
    /// and tell the status code of its answer.
    Notify(ChatRequest),
    /// Read the body of the chat service's answer and tell it.
    ReadRefusal,
    /// Pause for this many seconds.
    Sleep(u64),
    /// End the watch: the tracking service's answer has this fault.
    Abort(Fault),
}

/// An action in contracts.
pub enum ActionView {
    Fetch(TrackingRequestView),
    ReadBody,
    Notify(ChatRequestView),
    ReadRefusal,
    Sleep(u64),
    Abort(Fault),
}

impl View for Action {
    type V = ActionView;

    open spec fn view(&self) -> ActionView {
        match self {
            Action::Fetch(request) => ActionView::Fetch(request@),
            Action::ReadBody => ActionView::ReadBody,
            Action::Notify(request) => ActionView::Notify(request@),
            Action::ReadRefusal => ActionView::ReadRefusal,
            Action::Sleep(seconds) => ActionView::Sleep(*seconds),
            Action::Abort(fault) => ActionView::Abort(*fault),
        }
    }
}

/// What to report before the next action.
#[derive(Clone, Debug, PartialEq, Eq)]
pub enum Report {
    Nothing,
    /// The watch has begun.
    Started,
    /// The tracking service answered with this status code, which is not 200.
    HttpError(u16),
    /// The body was not JSON; the parser's complaint is attached.
    ParseError(String),
    /// The chat service took the message.
    Sent,
    /// The chat service refused the message, with this body.
    SendFailed(String),
}

/// A report without the wording of the parser's complaint.
pub enum ReportView {
    Nothing,
    Started,
    HttpError(u16),
    ParseError,
    Sent,
    SendFailed(Seq<char>),
}

impl View for Report {
    type V = ReportView;

    open spec fn view(&self) -> ReportView {
        match self {
            Report::Nothing => ReportView::Nothing,
            Report::Started => ReportView::Started,
            Report::HttpError(code) => ReportView::HttpError(*code),
            Report::ParseError(_) => ReportView::ParseError,
            Report::Sent => ReportView::Sent,
            Report::SendFailed(body) => ReportView::SendFailed(body@),
        }
    }
}

/// The answer to an event.
#[derive(Clone, Debug, PartialEq, Eq)]
pub struct Reaction {
    pub report: Report,
    pub action: Action,
}

/// A reaction in contracts.
pub struct ReactionView {
    pub report: ReportView,
    pub action: ActionView,
}

impl View for Reaction {
    type V = ReactionView;

    open spec fn view(&self) -> ReactionView {
        ReactionView { report: self.report@, action: self.action@ }
    }
}

/// The watch on one shipment.
#[derive(Clone, Debug, PartialEq, Eq)]
pub struct Tracker {
    config: Config,
    last_status: String,
}

/// The state of a watch in contracts: its settings and what it remembers.
pub struct TrackerView {
    pub config: ConfigView,
    /// The status seen last; empty before any was seen.
    pub last_status: Seq<char>,
}

/// The tracking service's status code for an answer that is read.
pub const HTTP_OK: u16 = 200;

/// Whether the chat service's status code says that it took the message.
pub open spec fn accepted(code: u16) -> bool {
    200 <= code < 300
}

/// Whether a status code says success.
pub fn is_success(code: u16) -> (res: bool)
    ensures
        res == accepted(code),
{
    200 <= code && code < 300
}

/// Nothing to report, and this action.
pub open spec fn quietly(action: ActionView) -> ReactionView {
    ReactionView { report: ReportView::Nothing, action }
}

/// The action that asks the tracking service.
pub open spec fn fetch(state: TrackerView) -> ActionView {
    ActionView::Fetch(tracking_request_of(state.config))
}

/// The action that pauses.
pub open spec fn pause(state: TrackerView) -> ActionView {
    ActionView::Sleep(state.config.sleep_time)
}

/// The status in an answer: that of its first waybill.
pub open spec fn status_in(doc: Json) -> Option<Seq<char>> {
    match first_waybill(doc) {
        Some(waybill) => status_of(waybill),
        None => None,
    }
}

/// The history in an answer: that of its first waybill.
pub open spec fn traces_in(doc: Json) -> Result<Seq<TraceView>, Fault> {
    match first_waybill(doc) {
        Some(waybill) => traces_of(waybill),
        None => Err(Fault::NoWaybill),
    }
}

/// The state with another remembered status.
pub open spec fn remembering(state: TrackerView, status: Seq<char>) -> TrackerView {
    TrackerView { config: state.config, last_status: status }
}

/// The state after a shipment's record was looked at, and the reaction to it.
///
/// A record with the remembered status changes nothing and leads to the
/// pause. A record with another status makes that the remembered one, and
/// its message is sent to the chat of the settings.
pub open spec fn on_waybill(state: TrackerView, waybill: WaybillView) -> (
    TrackerView,
    ReactionView,
) {
    if waybill.last_status == state.last_status {
        (state, quietly(pause(state)))
    } else {
        (
            remembering(state, waybill.last_status),
            quietly(
                ActionView::Notify(
                    chat_request_of(
                        state.config,
                        message_text(waybill.last_status, waybill.traces),
                    ),
                ),
            ),
        )
    }
}

/// The state after an answer was looked at, and the reaction to it.
///
/// An answer without a waybill or without a status ends the watch. The
/// history of an answer with the remembered status is not looked at: the
/// pause follows. An answer with another status is taken as `on_waybill`
/// takes its record, where the history can be read; where it cannot, the
/// status is remembered all the same and the watch ends.
pub open spec fn on_document(state: TrackerView, doc: Json) -> (TrackerView, ReactionView) {
    match first_waybill(doc) {
        None => (state, quietly(ActionView::Abort(Fault::NoWaybill))),
        Some(waybill) => match status_of(waybill) {
            None => (state, quietly(ActionView::Abort(Fault::NoStatus))),
            Some(last_status) => if last_status == state.last_status {
                (state, quietly(pause(state)))
            } else {
                match traces_of(waybill) {
                    Err(fault) => (
                        remembering(state, last_status),
                        quietly(ActionView::Abort(fault)),
                    ),
                    Ok(traces) => on_waybill(state, WaybillView { last_status, traces }),
                }
            },
        },
    }
}

/// The state after a body was parsed, and the reaction: to the document as
/// `on_document` has it; where there is none, the state stays and the round
/// starts over.
pub open spec fn on_parsed(state: TrackerView, parsed: Option<Json>) -> (
    TrackerView,
    ReactionView,
) {
    match parsed {
        Some(doc) => on_document(state, doc),
        None => (state, ReactionView { report: ReportView::ParseError, action: fetch(state) }),
    }
}

/// The state after an event, and the reaction to it.
pub open spec fn react(state: TrackerView, event: EventView) -> (TrackerView, ReactionView) {
    match event {
        EventView::Started => (
            state,
            ReactionView { report: ReportView::Started, action: fetch(state) },
        ),
        EventView::Status(code) => if code == HTTP_OK {
            (state, quietly(ActionView::ReadBody))
        } else {
            (state, ReactionView { report: ReportView::HttpError(code), action: fetch(state) })
        },
        EventView::Body(text) => on_parsed(state, json_parsed(text)),
        EventView::Notified(code) => if accepted(code) {
            (
                state,
                ReactionView { report: ReportView::Sent, action: pause(state) },
            )
        } else {
            (state, quietly(ActionView::ReadRefusal))
        },
        EventView::Refusal(body) => (
            state,
            ReactionView {
                report: ReportView::SendFailed(body),
                action: pause(state),
            },
        ),
        EventView::Slept => (state, quietly(fetch(state))),
    }
}

impl View for Tracker {
    type V = TrackerView;

    closed spec fn view(&self) -> TrackerView {
        TrackerView { config: self.config@, last_status: self.last_status@ }
    }
}

impl Tracker {
    /// A watch with these settings that has seen no status yet.
    pub fn new(config: Config) -> (tracker: Tracker)
        ensures
            tracker@ == (TrackerView { config: config@, last_status: Seq::empty() }),
    {
        Tracker { config, last_status: String::new() }
    }

    /// The settings of the watch.
    pub fn config(&self) -> (config: &Config)
        ensures
            config@ == self@.config,
    {
        &self.config
    }

    /// The status seen last.
    pub fn last_status(&self) -> (status: &str)
        ensures
            status@ == self@.last_status,
    {
        self.last_status.as_str()
    }

    /// Looks at a shipment's record.
    pub fn react_to_waybill(&mut self, waybill: &Waybill) -> (reaction: Reaction)
        ensures
            (final(self)@, reaction@) == on_waybill(old(self)@, waybill@),
    {
        if waybill.last_status == self.last_status {
            return Reaction {
                report: Report::Nothing,
                action: Action::Sleep(self.config.sleep_time),
            };
        }
        self.last_status = waybill.last_status.clone();
        let message = compose_message(waybill);
        Reaction {
            report: Report::Nothing,
            action: Action::Notify(chat_request(&self.config, message)),
        }
    }

    /// Looks at an answer of the tracking service.
    pub fn react_to_document(&mut self, doc: &Value) -> (reaction: Reaction)
        ensures
            (final(self)@, reaction@) == on_document(old(self)@, json_of(*doc)),
    {
        let waybill = match find_waybill(doc) {
            Some(waybill) => waybill,
            None => {
                return Reaction {
                    report: Report::Nothing,
                    action: Action::Abort(Fault::NoWaybill),
                };
            },
        };
        let last_status = match read_status(waybill) {
            Some(status) => status,
            None => {
                return Reaction {
                    report: Report::Nothing,
                    action: Action::Abort(Fault::NoStatus),
                };
            },
        };
        if last_status == self.last_status {
            return Reaction {
                report: Report::Nothing,
                action: Action::Sleep(self.config.sleep_time),
            };
        }
        match read_traces(waybill) {
            Ok(traces) => self.react_to_waybill(&Waybill { last_status, traces }),
            Err(fault) => {
                self.last_status = last_status;
                Reaction { report: Report::Nothing, action: Action::Abort(fault) }
            },
        }
    }

    /// Takes what the parser made of a body.
    pub fn react_to_parsed(
        &mut self,
        parsed: Result<Value, serde_json::Error>,
    ) -> (reaction: Reaction)
        ensures
            (final(self)@, reaction@) == on_parsed(
                old(self)@,
                match parsed {
                    Ok(doc) => Some(json_of(doc)),
                    Err(_) => None,
                },
            ),
    {
        match parsed {
            Ok(doc) => self.react_to_document(&doc),
            Err(error) => Reaction {
                report: Report::ParseError(complaint(&error)),
                action: Action::Fetch(tracking_request(&self.config)),
            },
        }
    }

    /// Takes an event and says what to report and what to do next.
    pub fn step(&mut self, event: Event) -> (reaction: Reaction)
        ensures
            (final(self)@, reaction@) == react(old(self)@, event@),
    {
        match event {
            Event::Started => Reaction {
                report: Report::Started,
                action: Action::Fetch(tracking_request(&self.config)),
            },
            Event::Status(code) => {
                if code == HTTP_OK {
                    Reaction { report: Report::Nothing, action: Action::ReadBody }
                } else {
                    Reaction {
                        report: Report::HttpError(code),
                        action: Action::Fetch(tracking_request(&self.config)),
                    }
                }
            },
            Event::Body(text) => {
                let parsed = parse_json(text);
                self.react_to_parsed(parsed)
            },
            Event::Notified(code) => {
                if is_success(code) {
                    Reaction { report: Report::Sent, action: Action::Sleep(self.config.sleep_time) }
                } else {
                    Reaction { report: Report::Nothing, action: Action::ReadRefusal }
                }
            },
            Event::Refusal(body) => Reaction {
                report: Report::SendFailed(body),
                action: Action::Sleep(self.config.sleep_time),
            },
            Event::Slept => Reaction {
                report: Report::Nothing,
                action: Action::Fetch(tracking_request(&self.config)),
            },
        }
    }
}

} // verus!
