//! What holds of every watch, whatever the services answer.

use vstd::prelude::*;
use crate::json::{json_parsed, Json};
use crate::reading::Fault;
use crate::requests::chat_request_of;
use crate::tracker::{
    accepted, fetch, on_document, on_waybill, pause, quietly, react, remembering, status_in,
    traces_in, ActionView, EventView, ReactionView, ReportView, TrackerView, HTTP_OK,
};
use crate::waybill::{header_text, history_line, message_text, TraceView, WaybillView};

verus! {

/// The message of an empty history is the header alone, and each further
/// entry adds its own line at the end: the message has one line for each
/// entry, in the order of the history.
pub proof fn lemma_message_has_a_line_for_each_entry(
    status: Seq<char>,
    traces: Seq<TraceView>,
    trace: TraceView,
)
    ensures
        message_text(status, Seq::empty()) == header_text(status),
        message_text(status, traces.push(trace)) == message_text(status, traces) + history_line(
            trace,
        ),
{
    let line = |entry: TraceView| history_line(entry);
    assert(Seq::<TraceView>::empty().flat_map(line) =~= Seq::<char>::empty());
    traces.lemma_flat_map_push(line, trace);
    assert(header_text(status) + (traces.flat_map(line) + history_line(trace)) =~= (header_text(
        status,
    ) + traces.flat_map(line)) + history_line(trace));
}

/// A record whose status differs from the remembered one makes its status the
/// remembered one and sends one message: the one composed of its status and
/// its history, to the chat of the settings.
pub proof fn lemma_new_record_is_sent(state: TrackerView, waybill: WaybillView)
    requires
        waybill.last_status != state.last_status,
    ensures
        on_waybill(state, waybill) == (
            remembering(state, waybill.last_status),
            quietly(
                ActionView::Notify(
                    chat_request_of(
                        state.config,
                        message_text(waybill.last_status, waybill.traces),
                    ),
                ),
            ),
        ),
{
}

/// Of two records in a row with the same status, the second sends nothing
/// and leaves the state as the first left it: it leads to the pause.
pub proof fn lemma_repeated_record_is_silent(
    state: TrackerView,
    first: WaybillView,
    second: WaybillView,
)
    requires
        second.last_status == first.last_status,
    ensures
        ({
            let after_first = on_waybill(state, first).0;
            on_waybill(after_first, second) == (after_first, quietly(pause(after_first)))
        }),
{
}

/// The remembered status changes exactly when a record brings a status that
/// differs from it, and then it is that status.
pub proof fn lemma_remembered_status_follows_the_records(state: TrackerView, waybill: WaybillView)
    ensures
        on_waybill(state, waybill).0 == remembering(state, waybill.last_status),
        on_waybill(state, waybill).0 != state <==> waybill.last_status != state.last_status,
{
}

/// An answer whose status differs from the remembered one, and whose history
/// can be read, makes its status the remembered one and sends one message:
/// the one composed of that status and that history, to the chat of the
/// settings.
pub proof fn lemma_new_status_is_sent(
    state: TrackerView,
    doc: Json,
    status: Seq<char>,
    traces: Seq<TraceView>,
)
    requires
        status_in(doc) == Some(status),
        status != state.last_status,
        traces_in(doc) == Ok::<Seq<TraceView>, Fault>(traces),
    ensures
        on_document(state, doc) == (
            remembering(state, status),
            quietly(
                ActionView::Notify(chat_request_of(state.config, message_text(status, traces))),
            ),
        ),
{
}

/// Of two answers in a row that bring the same status, the second sends
/// nothing and leaves the state as the first left it: it leads to the pause.
pub proof fn lemma_repeated_status_is_silent(state: TrackerView, first: Json, second: Json)
    requires
        status_in(first) is Some,
        status_in(second) == status_in(first),
    ensures
        ({
            let after_first = on_document(state, first).0;
            on_document(after_first, second) == (after_first, quietly(pause(after_first)))
        }),
{
}

/// After an answer the remembered status is the answer's status, where it has
/// one, and what it was before, where it has none. So the remembered status
/// changes exactly when an answer brings a status that differs from it.
pub proof fn lemma_remembered_status_follows_the_answers(state: TrackerView, doc: Json)
    ensures
        on_document(state, doc).0.config == state.config,
        on_document(state, doc).0.last_status == match status_in(doc) {
            Some(status) => status,
            None => state.last_status,
        },
        on_document(state, doc).0 != state <==> status_in(doc) is Some && status_in(doc)
            != Some(state.last_status),
{
}

/// A status code other than 200 from the tracking service is reported; the
/// body is not asked for, the state stays, and the round starts over.
pub proof fn lemma_http_error_starts_over(state: TrackerView, code: u16)
    requires
        code != HTTP_OK,
    ensures
        react(state, EventView::Status(code)) == (
            state,
            ReactionView { report: ReportView::HttpError(code), action: fetch(state) },
        ),
{
}

/// A body that does not parse is reported; the state stays, and the round
/// starts over.
pub proof fn lemma_malformed_body_starts_over(state: TrackerView, text: Seq<char>)
    requires
        json_parsed(text) is None,
    ensures
        react(state, EventView::Body(text)) == (
            state,
            ReactionView { report: ReportView::ParseError, action: fetch(state) },
        ),
{
}

/// When the chat service refuses a message, its answer is read and reported,
/// and the pause follows: the message is not sent again and the state stays.
pub proof fn lemma_refusal_is_reported_and_not_resent(
    state: TrackerView,
    code: u16,
    body: Seq<char>,
)
    requires
        !accepted(code),
    ensures
        react(state, EventView::Notified(code)) == (state, quietly(ActionView::ReadRefusal)),
        react(state, EventView::Refusal(body)) == (
            state,
            ReactionView { report: ReportView::SendFailed(body), action: pause(state) },
        ),
{
}

/// No event changes the settings, and only a body can change the remembered
/// status.
pub proof fn lemma_only_a_body_changes_the_state(state: TrackerView, event: EventView)
    ensures
        react(state, event).0.config == state.config,
        !(event is Body) ==> react(state, event).0 == state,
{
}

/// A message is sent for nothing but a body that parses to an answer with a
/// status other than the remembered one.
pub proof fn lemma_nothing_else_is_sent(state: TrackerView, event: EventView)
    requires
        react(state, event).1.action is Notify,
    ensures
        event matches EventView::Body(text) && json_parsed(text) matches Some(doc) && status_in(
            doc,
        ) matches Some(status) && traces_in(doc) matches Ok(traces) && status != state.last_status
            && react(state, event).1.action == ActionView::Notify(
            chat_request_of(state.config, message_text(status, traces)),
        ),
{
}

/// The state after a run of events.
pub open spec fn state_after(state: TrackerView, events: Seq<EventView>) -> TrackerView
    decreases events.len(),
{
    if events.len() == 0 {
        state
    } else {
        react(state_after(state, events.drop_last()), events.last()).0
    }
}

/// How many messages are sent in a run of events.
pub open spec fn sent_during(state: TrackerView, events: Seq<EventView>) -> nat
    decreases events.len(),
{
    if events.len() == 0 {
        0
    } else {
        let before = events.drop_last();
        let sent: nat = if react(state_after(state, before), events.last()).1.action is Notify {
            1
        } else {
            0
        };
        sent_during(state, before) + sent
    }
}

/// Whether no event of a run is a body.
pub open spec fn without_body(events: Seq<EventView>) -> bool {
    forall|i: int| 0 <= i < events.len() ==> !(#[trigger] events[i] is Body)
}

/// The status that the last body of a run brought, among those bodies that
/// parse to an answer with a status.
pub open spec fn latest_status(events: Seq<EventView>) -> Option<Seq<char>>
    decreases events.len(),
{
    if events.len() == 0 {
        None
    } else {
        let earlier = latest_status(events.drop_last());
        match events.last() {
            EventView::Body(text) => match json_parsed(text) {
                Some(doc) => match status_in(doc) {
                    Some(status) => Some(status),
                    None => earlier,
                },
                None => earlier,
            },
            _ => earlier,
        }
    }
}

/// A run without a body sends nothing and leaves the state as it was.
pub proof fn lemma_nothing_happens_without_a_body(state: TrackerView, events: Seq<EventView>)
    requires
        without_body(events),
    ensures
        state_after(state, events) == state,
        sent_during(state, events) == 0,
    decreases events.len(),
{
    if events.len() > 0 {
        let before = events.drop_last();
        assert forall|i: int| 0 <= i < before.len() implies !(#[trigger] before[i] is Body) by {
            assert(before[i] == events[i]);
        }
        lemma_nothing_happens_without_a_body(state, before);
        assert(!(events[events.len() - 1] is Body));
    }
}

/// A run that begins with the event `first` and goes on without a body ends
/// in the state that `first` leads to, and sends what `first` sends.
pub proof fn lemma_run_after_one_event(state: TrackerView, first: EventView, rest: Seq<EventView>)
    requires
        without_body(rest),
    ensures
        state_after(state, seq![first] + rest) == react(state, first).0,
        sent_during(state, seq![first] + rest) == if react(state, first).1.action is Notify {
            1nat
        } else {
            0nat
        },
    decreases rest.len(),
{
    let events = seq![first] + rest;
    if rest.len() == 0 {
        assert(events.drop_last() =~= Seq::<EventView>::empty());
        assert(events.last() == first);
        assert(state_after(state, events.drop_last()) == state);
        assert(sent_during(state, events.drop_last()) == 0);
    } else {
        let before = rest.drop_last();
        assert forall|i: int| 0 <= i < before.len() implies !(#[trigger] before[i] is Body) by {
            assert(before[i] == rest[i]);
        }
        lemma_run_after_one_event(state, first, before);
        assert(events.drop_last() =~= seq![first] + before);
        assert(events.last() == rest[rest.len() - 1]);
        assert(!(rest[rest.len() - 1] is Body));
    }
}

/// The same of a whole run: a body that brings a status other than the
/// remembered one, with a history that can be read, and whatever happens
/// after it without a further body, sends exactly one message and leaves that
/// status remembered.
pub proof fn lemma_new_status_is_sent_once(
    state: TrackerView,
    body: Seq<char>,
    rest: Seq<EventView>,
)
    requires
        json_parsed(body) matches Some(doc) && status_in(doc) matches Some(status) && status
            != state.last_status && traces_in(doc) is Ok,
        without_body(rest),
    ensures
        sent_during(state, seq![EventView::Body(body)] + rest) == 1,
        Some(state_after(state, seq![EventView::Body(body)] + rest).last_status) == status_in(
            json_parsed(body).unwrap(),
        ),
{
    lemma_run_after_one_event(state, EventView::Body(body), rest);
}

/// The same of a whole run: after a body that brought a status, whatever
/// happens without a further body, and then a body that brings the same
/// status, no message is sent and the state is as the first body left it.
pub proof fn lemma_repeated_status_sends_nothing(
    state: TrackerView,
    first: Seq<char>,
    between: Seq<EventView>,
    second: Seq<char>,
)
    requires
        json_parsed(first) matches Some(doc) && status_in(doc) is Some,
        json_parsed(second) matches Some(doc) && status_in(doc) == status_in(
            json_parsed(first).unwrap(),
        ),
        without_body(between),
    ensures
        ({
            let after_first = react(state, EventView::Body(first)).0;
            let run = between.push(EventView::Body(second));
            &&& state_after(after_first, run) == after_first
            &&& sent_during(after_first, run) == 0
            &&& react(after_first, EventView::Body(second)).1 == quietly(pause(after_first))
        }),
{
    let after_first = react(state, EventView::Body(first)).0;
    let run = between.push(EventView::Body(second));
    lemma_nothing_happens_without_a_body(after_first, between);
    assert(run.drop_last() =~= between);
    assert(run.last() == EventView::Body(second));
}

/// At every point of a watch the remembered status is the one that the last
/// answer with a status brought; before any such answer it is what it was at
/// the start.
pub proof fn lemma_remembers_the_latest_status(state: TrackerView, events: Seq<EventView>)
    ensures
        state_after(state, events).config == state.config,
        state_after(state, events).last_status == match latest_status(events) {
            Some(status) => status,
            None => state.last_status,
        },
    decreases events.len(),
{
    if events.len() > 0 {
        lemma_remembers_the_latest_status(state, events.drop_last());
    }
}

} // verus!
