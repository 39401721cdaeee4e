//! What holds of a connection over a whole run of events, and of several
//! connections side by side.

use crate::error::ChatError;
use crate::protocol::parsed;
use crate::pump::{intake_of, outgoing, step, ActionView, EventView, IntakeView, PumpView};
use crate::text::{is_blank, lemma_trim_blank, lemma_trim_idempotent, trim, utf8_lossy};
use vstd::prelude::*;

verus! {

/// A run of a connection: its state after a sequence of events, and the
/// actions it asked for, one per event. `answers` holds the hub's answer to
/// each event, as `step` takes it.
pub open spec fn run(s: PumpView, events: Seq<EventView>, answers: Seq<bool>) -> (
    PumpView,
    Seq<ActionView>,
)
    recommends
        answers.len() == events.len(),
    decreases events.len(),
{
    if events.len() == 0 {
        (s, Seq::empty())
    } else {
        let first = step(s, events.first(), answers.first());
        let rest = run(first.0, events.drop_first(), answers.drop_first());
        (rest.0, seq![first.1] + rest.1)
    }
}

/// The texts that the hub delivered in a sequence of events, in their order.
pub open spec fn delivered(events: Seq<EventView>) -> Seq<Seq<char>>
    decreases events.len(),
{
    if events.len() == 0 {
        Seq::empty()
    } else {
        match events.first() {
            EventView::Delivered(text) => seq![text] + delivered(events.drop_first()),
            _ => delivered(events.drop_first()),
        }
    }
}

/// The texts that a sequence of actions writes to the socket, in their order.
pub open spec fn written(actions: Seq<ActionView>) -> Seq<Seq<char>>
    decreases actions.len(),
{
    if actions.len() == 0 {
        Seq::empty()
    } else {
        match actions.first() {
            ActionView::Write(text) => seq![text] + written(actions.drop_first()),
            _ => written(actions.drop_first()),
        }
    }
}

/// A connection that has ended stays as it is, whatever happens, and is asked
/// for nothing but its release.
pub proof fn lemma_end_is_final(s: PumpView, e: EventView, accepted: bool)
    requires
        !(s.phase is Active),
    ensures
        step(s, e, accepted).0 == s,
        !(step(s, e, accepted).1 is Write),
        !(step(s, e, accepted).1 is Published),
{
}

/// A step keeps the peer's name and the channel, leaves an active connection
/// active or closing, and keeps the rule that only an ended connection has
/// failed.
pub proof fn lemma_step_preserves(s: PumpView, e: EventView, accepted: bool)
    requires
        s.well_formed(),
    ensures
        step(s, e, accepted).0.well_formed(),
        step(s, e, accepted).0.peer == s.peer,
        step(s, e, accepted).0.channel == s.channel,
        s.phase is Active ==> !(step(s, e, accepted).0.phase is Closed),
{
}

/// No run brings an ended connection back, and none makes it write.
pub proof fn lemma_run_after_end(s: PumpView, events: Seq<EventView>, answers: Seq<bool>)
    requires
        answers.len() == events.len(),
        !(s.phase is Active),
    ensures
        run(s, events, answers).0 == s,
        written(run(s, events, answers).1) == Seq::<Seq<char>>::empty(),
    decreases events.len(),
{
    if events.len() > 0 {
        let first = step(s, events.first(), answers.first());
        lemma_end_is_final(s, events.first(), answers.first());
        lemma_run_after_end(s, events.drop_first(), answers.drop_first());
        let rest = run(s, events.drop_first(), answers.drop_first());
        assert((seq![first.1] + rest.1).drop_first() == rest.1);
    }
}

/// A connection that is still active at the end of a run has written every
/// text that the hub delivered to it during the run: each one unchanged, each
/// one once, in the order of delivery, and nothing else.
pub proof fn lemma_writes_are_deliveries(s: PumpView, events: Seq<EventView>, answers: Seq<bool>)
    requires
        answers.len() == events.len(),
        run(s, events, answers).0.phase is Active,
    ensures
        written(run(s, events, answers).1) == delivered(events),
    decreases events.len(),
{
    if events.len() > 0 {
        let first = step(s, events.first(), answers.first());
        let rest = run(first.0, events.drop_first(), answers.drop_first());
        assert((seq![first.1] + rest.1).drop_first() == rest.1);
        if first.0.phase is Active {
            lemma_writes_are_deliveries(first.0, events.drop_first(), answers.drop_first());
            if !(s.phase is Active) {
                lemma_end_is_final(s, events.first(), answers.first());
            }
        } else {
            lemma_run_after_end(first.0, events.drop_first(), answers.drop_first());
        }
    }
}

/// The events of a connection to which the hub delivers these texts, in this
/// order, while nothing else happens to it.
pub open spec fn deliveries(texts: Seq<Seq<char>>) -> Seq<EventView> {
    Seq::new(texts.len(), |i: int| EventView::Delivered(texts[i]))
}

/// The deliveries of some texts hold these texts, in their order.
pub proof fn lemma_delivered_deliveries(texts: Seq<Seq<char>>)
    ensures
        delivered(deliveries(texts)) == texts,
    decreases texts.len(),
{
    if texts.len() > 0 {
        lemma_delivered_deliveries(texts.drop_first());
        assert(deliveries(texts).drop_first() == deliveries(texts.drop_first()));
        assert(texts == seq![texts.first()] + texts.drop_first());
    }
}

/// Deliveries end no connection.
pub proof fn lemma_deliveries_keep_active(s: PumpView, texts: Seq<Seq<char>>, answers: Seq<bool>)
    requires
        answers.len() == texts.len(),
    ensures
        run(s, deliveries(texts), answers).0 == s,
    decreases texts.len(),
{
    if texts.len() > 0 {
        assert(deliveries(texts).drop_first() == deliveries(texts.drop_first()));
        lemma_deliveries_keep_active(s, texts.drop_first(), answers.drop_first());
    }
}

/// Fan-out, on the side of the connections: where the hub delivers the same
/// texts in the same order to each of any number of active connections, each
/// of them writes exactly these texts, in this order, and stays as it was.
pub proof fn lemma_fan_out(
    pumps: Seq<PumpView>,
    published: Seq<Seq<char>>,
    answers: Seq<bool>,
    at: int,
)
    requires
        answers.len() == published.len(),
        0 <= at < pumps.len(),
        pumps[at].phase is Active,
    ensures
        run(pumps[at], deliveries(published), answers).0 == pumps[at],
        written(run(pumps[at], deliveries(published), answers).1) == published,
{
    lemma_deliveries_keep_active(pumps[at], published, answers);
    lemma_writes_are_deliveries(pumps[at], deliveries(published), answers);
    lemma_delivered_deliveries(published);
}

/// Whether the first text is the beginning of the second.
pub open spec fn is_prefix(a: Seq<Seq<char>>, b: Seq<Seq<char>>) -> bool {
    a.len() <= b.len() && a == b.take(a.len() as int)
}

/// Whatever the run, a connection writes deliveries only: what it has written
/// is the beginning of what was delivered to it.
pub proof fn lemma_writes_follow_deliveries(
    s: PumpView,
    events: Seq<EventView>,
    answers: Seq<bool>,
)
    requires
        answers.len() == events.len(),
    ensures
        is_prefix(written(run(s, events, answers).1), delivered(events)),
    decreases events.len(),
{
    if events.len() > 0 {
        let first = step(s, events.first(), answers.first());
        let rest = run(first.0, events.drop_first(), answers.drop_first());
        assert((seq![first.1] + rest.1).drop_first() == rest.1);
        lemma_writes_follow_deliveries(first.0, events.drop_first(), answers.drop_first());
        let w = written(rest.1);
        let d = delivered(events.drop_first());
        if s.phase is Active {
            if let EventView::Delivered(text) = events.first() {
                assert(seq![text] + w == (seq![text] + d).take(w.len() as int + 1));
            }
        } else {
            lemma_run_after_end(s, events, answers);
            assert(delivered(events).take(0) == Seq::<Seq<char>>::empty());
        }
    } else {
        assert(delivered(events).take(0) == Seq::<Seq<char>>::empty());
    }
}

/// An active connection that sends nothing for the idle period is closed with
/// `ReadTimeout`.
pub proof fn lemma_idle_timeout_closes(s: PumpView, accepted: bool)
    requires
        s.phase is Active,
    ensures
        step(s, EventView::ReadTimeout, accepted) == (
            s.closing(Some(ChatError::ReadTimeout)),
            ActionView::Release,
        ),
{
}

/// A payload that is no message ends the connection it came in on, with
/// `MalformedMessage`, and nothing of it reaches the hub.
pub proof fn lemma_malformed_payload_closes(s: PumpView, bytes: Seq<u8>, accepted: bool)
    requires
        s.phase is Active,
        bytes.len() > 0,
        intake_of(s.peer, bytes) is Reject,
    ensures
        step(s, EventView::Received(bytes), accepted) == (
            s.closing(Some(ChatError::MalformedMessage)),
            ActionView::Release,
        ),
{
}

/// A read of whitespace alone changes nothing and reaches nobody.
pub proof fn lemma_blank_read_is_ignored(s: PumpView, bytes: Seq<u8>, accepted: bool)
    requires
        s.phase is Active,
        bytes.len() > 0,
        is_blank(utf8_lossy(bytes)),
    ensures
        step(s, EventView::Received(bytes), accepted) == (s, ActionView::Wait),
{
    lemma_trim_blank(utf8_lossy(bytes));
}

/// The pump reads a payload as the codec does: what is not blank is a message
/// exactly where `from_raw` would read it as one, and it goes out under the
/// peer's name in its structured form.
pub proof fn lemma_intake_reads_as_from_raw(peer: Seq<char>, bytes: Seq<u8>)
    ensures
        intake_of(peer, bytes) == ({
            let text = trim(utf8_lossy(bytes));
            if text.len() == 0 {
                IntakeView::Ignore
            } else {
                match parsed(text) {
                    Ok(m) => IntakeView::Publish(outgoing(peer, m)),
                    Err(error) => IntakeView::Reject(error),
                }
            }
        }),
        intake_of(peer, bytes) matches IntakeView::Reject(error) ==> error
            == ChatError::MalformedMessage,
{
    lemma_trim_idempotent(utf8_lossy(bytes));
}

/// The hub's answer counts for one kind of event only, a read that holds a
/// message: after any other event the connection is the same either way.
pub proof fn lemma_hub_answer_counts_for_messages_only(s: PumpView, e: EventView)
    requires
        match e {
            EventView::Received(bytes) => !(intake_of(s.peer, bytes) is Publish),
            _ => true,
        },
    ensures
        step(s, e, true) == step(s, e, false),
{
}

/// A lag ends nothing: the connection stays as it was, the skip is reported,
/// and the next delivery is written out like any other.
pub proof fn lemma_lag_is_skipped(s: PumpView, skipped: u64, next: Seq<char>, accepted: bool)
    requires
        s.phase is Active,
    ensures
        step(s, EventView::Lagged(skipped), accepted) == (s, ActionView::ReportLag(skipped)),
        step(step(s, EventView::Lagged(skipped), accepted).0, EventView::Delivered(next), accepted)
            == (s, ActionView::Write(next)),
{
}

/// Several connections side by side, after an event on the one at `at`.
pub open spec fn relay_step(
    pumps: Seq<PumpView>,
    at: int,
    e: EventView,
    accepted: bool,
) -> Seq<PumpView>
    recommends
        0 <= at < pumps.len(),
{
    pumps.update(at, step(pumps[at], e, accepted).0)
}

/// Whatever happens on one connection, a timeout and a malformed payload
/// among it, every other connection is left as it was, and so goes on as it
/// would have.
pub proof fn lemma_connections_are_isolated(
    pumps: Seq<PumpView>,
    at: int,
    e: EventView,
    accepted: bool,
    other: int,
)
    requires
        0 <= at < pumps.len(),
        0 <= other < pumps.len(),
        other != at,
    ensures
        relay_step(pumps, at, e, accepted).len() == pumps.len(),
        relay_step(pumps, at, e, accepted)[other] == pumps[other],
        forall|next: EventView, answer: bool|
            step(relay_step(pumps, at, e, accepted)[other], next, answer) == step(
                pumps[other],
                next,
                answer,
            ),
{
}

} // verus!
