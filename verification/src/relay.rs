//! The inbound relay: the single ordered consumer of the transport's event
//! stream.
//!
//! The relay reads events strictly in arrival order, turns each user chat
//! message into a command dispatch, ignores every other event kind, and
//! terminates cleanly when the stream ends. Each dispatch is an independent
//! unit of work: the surrounding application schedules it without waiting
//! for earlier dispatches, so replies may leave out of order. The decisions
//! themselves are here; the scheduling and the waiting are outside the
//! library.

use vstd::prelude::*;
use crate::messages::{
    ChatEvent, ChatEventView, InboundMessage, InboundMessageView, OutboundSend, normalize_event,
    normalized_of,
};

verus! {

/// What the relay does with one read of the inbound stream.
pub enum RelayStep {
    /// A user chat message: hand its normalization to the command handler as
    /// an independently scheduled unit of work.
    Dispatch(InboundMessage),
    /// Any other event kind: read the next event, send nothing.
    Ignore,
    /// The stream is exhausted: the relay terminates cleanly.
    Stop,
}

/// Decide the relay's reaction to one read of the inbound stream. A user
/// chat message is dispatched as exactly its normalization; other events are
/// ignored; a closed stream stops the relay.
pub fn relay_step(item: Option<ChatEvent>) -> (r: RelayStep)
    ensures
        item is None ==> r is Stop,
        item matches Some(ev) ==> {
            &&& ev@ is Message ==> (r matches RelayStep::Dispatch(m) && m@ == normalized_of(ev@))
            &&& !(ev@ is Message) ==> r is Ignore
        },
{
    match item {
        None => RelayStep::Stop,
        Some(ev) => match normalize_event(&ev) {
            Some(m) => RelayStep::Dispatch(m),
            None => RelayStep::Ignore,
        },
    }
}

/// After a dispatch returns: a reply from the command handler is sent
/// verbatim to the channel the triggering message came from; no reply sends
/// nothing. A failure of the send itself is swallowed by the caller.
pub fn reply_send(msg: &InboundMessage, reply: Option<String>) -> (r: Option<OutboundSend>)
    ensures
        reply matches Some(t) ==> (r matches Some(o) && o@.channel == msg@.channel
            && o@.text == t@),
        reply is None ==> r is None,
{
    match reply {
        Some(t) => Some(OutboundSend { channel: msg.channel.clone(), text: t }),
        None => None,
    }
}

/// The views of a sequence of chat events, in order.
pub open spec fn event_views(events: Seq<ChatEvent>) -> Seq<ChatEventView> {
    events.map_values(|e: ChatEvent| e@)
}

/// The views of a sequence of inbound messages, in order.
pub open spec fn message_views(msgs: Seq<InboundMessage>) -> Seq<InboundMessageView> {
    msgs.map_values(|m: InboundMessage| m@)
}

/// The dispatches the relay makes while consuming `events` in order: one
/// normalized message per user chat message, nothing for any other event.
pub open spec fn dispatches_of(events: Seq<ChatEventView>) -> Seq<InboundMessageView>
    decreases events.len(),
{
    if events.len() == 0 {
        Seq::empty()
    } else if events.last() is Message {
        dispatches_of(events.drop_last()).push(normalized_of(events.last()))
    } else {
        dispatches_of(events.drop_last())
    }
}

/// Law: the relay dispatches every user chat message of the stream, exactly
/// once, in arrival order, and nothing else: its dispatches are the
/// normalizations of exactly the message events, kept in order.
pub proof fn lemma_dispatches_every_message(events: Seq<ChatEventView>)
    ensures
        dispatches_of(events) == events.filter(|e: ChatEventView| e is Message).map_values(
            |e: ChatEventView| normalized_of(e),
        ),
    decreases events.len(),
{
    reveal(Seq::filter);
    let keep = |e: ChatEventView| e is Message;
    let norm = |e: ChatEventView| normalized_of(e);
    if events.len() == 0 {
        assert(events.filter(keep).map_values(norm) =~= Seq::<InboundMessageView>::empty());
    } else {
        let prefix = events.drop_last();
        lemma_dispatches_every_message(prefix);
        if events.last() is Message {
            assert(prefix.filter(keep).push(events.last()).map_values(norm) =~= prefix.filter(
                keep,
            ).map_values(norm).push(norm(events.last())));
        }
    }
}

/// Consume a finished stream prefix in arrival order and return the
/// dispatches the relay makes for it, oldest first.
pub fn relay_dispatches(events: &Vec<ChatEvent>) -> (r: Vec<InboundMessage>)
    ensures
        message_views(r@) == dispatches_of(event_views(events@)),
{
    let n = events.len();
    let mut out: Vec<InboundMessage> = Vec::new();
    let mut i: usize = 0;
    while i < n
        invariant
            n == events@.len(),
            i <= n,
            message_views(out@) == dispatches_of(event_views(events@).take(i as int)),
        decreases n - i,
    {
        let ghost evs = event_views(events@);
        let ghost prev = out@;
        match normalize_event(&events[i]) {
            Some(m) => {
                proof {
                    assert(evs.take(i as int + 1).drop_last() =~= evs.take(i as int));
                    assert(evs.take(i as int + 1).last() == events@[i as int]@);
                }
                out.push(m);
                proof {
                    assert(message_views(prev.push(m)) =~= message_views(prev).push(m@));
                }
            },
            None => {
                proof {
                    assert(evs.take(i as int + 1).drop_last() =~= evs.take(i as int));
                    assert(evs.take(i as int + 1).last() == events@[i as int]@);
                }
            },
        }
        i += 1;
    }
    proof {
        assert(event_views(events@).take(n as int) =~= event_views(events@));
    }
    out
}

} // verus!
