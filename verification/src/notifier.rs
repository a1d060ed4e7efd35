//! The switch notifier: the single ordered consumer of the fan-out
//! subscription to scene-switch events.
//!
//! For each event the notifier composes the message prefix naming the scene
//! and, when the event's channel is present in the shared store, appends the
//! channel's current bitrate description folded to lower case; the composed
//! message is sent to the event's channel. A read that lagged behind the
//! publisher is skipped (dropped events are an accepted loss), and a closed
//! source stops the loop cleanly. The subscription, the lock around the
//! store and the send itself live outside the library.

use vstd::prelude::*;
use vstd::string::StringExecFns;
use crate::messages::{OutboundSend, OutboundSendView, SwitchEvent, SwitchEventView};
use crate::store::ChannelStateStore;

verus! {

/// The lowercasing of a character sequence, as `str::to_lowercase` computes
/// it.
pub uninterp spec fn lower_of(s: Seq<char>) -> Seq<char>;

/// Relies on `str::to_lowercase` of std: the result is the Unicode lowercase
/// of `s`, a function of the characters of `s` alone.
#[verifier::external_body]
fn to_lower(s: &str) -> (r: String)
    ensures
        r@ == lower_of(s@),
{
    s.to_lowercase()
}

/// The notification text for a scene, given the suffix to carry after the
/// prefix: the fixed prefix naming the scene, then the suffix if there is
/// one.
pub open spec fn notification_text(scene: Seq<char>, suffix: Option<Seq<char>>) -> Seq<char> {
    "Scene switched to \""@ + scene + "\", "@ + match suffix {
        Some(s) => s,
        None => Seq::<char>::empty(),
    }
}

/// Compose the notification for `scene`, appending `suffix` when given:
/// exactly the prefix `Scene switched to "<scene>", ` followed by the
/// suffix, or the prefix alone.
pub fn compose_notification(scene: &str, suffix: Option<&str>) -> (r: String)
    ensures
        r@ == notification_text(
            scene@,
            match suffix {
                Some(s) => Some(s@),
                None => None::<Seq<char>>,
            },
        ),
{
    let mut m: String = "Scene switched to \"".to_owned();
    m.append(scene);
    m.append("\", ");
    match suffix {
        Some(s) => {
            m.append(s);
        },
        None => {
            proof {
                assert(m@ + Seq::<char>::empty() =~= m@);
            }
        },
    }
    m
}

/// The outbound message one switch event produces against one store state:
/// it targets the event's channel, and its text is the notification for the
/// event's scene, with the channel's lowercased bitrate description as the
/// suffix when the store holds the channel and no suffix otherwise.
pub open spec fn notification_of(
    store: Map<Seq<char>, Seq<char>>,
    ev: SwitchEventView,
) -> OutboundSendView {
    OutboundSendView {
        channel: ev.channel,
        text: notification_text(
            ev.scene,
            if store.dom().contains(ev.channel) {
                Some(lower_of(store[ev.channel]))
            } else {
                None
            },
        ),
    }
}

/// Build the outbound notification for one switch event from a snapshot of
/// the store. The caller holds a shared read lock only around this call, so
/// the lookup and the formatting, never the send, sit in the critical
/// section.
pub fn notify_action(store: &ChannelStateStore, ev: &SwitchEvent) -> (r: OutboundSend)
    requires
        store.wf(),
    ensures
        r@ == notification_of(store@, ev@),
{
    let state = store.get(&ev.channel);
    let text = match state {
        Some(st) => {
            let lowered = to_lower(st.bitrate_description().as_str());
            compose_notification(ev.scene.as_str(), Some(lowered.as_str()))
        },
        None => compose_notification(ev.scene.as_str(), None),
    };
    OutboundSend { channel: ev.channel.clone(), text }
}

/// One read of the fan-out subscription, as the notifier's loop sees it.
pub enum SourceItem {
    /// The next switch event, delivered in publish order.
    Event(SwitchEvent),
    /// The subscriber fell behind the publisher's buffer and events were
    /// dropped rather than delivered late.
    Lagged,
    /// The source is permanently closed.
    Closed,
}

/// What the notifier does with one read of the subscription.
pub enum NotifierStep {
    /// Send this message, then read on; a failure of the send is swallowed.
    Send(OutboundSend),
    /// A lagged read: skip what was lost and read on.
    Skip,
    /// A closed source: the loop terminates cleanly.
    Stop,
}

/// Decide the notifier's reaction to one read of the subscription: an event
/// yields exactly its notification, a lagged read is skipped, and a closed
/// source stops the loop instead of crashing it.
pub fn notifier_step(store: &ChannelStateStore, item: SourceItem) -> (r: NotifierStep)
    requires
        store.wf(),
    ensures
        item matches SourceItem::Event(ev) ==> (r matches NotifierStep::Send(o) && o@
            == notification_of(store@, ev@)),
        item is Lagged ==> r is Skip,
        item is Closed ==> r is Stop,
{
    match item {
        SourceItem::Event(ev) => NotifierStep::Send(notify_action(store, &ev)),
        SourceItem::Lagged => NotifierStep::Skip,
        SourceItem::Closed => NotifierStep::Stop,
    }
}

/// The views of a sequence of outbound sends, in order.
pub open spec fn send_views(sends: Seq<OutboundSend>) -> Seq<OutboundSendView> {
    sends.map_values(|o: OutboundSend| o@)
}

/// Consume a finished prefix of the subscription strictly in order against
/// one store snapshot: the notifier composes each event's message fully
/// before reading the next, so notifications leave in publish order, one per
/// event.
pub fn notify_sequence(store: &ChannelStateStore, events: &Vec<SwitchEvent>) -> (r: Vec<
    OutboundSend,
>)
    requires
        store.wf(),
    ensures
        r@.len() == events@.len(),
        forall|i: int|
            0 <= i < events@.len() ==> send_views(r@)[i] == notification_of(
                store@,
                events@[i]@,
            ),
{
    let n = events.len();
    let mut out: Vec<OutboundSend> = Vec::new();
    let mut i: usize = 0;
    while i < n
        invariant
            store.wf(),
            n == events@.len(),
            i <= n,
            out@.len() == i,
            forall|j: int|
                0 <= j < i ==> send_views(out@)[j] == notification_of(store@, events@[j]@),
        decreases n - i,
    {
        let send = notify_action(store, &events[i]);
        let ghost prev = out@;
        out.push(send);
        proof {
            assert(out@ == prev.push(send));
            assert(send_views(out@)[i as int] == send@);
            assert forall|j: int| 0 <= j < i + 1 implies send_views(out@)[j] == notification_of(
                store@,
                events@[j]@,
            ) by {
                if j < i {
                    assert(out@[j] == prev[j]);
                    assert(send_views(out@)[j] == send_views(prev)[j]);
                }
            }
        }
        i += 1;
    }
    out
}

/// Law: replaying a switch event produces an identical outbound message. The
/// notification is a function of the event and the store contents alone, so
/// two deliveries of the same event against the same store state yield two
/// independent, equal sends; the core deduplicates nothing.
pub proof fn lemma_replay_identical(
    store: Map<Seq<char>, Seq<char>>,
    ev: SwitchEventView,
    first: OutboundSendView,
    second: OutboundSendView,
)
    requires
        first == notification_of(store, ev),
        second == notification_of(store, ev),
    ensures
        first == second,
{
}

} // verus!
