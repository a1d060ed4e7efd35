use chat_bridge::messages::{Badge, ChatEvent, InboundMessage, OutboundSend, SwitchEvent};
use chat_bridge::notifier::{notifier_step, notify_action, NotifierStep, SourceItem};
use chat_bridge::relay::{relay_dispatches, relay_step, reply_send, RelayStep};
use chat_bridge::store::{ChannelState, ChannelStateStore};

fn badge(name: &str, version: &str) -> Badge {
    Badge { name: name.to_string(), version: version.to_string() }
}

fn message_event(text: &str, channel: &str, user: &str, badges: Vec<Badge>) -> ChatEvent {
    ChatEvent::Message {
        text: text.to_string(),
        channel: channel.to_string(),
        user: user.to_string(),
        badges,
    }
}

fn normalize(ev: &ChatEvent) -> InboundMessage {
    chat_bridge::messages::normalize_event(ev).expect("a chat message normalizes")
}

#[test]
fn broadcaster_badge_sets_owner_flag() {
    let ev = message_event("hi", "foo", "alice", vec![badge("broadcaster", "1")]);
    let m = normalize(&ev);
    assert!(m.is_owner);
    assert!(!m.is_mod);
}

#[test]
fn moderator_badge_sets_mod_flag() {
    let ev = message_event("hi", "foo", "bob", vec![badge("moderator", "1")]);
    let m = normalize(&ev);
    assert!(!m.is_owner);
    assert!(m.is_mod);
}

#[test]
fn both_badges_set_both_flags() {
    let ev = message_event(
        "hi",
        "foo",
        "carol",
        vec![badge("subscriber", "12"), badge("broadcaster", "1"), badge("moderator", "1")],
    );
    let m = normalize(&ev);
    assert!(m.is_owner);
    assert!(m.is_mod);
}

#[test]
fn badge_with_other_version_grants_nothing() {
    let ev = message_event("hi", "foo", "dan", vec![badge("broadcaster", "2")]);
    let m = normalize(&ev);
    assert!(!m.is_owner);
    assert!(!m.is_mod);
}

#[test]
fn no_badges_no_flags() {
    let ev = message_event("hi", "foo", "eve", Vec::new());
    let m = normalize(&ev);
    assert!(!m.is_owner);
    assert!(!m.is_mod);
}

#[test]
fn channel_and_user_carried_verbatim() {
    let ev = message_event("!Bitrate", "BarChannel", "AlIcE", Vec::new());
    let m = normalize(&ev);
    assert_eq!(m.text, "!Bitrate");
    assert_eq!(m.channel, "BarChannel");
    assert_eq!(m.user, "AlIcE");
}

#[test]
fn other_events_are_not_normalized() {
    assert!(chat_bridge::messages::normalize_event(&ChatEvent::Other).is_none());
}

#[test]
fn relay_dispatches_every_message_in_order() {
    let events = vec![
        message_event("first", "foo", "alice", Vec::new()),
        ChatEvent::Other,
        message_event("second", "foo", "bob", Vec::new()),
        ChatEvent::Other,
    ];
    let dispatches = relay_dispatches(&events);
    assert_eq!(dispatches.len(), 2);
    assert_eq!(dispatches[0].text, "first");
    assert_eq!(dispatches[0].user, "alice");
    assert_eq!(dispatches[1].text, "second");
    assert_eq!(dispatches[1].user, "bob");
}

#[test]
fn relay_step_dispatches_ignores_and_stops() {
    let step = relay_step(Some(message_event("hi", "foo", "alice", Vec::new())));
    match step {
        RelayStep::Dispatch(m) => assert_eq!(m.text, "hi"),
        _ => panic!("a chat message is dispatched"),
    }
    assert!(matches!(relay_step(Some(ChatEvent::Other)), RelayStep::Ignore));
    assert!(matches!(relay_step(None), RelayStep::Stop));
}

#[test]
fn reply_goes_to_triggering_channel() {
    let ev = message_event("!bitrate", "bar", "alice", Vec::new());
    let m = normalize(&ev);
    let send = reply_send(&m, Some("Bitrate: 2500kbps".to_string()));
    let send = send.expect("a reply is sent");
    assert_eq!(send.channel, "bar");
    assert_eq!(send.text, "Bitrate: 2500kbps");
}

#[test]
fn no_reply_sends_nothing() {
    let ev = message_event("hello", "bar", "alice", Vec::new());
    let m = normalize(&ev);
    assert!(reply_send(&m, None).is_none());
}

fn store_with(channel: &str, bitrate: &str) -> ChannelStateStore {
    let mut store = ChannelStateStore::new();
    store.insert(channel.to_string(), ChannelState::new(bitrate.to_string()));
    store
}

fn switch(channel: &str, scene: &str) -> SwitchEvent {
    SwitchEvent { channel: channel.to_string(), scene: scene.to_string() }
}

#[test]
fn notification_for_known_channel_is_exact() {
    let store = store_with("foo", "3000 kbps");
    let send = notify_action(&store, &switch("foo", "Gaming"));
    assert_eq!(send.channel, "foo");
    assert_eq!(send.text, "Scene switched to \"Gaming\", 3000 kbps");
}

#[test]
fn notification_lowercases_the_bitrate_description() {
    let store = store_with("foo", "3000 Kbps MAX");
    let send = notify_action(&store, &switch("foo", "Gaming"));
    assert_eq!(send.text, "Scene switched to \"Gaming\", 3000 kbps max");
}

#[test]
fn notification_for_unknown_channel_is_prefix_only() {
    let store = store_with("foo", "3000 kbps");
    let send = notify_action(&store, &switch("baz", "Gaming"));
    assert_eq!(send.channel, "baz");
    assert_eq!(send.text, "Scene switched to \"Gaming\", ");
}

#[test]
fn notification_on_empty_store_is_prefix_only() {
    let store = ChannelStateStore::new();
    let send = notify_action(&store, &switch("foo", "Intermission"));
    assert_eq!(send.text, "Scene switched to \"Intermission\", ");
}

#[test]
fn replaying_an_event_yields_identical_sends() {
    let store = store_with("foo", "3000 kbps");
    let ev = switch("foo", "Gaming");
    let first = notify_action(&store, &ev);
    let second = notify_action(&store, &ev);
    assert_eq!(first.channel, second.channel);
    assert_eq!(first.text, second.text);
}

#[test]
fn notifier_step_sends_skips_and_stops() {
    let store = store_with("foo", "3000 kbps");
    match notifier_step(&store, SourceItem::Event(switch("foo", "Gaming"))) {
        NotifierStep::Send(o) => {
            assert_eq!(o.channel, "foo");
            assert_eq!(o.text, "Scene switched to \"Gaming\", 3000 kbps");
        },
        _ => panic!("an event is sent"),
    }
    assert!(matches!(notifier_step(&store, SourceItem::Lagged), NotifierStep::Skip));
    assert!(matches!(notifier_step(&store, SourceItem::Closed), NotifierStep::Stop));
}

#[test]
fn store_returns_inserted_state() {
    let store = store_with("foo", "3000 kbps");
    let st = store.get(&"foo".to_string()).expect("the channel is stored");
    assert_eq!(st.bitrate_description().as_str(), "3000 kbps");
    assert!(store.get(&"baz".to_string()).is_none());
}

#[test]
fn store_insert_overwrites_existing_channel() {
    let mut store = store_with("foo", "3000 kbps");
    store.insert("foo".to_string(), ChannelState::new("2000 kbps".to_string()));
    let st = store.get(&"foo".to_string()).expect("the channel is stored");
    assert_eq!(st.bitrate_description().as_str(), "2000 kbps");
}

#[test]
fn end_to_end_bitrate_command() {
    // Inbound event from user "alice" in channel "bar" with text "!bitrate"
    // and no badges; the handler replies with the bitrate. Exactly one send
    // results, to channel "bar", with the handler's reply verbatim.
    let handler = |m: &InboundMessage| -> Option<String> {
        if m.text == "!bitrate" { Some("Bitrate: 2500kbps".to_string()) } else { None }
    };
    let mut sends: Vec<OutboundSend> = Vec::new();
    let events = vec![message_event("!bitrate", "bar", "alice", Vec::new()), ChatEvent::Other];
    for ev in &events {
        if let RelayStep::Dispatch(m) = relay_step(Some(ev.clone())) {
            let reply = handler(&m);
            if let Some(send) = reply_send(&m, reply) {
                sends.push(send);
            }
        }
    }
    assert_eq!(sends.len(), 1);
    assert_eq!(sends[0].channel, "bar");
    assert_eq!(sends[0].text, "Bitrate: 2500kbps");
}

#[test]
fn concurrent_reads_never_see_partial_state() {
    // A writer task keeps replacing the state for "foo" between two values
    // while a reader repeatedly formats a notification under a shared read
    // lock. Every read must observe one complete state or the other, never a
    // mixture.
    let old_text = "Scene switched to \"Gaming\", 1111 kbps";
    let new_text = "Scene switched to \"Gaming\", 2222 kbps";
    let rt = tokio::runtime::Runtime::new().expect("a runtime starts");
    rt.block_on(async {
        let store = std::sync::Arc::new(tokio::sync::RwLock::new(ChannelStateStore::new()));
        store
            .write()
            .await
            .insert("foo".to_string(), ChannelState::new("1111 kbps".to_string()));
        let writer_store = store.clone();
        let writer = tokio::spawn(async move {
            for _ in 0..200 {
                writer_store
                    .write()
                    .await
                    .insert("foo".to_string(), ChannelState::new("2222 kbps".to_string()));
                writer_store
                    .write()
                    .await
                    .insert("foo".to_string(), ChannelState::new("1111 kbps".to_string()));
            }
        });
        let ev = switch("foo", "Gaming");
        for _ in 0..200 {
            let send = {
                let guard = store.read().await;
                notify_action(&guard, &ev)
            };
            assert!(send.text == old_text || send.text == new_text);
            tokio::task::yield_now().await;
        }
        writer.await.expect("the writer finishes");
    });
}

#[test]
fn notifications_leave_in_publish_order() {
    let store = store_with("foo", "3000 kbps");
    let events = vec![switch("foo", "Gaming"), switch("baz", "Intermission"), switch("foo", "BRB")];
    let sends = chat_bridge::notifier::notify_sequence(&store, &events);
    assert_eq!(sends.len(), 3);
    assert_eq!(sends[0].channel, "foo");
    assert_eq!(sends[0].text, "Scene switched to \"Gaming\", 3000 kbps");
    assert_eq!(sends[1].channel, "baz");
    assert_eq!(sends[1].text, "Scene switched to \"Intermission\", ");
    assert_eq!(sends[2].channel, "foo");
    assert_eq!(sends[2].text, "Scene switched to \"BRB\", 3000 kbps");
}
