//! The plain values exchanged between the bridge core, the chat transport,
//! the command handler and the broadcasting controller.

use vstd::prelude::*;

verus! {

/// A chat badge carried by the sender of an inbound chat message.
#[derive(Clone, Debug)]
pub struct Badge {
    pub name: String,
    pub version: String,
}

/// Mathematical image of a [`Badge`]: both fields as character sequences.
#[verifier::ext_equal]
pub struct BadgeView {
    pub name: Seq<char>,
    pub version: Seq<char>,
}

impl View for Badge {
    type V = BadgeView;

    open spec fn view(&self) -> BadgeView {
        BadgeView { name: self.name@, version: self.version@ }
    }
}

/// One event from the chat network's inbound stream: either a user chat
/// message, or any other kind of server traffic, which the relay ignores.
#[derive(Clone, Debug)]
pub enum ChatEvent {
    Message { text: String, channel: String, user: String, badges: Vec<Badge> },
    Other,
}

/// Mathematical image of a [`ChatEvent`].
#[verifier::ext_equal]
pub enum ChatEventView {
    Message { text: Seq<char>, channel: Seq<char>, user: Seq<char>, badges: Seq<BadgeView> },
    Other,
}

/// The views of a sequence of badges, in order.
pub open spec fn badge_views(badges: Seq<Badge>) -> Seq<BadgeView> {
    badges.map_values(|b: Badge| b@)
}

impl View for ChatEvent {
    type V = ChatEventView;

    open spec fn view(&self) -> ChatEventView {
        match self {
            ChatEvent::Message { text, channel, user, badges } => ChatEventView::Message {
                text: text@,
                channel: channel@,
                user: user@,
                badges: badge_views(badges@),
            },
            ChatEvent::Other => ChatEventView::Other,
        }
    }
}

/// A normalized inbound message, the input handed to the command handler.
#[derive(Clone, Debug)]
pub struct InboundMessage {
    pub text: String,
    pub channel: String,
    pub user: String,
    pub is_owner: bool,
    pub is_mod: bool,
}

/// Mathematical image of an [`InboundMessage`].
#[verifier::ext_equal]
pub struct InboundMessageView {
    pub text: Seq<char>,
    pub channel: Seq<char>,
    pub user: Seq<char>,
    pub is_owner: bool,
    pub is_mod: bool,
}

impl View for InboundMessage {
    type V = InboundMessageView;

    open spec fn view(&self) -> InboundMessageView {
        InboundMessageView {
            text: self.text@,
            channel: self.channel@,
            user: self.user@,
            is_owner: self.is_owner,
            is_mod: self.is_mod,
        }
    }
}

/// A scene-switch announcement from the broadcasting controller.
#[derive(Clone, Debug)]
pub struct SwitchEvent {
    pub channel: String,
    pub scene: String,
}

/// Mathematical image of a [`SwitchEvent`].
#[verifier::ext_equal]
pub struct SwitchEventView {
    pub channel: Seq<char>,
    pub scene: Seq<char>,
}

impl View for SwitchEvent {
    type V = SwitchEventView;

    open spec fn view(&self) -> SwitchEventView {
        SwitchEventView { channel: self.channel@, scene: self.scene@ }
    }
}

/// A request that the transport send `text` to `channel` on the chat network.
#[derive(Clone, Debug)]
pub struct OutboundSend {
    pub channel: String,
    pub text: String,
}

/// Mathematical image of an [`OutboundSend`].
#[verifier::ext_equal]
pub struct OutboundSendView {
    pub channel: Seq<char>,
    pub text: Seq<char>,
}

impl View for OutboundSend {
    type V = OutboundSendView;

    open spec fn view(&self) -> OutboundSendView {
        OutboundSendView { channel: self.channel@, text: self.text@ }
    }
}

/// A badge grants the privilege called `name` when its name is `name` and its
/// version is `"1"`.
pub open spec fn badge_is(b: BadgeView, name: Seq<char>) -> bool {
    b.name == name && b.version == "1"@
}

/// Whether some badge in `badges` grants the privilege called `name`.
pub open spec fn badge_grants(badges: Seq<BadgeView>, name: Seq<char>) -> bool {
    exists|i: int| 0 <= i < badges.len() && badge_is(#[trigger] badges[i], name)
}

/// Linear scan deciding whether some badge matches `name` with version `"1"`.
pub fn has_badge(badges: &Vec<Badge>, name: &String) -> (r: bool)
    ensures
        r == badge_grants(badge_views(badges@), name@),
{
    let version_one: String = "1".to_owned();
    let n = badges.len();
    let mut i: usize = 0;
    while i < n
        invariant
            n == badges.len(),
            i <= n,
            version_one@ == "1"@,
            forall|j: int| 0 <= j < i ==> !badge_is(#[trigger] badge_views(badges@)[j], name@),
        decreases n - i,
    {
        if badges[i].name == *name && badges[i].version == version_one {
            assert(badge_is(badge_views(badges@)[i as int], name@));
            return true;
        }
        i += 1;
    }
    false
}

/// The normalization of an inbound chat message: text, channel and sender
/// login are carried over verbatim, and the two privilege flags record the
/// broadcaster and moderator badges.
pub open spec fn normalized_of(ev: ChatEventView) -> InboundMessageView
    recommends
        ev is Message,
{
    match ev {
        ChatEventView::Message { text, channel, user, badges } => InboundMessageView {
            text,
            channel,
            user,
            is_owner: badge_grants(badges, "broadcaster"@),
            is_mod: badge_grants(badges, "moderator"@),
        },
        ChatEventView::Other => arbitrary(),
    }
}

/// Turn one inbound chat event into the command handler's input. A user chat
/// message yields exactly its normalization; every other event kind yields
/// nothing.
pub fn normalize_event(ev: &ChatEvent) -> (r: Option<InboundMessage>)
    ensures
        r is Some <==> ev@ is Message,
        r matches Some(m) ==> m@ == normalized_of(ev@),
{
    match ev {
        ChatEvent::Message { text, channel, user, badges } => {
            let owner_name: String = "broadcaster".to_owned();
            let mod_name: String = "moderator".to_owned();
            let is_owner = has_badge(badges, &owner_name);
            let is_mod = has_badge(badges, &mod_name);
            Some(InboundMessage {
                text: text.clone(),
                channel: channel.clone(),
                user: user.clone(),
                is_owner,
                is_mod,
            })
        },
        ChatEvent::Other => None,
    }
}

} // verus!
