//! A room message as the handler sees it: plain values taken from the
//! event and from the room it arrived in.

use vstd::prelude::*;

verus! {

/// The bot's own membership in the room a message arrived in.
#[derive(Clone, Copy, Debug, PartialEq, Eq, Structural)]
pub enum Membership {
    Joined,
    Left,
    Invited,
}

/// What kind of message an event carries. Everything that is not plain
/// text (images, reactions, notices, ...) is `Other`.
#[derive(Clone, Copy, Debug, PartialEq, Eq, Structural)]
pub enum MessageKind {
    Text,
    Other,
}

/// One incoming room message. It lives for the handling of one event and
/// is never stored.
#[derive(Clone, Debug, PartialEq, Eq)]
pub struct RoomMessage {
    /// Membership state of the room at the time of delivery.
    pub membership: Membership,
    pub kind: MessageKind,
    /// The room's stable identifier.
    pub room_id: String,
    /// The sender's user id.
    pub sender: String,
    /// The message body; meaningful for text messages.
    pub body: String,
}

/// The mathematical content of a [`RoomMessage`].
pub struct RoomMessageView {
    pub membership: Membership,
    pub kind: MessageKind,
    pub room_id: Seq<char>,
    pub sender: Seq<char>,
    pub body: Seq<char>,
}

impl View for RoomMessage {
    type V = RoomMessageView;

    open spec fn view(&self) -> RoomMessageView {
        RoomMessageView {
            membership: self.membership,
            kind: self.kind,
            room_id: self.room_id@,
            sender: self.sender@,
            body: self.body@,
        }
    }
}

/// The command prefix that asks for a greeting.
pub open spec fn trigger_prefix() -> Seq<char> {
    "!oxy"@
}

/// The account whose messages are answered with a quotation.
pub open spec fn fool_sender() -> Seq<char> {
    "@signal_b0431c07-a3b8-44e2-8022-5fde36a5c4a5:beeper.local"@
}

/// A message is looked at only if it is a text message in a joined room.
pub open spec fn is_relevant(message: RoomMessageView) -> bool {
    message.membership == Membership::Joined && message.kind == MessageKind::Text
}

/// The message was sent by the account with the given id.
pub open spec fn sent_by(message: RoomMessageView, user_id: Seq<char>) -> bool {
    message.sender == user_id
}

/// The body begins with the command prefix.
pub open spec fn is_trigger(message: RoomMessageView) -> bool {
    trigger_prefix().is_prefix_of(message.body)
}

impl RoomMessage {
    /// Text message in a joined room?
    pub fn is_relevant(&self) -> (relevant: bool)
        ensures
            relevant == is_relevant(self@),
    {
        self.membership == Membership::Joined && self.kind == MessageKind::Text
    }

    /// Sent by the account with the given id?
    pub fn sent_by(&self, user_id: &str) -> (own: bool)
        ensures
            own == sent_by(self@, user_id@),
    {
        crate::text::same_text(self.sender.as_str(), user_id)
    }

    /// Does the body begin with the command prefix?
    pub fn is_trigger(&self) -> (trigger: bool)
        ensures
            trigger == is_trigger(self@),
    {
        crate::text::starts_with(self.body.as_str(), "!oxy")
    }

    /// Sent by the account that is answered with a quotation?
    pub fn from_fool_sender(&self) -> (fool: bool)
        ensures
            fool == sent_by(self@, fool_sender()),
    {
        self.sent_by("@signal_b0431c07-a3b8-44e2-8022-5fde36a5c4a5:beeper.local")
    }
}

} // verus!
