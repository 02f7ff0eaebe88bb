//! Where a notification goes and how it is addressed.

use vstd::prelude::*;

use jid::BareJid;

verus! {

/// `jid::BareJid`, an XMPP address without a resource. The library carries
/// addresses through and never looks inside one.
#[verifier::external_type_specification]
#[verifier::external_body]
pub struct ExBareJid(jid::BareJid);

/// `Clone` for `jid::BareJid`, which the crate derives: the copy is the
/// address that was cloned.
pub assume_specification[ <jid::BareJid as Clone>::clone ](address: &jid::BareJid) -> (copy:
    jid::BareJid)
    ensures
        copy == *address,
;

/// The target of a notification: one user, or a room with many occupants.
#[derive(Debug, Clone, PartialEq)]
pub enum RoomId {
    User(BareJid),
    Room(BareJid),
}

/// How a message is delivered: to one user's chat, or to all occupants of a
/// room.
#[derive(Debug, Clone, Copy, PartialEq, Eq, Structural)]
pub enum MessageType {
    Chat,
    Groupchat,
}

impl RoomId {
    /// The address of the target.
    pub open spec fn target(self) -> BareJid {
        match self {
            RoomId::User(address) => address,
            RoomId::Room(address) => address,
        }
    }

    /// The kind of message that reaches the target: a chat message for a user,
    /// a group chat message for a room.
    pub open spec fn kind(self) -> MessageType {
        match self {
            RoomId::User(_) => MessageType::Chat,
            RoomId::Room(_) => MessageType::Groupchat,
        }
    }

    pub fn address(&self) -> (address: &BareJid)
        ensures
            *address == self.target(),
    {
        match self {
            RoomId::User(address) => address,
            RoomId::Room(address) => address,
        }
    }

    pub fn message_type(&self) -> (kind: MessageType)
        ensures
            kind == self.kind(),
    {
        match self {
            RoomId::User(_) => MessageType::Chat,
            RoomId::Room(_) => MessageType::Groupchat,
        }
    }

    /// A second value for the same target.
    pub fn duplicate(&self) -> (copy: RoomId)
        ensures
            copy == *self,
    {
        match self {
            RoomId::User(address) => RoomId::User(address.clone()),
            RoomId::Room(address) => RoomId::Room(address.clone()),
        }
    }
}

} // verus!
