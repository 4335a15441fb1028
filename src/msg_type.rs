//! The closed set of message kinds and their one-byte wire tags.
use vstd::prelude::*;

verus! {

/// The kind of a message, carried on the wire as a single tag byte.
#[derive(Clone, Copy, Debug, PartialEq, Eq, Structural)]
pub enum MsgType {
    Event,
    Command,
    Ack,
    Error,
}

/// The wire tag of each message kind.
pub open spec fn tag_of(t: MsgType) -> u8 {
    match t {
        MsgType::Event => 0x01,
        MsgType::Command => 0x02,
        MsgType::Ack => 0x03,
        MsgType::Error => 0x04,
    }
}

/// The message kind that a tag byte names, if any.
pub open spec fn msg_type_of(v: u8) -> Option<MsgType> {
    if v == 0x01 {
        Some(MsgType::Event)
    } else if v == 0x02 {
        Some(MsgType::Command)
    } else if v == 0x03 {
        Some(MsgType::Ack)
    } else if v == 0x04 {
        Some(MsgType::Error)
    } else {
        None
    }
}

impl MsgType {
    /// Reads a tag byte; an unassigned tag gives `None`.
    pub fn from_u8(v: u8) -> (r: Option<MsgType>)
        ensures
            r == msg_type_of(v),
    {
        match v {
            0x01 => Some(MsgType::Event),
            0x02 => Some(MsgType::Command),
            0x03 => Some(MsgType::Ack),
            0x04 => Some(MsgType::Error),
            _ => None,
        }
    }

    /// The tag byte that stands for this kind on the wire.
    pub fn to_u8(self) -> (r: u8)
        ensures
            r == tag_of(self),
    {
        match self {
            MsgType::Event => 0x01,
            MsgType::Command => 0x02,
            MsgType::Ack => 0x03,
            MsgType::Error => 0x04,
        }
    }
}

/// Tags and message kinds are in one-to-one correspondence: every kind
/// reads back from its own tag, and a tag that names a kind is that
/// kind's tag.
pub proof fn lemma_tag_bijective()
    ensures
        forall|t: MsgType| #[trigger] msg_type_of(tag_of(t)) == Some(t),
        forall|v: u8| #[trigger] msg_type_of(v) matches Some(t) ==> tag_of(t) == v,
{
}

} // verus!
