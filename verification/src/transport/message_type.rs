//! The kinds of fleet message and the byte each kind has on the wire.

use vstd::prelude::*;

verus! {

/// What a fleet message is for.
#[derive(Debug, Clone, Copy, PartialEq, Eq, Structural)]
pub enum MessageType {
    /// A sign of life; carries no payload.
    Heartbeat,
    /// Application data; any payload.
    Data,
    /// A command, usually a short string.
    Control,
}

impl MessageType {
    /// The byte that stands for this kind on the wire.
    pub open spec fn spec_code(self) -> u8 {
        match self {
            MessageType::Heartbeat => 1,
            MessageType::Data => 2,
            MessageType::Control => 3,
        }
    }

    /// The kind that a wire byte stands for. A byte that names no kind is
    /// read as a heartbeat.
    pub open spec fn spec_from_code(value: u8) -> MessageType {
        if value == 2 {
            MessageType::Data
        } else if value == 3 {
            MessageType::Control
        } else {
            MessageType::Heartbeat
        }
    }

    /// The byte that stands for this kind on the wire.
    pub fn code(self) -> (code: u8)
        ensures
            code == self.spec_code(),
    {
        match self {
            MessageType::Heartbeat => 1,
            MessageType::Data => 2,
            MessageType::Control => 3,
        }
    }
}

impl From<u8> for MessageType {
    /// Reads a wire byte. A byte that names no kind is read as a heartbeat.
    fn from(value: u8) -> (kind: Self) {
        match value {
            1 => MessageType::Heartbeat,
            2 => MessageType::Data,
            3 => MessageType::Control,
            _ => MessageType::Heartbeat,
        }
    }
}

impl vstd::std_specs::convert::FromSpecImpl<u8> for MessageType {
    open spec fn obeys_from_spec() -> bool {
        true
    }

    open spec fn from_spec(value: u8) -> Self {
        MessageType::spec_from_code(value)
    }
}

} // verus!
