//! What an unrecoverable fault carries, and the message reported for it.

use vstd::prelude::*;
use vstd::string::*;
use crate::message::{terminated, Message};

verus! {

/// The text reported for a fault whose payload is not text.
pub const FALLBACK_TEXT: &'static str = "Rust panic";

/// The payload of an unrecoverable fault.
#[derive(Clone, Copy, Debug, PartialEq, Eq)]
pub enum FaultPayload<'a> {
    /// A human-readable description of the fault.
    Text(&'a str),
    /// Anything else.
    Opaque,
}

impl<'a> FaultPayload<'a> {
    /// The bytes reported for this payload: its own text where it has one,
    /// the fallback text otherwise, zero-terminated either way.
    pub open spec fn message_bytes(self) -> Seq<u8> {
        match self {
            FaultPayload::Text(text) => terminated(text.spec_bytes()),
            FaultPayload::Opaque => terminated(FALLBACK_TEXT.spec_bytes()),
        }
    }

    /// The message reported for this payload.
    pub fn message(&self) -> (message: Message)
        ensures
            message@ == self.message_bytes(),
    {
        match self {
            FaultPayload::Text(text) => Message::from_text(text),
            FaultPayload::Opaque => Message::from_text(FALLBACK_TEXT),
        }
    }
}

/// The message for a payload without text, byte by byte.
pub proof fn lemma_fallback_bytes()
    ensures
        FaultPayload::Opaque.message_bytes() == seq![
            82u8, 117, 115, 116, 32, 112, 97, 110, 105, 99, 0,
        ],
{
    reveal_strlit("Rust panic");
    is_ascii_spec_bytes(FALLBACK_TEXT);
}

} // verus!
