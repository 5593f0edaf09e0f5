//! Zero-terminated byte messages, the only data that crosses to the host.

use vstd::prelude::*;
use vstd::string::*;

verus! {

/// The byte that ends every message.
pub const TERMINATOR: u8 = 0;

/// `bytes` is non-empty and its last byte is the terminator.
pub open spec fn is_terminated(bytes: Seq<u8>) -> bool {
    bytes.len() > 0 && bytes.last() == TERMINATOR
}

/// `text` followed by a single terminator.
pub open spec fn terminated(text: Seq<u8>) -> Seq<u8> {
    text.push(TERMINATOR)
}

/// An immutable sequence of bytes that ends in a zero byte.
#[derive(Debug, PartialEq, Eq)]
pub struct Message {
    bytes: Vec<u8>,
}

impl View for Message {
    type V = Seq<u8>;

    closed spec fn view(&self) -> Seq<u8> {
        self.bytes@
    }
}

impl Message {
    #[verifier::type_invariant]
    spec fn ends_in_terminator(&self) -> bool {
        is_terminated(self.bytes@)
    }

    /// The UTF-8 bytes of `text`, followed by the terminator.
    pub fn from_text(text: &str) -> (message: Message)
        ensures
            message@ == terminated(text.spec_bytes()),
    {
        let mut bytes = text.as_bytes_vec();
        bytes.push(TERMINATOR);
        Message { bytes }
    }

    /// The bytes of the message, terminator included.
    pub fn as_bytes(&self) -> (bytes: &[u8])
        ensures
            bytes@ == self@,
            is_terminated(bytes@),
    {
        proof {
            use_type_invariant(self);
        }
        self.bytes.as_slice()
    }
}

} // verus!
