//! Messages of the interface through which programs register the interfaces that they handle.

use crate::ids::{EncodedMessage, InterfaceHash};
use crate::wire::{read_tag, DecodeError, Encoded, Wire};
use vstd::prelude::*;

verus! {

broadcast use vstd::array::group_array_axioms;

/// Message sent on the registration interface.
#[derive(Debug)]
pub enum InterfaceMessage {
    /// Asks to become the handler of an interface.
    Register(InterfaceHash),
}

/// The hash that `bytes` asks to register, if `bytes` is the encoding of a message of the
/// registration interface: a zero byte that selects `Register`, then the 32 bytes of the hash,
/// then nothing.
///
/// The registration interface is defined outside of this crate. That its messages have this form,
/// and that one with bytes after the hash is refused, is assumed here.
pub open spec fn registered_by(bytes: Seq<u8>) -> Option<Seq<u8>> {
    if bytes.len() == 33 && bytes[0] == 0 {
        Some(bytes.skip(1))
    } else {
        None
    }
}

impl InterfaceMessage {
    /// Reads the message of the registration interface whose encoding `message` is, all of it.
    pub fn decode(message: &EncodedMessage) -> (decoded: Result<InterfaceMessage, DecodeError>)
        ensures
            match decoded {
                Ok(InterfaceMessage::Register(hash)) => registered_by(message@) == Some(hash@),
                Err(_) => registered_by(message@) is None,
            },
    {
        match read_tag(message.0.as_slice()) {
            Ok((0, after_tag)) => {
                match <[u8; 32]>::decode(after_tag) {
                    Ok((hash, rest)) => {
                        if rest.len() == 0 {
                            Ok(InterfaceMessage::Register(InterfaceHash(hash)))
                        } else {
                            Err(DecodeError)
                        }
                    },
                    Err(error) => {
                        assert(after_tag@ =~= <[u8; 32]>::encoding(after_tag@) + Seq::empty());
                        Err(error)
                    },
                }
            },
            _ => Err(DecodeError),
        }
    }
}

} // verus!
