//! Identifiers and raw messages that all the other modules share.

use vstd::prelude::*;

verus! {

/// Identifier of a process.
#[derive(Debug, Copy, Clone, PartialEq, Eq, PartialOrd, Ord, Hash, Structural)]
pub struct Pid(pub u64);

/// Identifier of a message that expects an answer.
#[derive(Debug, Copy, Clone, PartialEq, Eq, PartialOrd, Ord, Hash, Structural)]
pub struct MessageId(pub u64);

/// Hash that designates an interface.
#[derive(Debug, Copy, Clone)]
pub struct InterfaceHash(pub [u8; 32]);

/// Body of a message, in its encoded form.
#[derive(Debug, PartialEq, Eq)]
pub struct EncodedMessage(pub Vec<u8>);

impl View for InterfaceHash {
    type V = Seq<u8>;

    open spec fn view(&self) -> Seq<u8> {
        self.0@
    }
}

impl View for EncodedMessage {
    type V = Seq<u8>;

    open spec fn view(&self) -> Seq<u8> {
        self.0@
    }
}

impl Clone for EncodedMessage {
    fn clone(&self) -> (copy: Self)
        ensures
            copy@ == self@,
    {
        let bytes = self.0.clone();
        EncodedMessage(bytes)
    }
}

impl PartialEq for InterfaceHash {
    fn eq(&self, other: &Self) -> (equal: bool) {
        let mut i: usize = 0;
        while i < 32
            invariant
                i <= 32,
                forall|j: int| 0 <= j < i ==> self.0[j] == other.0[j],
            decreases 32 - i,
        {
            if self.0[i] != other.0[i] {
                return false;
            }
            i += 1;
        }
        assert(self@ =~= other@);
        true
    }
}

impl Eq for InterfaceHash {

}

impl vstd::std_specs::cmp::PartialEqSpecImpl for InterfaceHash {
    open spec fn obeys_eq_spec() -> bool {
        true
    }

    open spec fn eq_spec(&self, other: &Self) -> bool {
        self@ == other@
    }
}

} // verus!
