//! Values that have an encoding on the wire, and how the encodings of larger values are made up
//! from those of smaller ones.

use crate::ids::{MessageId, Pid};
use crate::scale::{
    append_hash, append_list, append_u32, append_u64, le_bytes, lemma_le_bounds,
    lemma_le_bytes_len, lemma_le_bytes_prefix_free, lemma_length_prefix_free, lemma_split,
    length_bytes, list_bytes, read_hash, read_list, read_u32, read_u64,
};
use vstd::prelude::*;

verus! {

broadcast use vstd::array::group_array_axioms;

/// Error when bytes do not start with the encoding of any value of the expected type.
#[derive(Debug, Clone, Copy, PartialEq, Eq)]
pub struct DecodeError;

/// Values that have an encoding. The encoding of one value is never the beginning of the encoding
/// of another, so that values can be written one after the other and read back.
pub trait Encoded: Sized {
    /// What a value is, mathematically.
    type Model;

    /// What this value is, mathematically.
    spec fn model(&self) -> Self::Model;

    /// `value` can be encoded.
    spec fn encodable(value: Self::Model) -> bool;

    /// The encoding of `value`.
    spec fn encoding(value: Self::Model) -> Seq<u8>;

    /// A value and what follows it can be told from the concatenation of the two.
    proof fn prefix_free(a: Self::Model, x: Seq<u8>, b: Self::Model, y: Seq<u8>)
        requires
            Self::encodable(a),
            Self::encodable(b),
            Self::encoding(a) + x == Self::encoding(b) + y,
        ensures
            a == b,
            x == y,
    ;
}

/// `input` does not start with the encoding of any value.
pub open spec fn starts_with_none<D: Encoded>(input: Seq<u8>) -> bool {
    forall|value: D::Model, rest: Seq<u8>|
        D::encodable(value) ==> input != #[trigger] (D::encoding(value) + rest)
}

/// `decoded` is the value that `input` starts with and what follows it, or `None` if `input` does
/// not start with the encoding of any value.
pub open spec fn decodes_to<D: Encoded>(
    input: Seq<u8>,
    decoded: Option<(D::Model, Seq<u8>)>,
) -> bool {
    match decoded {
        Some((value, rest)) => D::encodable(value) && input == D::encoding(value) + rest,
        None => starts_with_none::<D>(input),
    }
}

/// Values that can be encoded and decoded.
pub trait Wire: Encoded {
    /// Appends the encoding of this value to `dest`.
    fn encode_to(&self, dest: &mut Vec<u8>)
        requires
            Self::encodable(self.model()),
        ensures
            final(dest)@ == old(dest)@ + Self::encoding(self.model()),
    ;

    /// The encoding of this value.
    fn encode(&self) -> (bytes: Vec<u8>)
        requires
            Self::encodable(self.model()),
        ensures
            bytes@ == Self::encoding(self.model()),
    {
        let mut bytes: Vec<u8> = Vec::new();
        self.encode_to(&mut bytes);
        bytes
    }

    /// Reads the value that `input` starts with. What was not read is handed back.
    fn decode(input: &[u8]) -> (decoded: Result<(Self, &[u8]), DecodeError>)
        ensures
            decodes_to::<Self>(
                input@,
                match decoded {
                    Ok((value, rest)) => Some((value.model(), rest@)),
                    Err(_) => None,
                },
            ),
    ;
}

impl Encoded for u32 {
    type Model = u32;

    open spec fn model(&self) -> u32 {
        *self
    }

    open spec fn encodable(value: u32) -> bool {
        true
    }

    open spec fn encoding(value: u32) -> Seq<u8> {
        le_bytes(value as nat, 4)
    }

    proof fn prefix_free(a: u32, x: Seq<u8>, b: u32, y: Seq<u8>) {
        lemma_le_bounds();
        lemma_le_bytes_prefix_free(a as nat, x, b as nat, y, 4);
    }
}

impl Wire for u32 {
    fn encode_to(&self, dest: &mut Vec<u8>) {
        append_u32(*self, dest)
    }

    fn decode(input: &[u8]) -> (decoded: Result<(u32, &[u8]), DecodeError>) {
        match read_u32(input) {
            Ok(read) => Ok(read),
            Err(_) => {
                assert forall|value: u32, rest: Seq<u8>|
                    input@ != #[trigger] (u32::encoding(value) + rest) by {
                    lemma_le_bytes_len(value as nat, 4);
                }
                Err(DecodeError)
            },
        }
    }
}

impl Encoded for u64 {
    type Model = u64;

    open spec fn model(&self) -> u64 {
        *self
    }

    open spec fn encodable(value: u64) -> bool {
        true
    }

    open spec fn encoding(value: u64) -> Seq<u8> {
        le_bytes(value as nat, 8)
    }

    proof fn prefix_free(a: u64, x: Seq<u8>, b: u64, y: Seq<u8>) {
        lemma_le_bounds();
        lemma_le_bytes_prefix_free(a as nat, x, b as nat, y, 8);
    }
}

impl Wire for u64 {
    fn encode_to(&self, dest: &mut Vec<u8>) {
        append_u64(*self, dest)
    }

    fn decode(input: &[u8]) -> (decoded: Result<(u64, &[u8]), DecodeError>) {
        match read_u64(input) {
            Ok(read) => Ok(read),
            Err(_) => {
                assert forall|value: u64, rest: Seq<u8>|
                    input@ != #[trigger] (u64::encoding(value) + rest) by {
                    lemma_le_bytes_len(value as nat, 8);
                }
                Err(DecodeError)
            },
        }
    }
}

impl Encoded for [u8; 32] {
    type Model = Seq<u8>;

    open spec fn model(&self) -> Seq<u8> {
        self@
    }

    open spec fn encodable(value: Seq<u8>) -> bool {
        value.len() == 32
    }

    open spec fn encoding(value: Seq<u8>) -> Seq<u8> {
        value
    }

    proof fn prefix_free(a: Seq<u8>, x: Seq<u8>, b: Seq<u8>, y: Seq<u8>) {
        lemma_split(a, x, b, y);
    }
}

impl Wire for [u8; 32] {
    fn encode_to(&self, dest: &mut Vec<u8>) {
        append_hash(self, dest)
    }

    fn decode(input: &[u8]) -> (decoded: Result<([u8; 32], &[u8]), DecodeError>) {
        match read_hash(input) {
            Ok(read) => Ok(read),
            Err(_) => Err(DecodeError),
        }
    }
}

impl Encoded for Vec<u8> {
    type Model = Seq<u8>;

    open spec fn model(&self) -> Seq<u8> {
        self@
    }

    open spec fn encodable(value: Seq<u8>) -> bool {
        value.len() <= u32::MAX
    }

    open spec fn encoding(value: Seq<u8>) -> Seq<u8> {
        list_bytes(value)
    }

    proof fn prefix_free(a: Seq<u8>, x: Seq<u8>, b: Seq<u8>, y: Seq<u8>) {
        assert(list_bytes(a) + x =~= length_bytes(a.len()) + (a + x));
        assert(list_bytes(b) + y =~= length_bytes(b.len()) + (b + y));
        lemma_length_prefix_free(a.len(), a + x, b.len(), b + y);
        lemma_split(a, x, b, y);
    }
}

impl Wire for Vec<u8> {
    fn encode_to(&self, dest: &mut Vec<u8>) {
        append_list(self, dest)
    }

    fn decode(input: &[u8]) -> (decoded: Result<(Vec<u8>, &[u8]), DecodeError>) {
        match read_list(input) {
            Ok(read) => Ok(read),
            Err(_) => Err(DecodeError),
        }
    }
}

/// A `Pid` is written as the number that it holds.
impl Encoded for Pid {
    type Model = Pid;

    open spec fn model(&self) -> Pid {
        *self
    }

    open spec fn encodable(value: Pid) -> bool {
        true
    }

    open spec fn encoding(value: Pid) -> Seq<u8> {
        u64::encoding(value.0)
    }

    proof fn prefix_free(a: Pid, x: Seq<u8>, b: Pid, y: Seq<u8>) {
        u64::prefix_free(a.0, x, b.0, y);
    }
}

impl Wire for Pid {
    fn encode_to(&self, dest: &mut Vec<u8>) {
        Wire::encode_to(&self.0, dest)
    }

    fn decode(input: &[u8]) -> (decoded: Result<(Pid, &[u8]), DecodeError>) {
        match <u64 as Wire>::decode(input) {
            Ok((number, rest)) => Ok((Pid(number), rest)),
            Err(error) => Err(error),
        }
    }
}

/// A `MessageId` is written as the number that it holds.
impl Encoded for MessageId {
    type Model = MessageId;

    open spec fn model(&self) -> MessageId {
        *self
    }

    open spec fn encodable(value: MessageId) -> bool {
        true
    }

    open spec fn encoding(value: MessageId) -> Seq<u8> {
        u64::encoding(value.0)
    }

    proof fn prefix_free(a: MessageId, x: Seq<u8>, b: MessageId, y: Seq<u8>) {
        u64::prefix_free(a.0, x, b.0, y);
    }
}

impl Wire for MessageId {
    fn encode_to(&self, dest: &mut Vec<u8>) {
        Wire::encode_to(&self.0, dest)
    }

    fn decode(input: &[u8]) -> (decoded: Result<(MessageId, &[u8]), DecodeError>) {
        match <u64 as Wire>::decode(input) {
            Ok((number, rest)) => Ok((MessageId(number), rest)),
            Err(error) => Err(error),
        }
    }
}

/// `bytes` after a byte that says which of several forms they have.
pub open spec fn tagged(tag: u8, bytes: Seq<u8>) -> Seq<u8> {
    seq![tag] + bytes
}

/// What follows tagged bytes follows the bytes after the tag.
pub(crate) broadcast proof fn lemma_tagged_rest(tag: u8, bytes: Seq<u8>, rest: Seq<u8>)
    ensures
        #[trigger] (tagged(tag, bytes) + rest) == tagged(tag, bytes + rest),
{
    lemma_add_assoc(seq![tag], bytes, rest);
}

/// A tag and the bytes after it can be told from the concatenation of the two.
pub(crate) broadcast proof fn lemma_tagged_injective(tag_a: u8, a: Seq<u8>, tag_b: u8, b: Seq<u8>)
    ensures
        #![trigger tagged(tag_a, a), tagged(tag_b, b)]
        tagged(tag_a, a) == tagged(tag_b, b) ==> tag_a == tag_b && a == b,
{
    if tagged(tag_a, a) == tagged(tag_b, b) {
        lemma_split(seq![tag_a], a, seq![tag_b], b);
        assert(seq![tag_a][0] == seq![tag_b][0]);
    }
}

pub(crate) broadcast group group_tagged {
    lemma_tagged_rest,
    lemma_tagged_injective,
}

/// Reads the byte that says which of several forms the rest of `input` has.
pub(crate) fn read_tag(input: &[u8]) -> (read: Result<(u8, &[u8]), DecodeError>)
    ensures
        match read {
            Ok((tag, rest)) => input@ == tagged(tag, rest@),
            Err(_) => input@.len() == 0,
        },
{
    if input.len() == 0 {
        Err(DecodeError)
    } else {
        let rest = vstd::slice::slice_subrange(input, 1, input.len());
        Ok((input[0], rest))
    }
}

/// `None` is written as a zero byte, `Some` as a one and then what it holds.
impl<T: Encoded> Encoded for Option<T> {
    type Model = Option<T::Model>;

    open spec fn model(&self) -> Option<T::Model> {
        match self {
            Some(value) => Some(value.model()),
            None => None,
        }
    }

    open spec fn encodable(value: Option<T::Model>) -> bool {
        match value {
            Some(value) => T::encodable(value),
            None => true,
        }
    }

    open spec fn encoding(value: Option<T::Model>) -> Seq<u8> {
        match value {
            None => tagged(0, Seq::empty()),
            Some(value) => tagged(1, T::encoding(value)),
        }
    }

    proof fn prefix_free(a: Option<T::Model>, x: Seq<u8>, b: Option<T::Model>, y: Seq<u8>) {
        broadcast use group_tagged;

        match (a, b) {
            (Some(value_a), Some(value_b)) => {
                T::prefix_free(value_a, x, value_b, y);
            },
            (None, None) => {
                lemma_split(Seq::empty(), x, Seq::empty(), y);
            },
            _ => {},
        }
    }
}

impl<T: Wire> Wire for Option<T> {
    fn encode_to(&self, dest: &mut Vec<u8>) {
        match self {
            None => {
                dest.push(0);
            },
            Some(value) => {
                dest.push(1);
                value.encode_to(dest);
            },
        }
    }

    fn decode(input: &[u8]) -> (decoded: Result<(Self, &[u8]), DecodeError>) {
        broadcast use group_tagged;

        match read_tag(input) {
            Ok((0, rest)) => {
                Ok((None, rest))
            },
            Ok((1, rest)) => match T::decode(rest) {
                Ok((value, rest)) => Ok((Some(value), rest)),
                Err(error) => Err(error),
            },
            _ => Err(DecodeError),
        }
    }
}

/// `Ok` is written as a zero byte and then what it holds, `Err` as a one.
impl<T: Encoded> Encoded for Result<T, ()> {
    type Model = Result<T::Model, ()>;

    open spec fn model(&self) -> Result<T::Model, ()> {
        match self {
            Ok(value) => Ok(value.model()),
            Err(_) => Err(()),
        }
    }

    open spec fn encodable(value: Result<T::Model, ()>) -> bool {
        match value {
            Ok(value) => T::encodable(value),
            Err(_) => true,
        }
    }

    open spec fn encoding(value: Result<T::Model, ()>) -> Seq<u8> {
        match value {
            Ok(value) => tagged(0, T::encoding(value)),
            Err(_) => tagged(1, Seq::empty()),
        }
    }

    proof fn prefix_free(
        a: Result<T::Model, ()>,
        x: Seq<u8>,
        b: Result<T::Model, ()>,
        y: Seq<u8>,
    ) {
        broadcast use group_tagged;

        match (a, b) {
            (Ok(value_a), Ok(value_b)) => {
                T::prefix_free(value_a, x, value_b, y);
            },
            (Err(unit_a), Err(unit_b)) => {
                lemma_split(Seq::empty(), x, Seq::empty(), y);
            },
            _ => {},
        }
    }
}

impl<T: Wire> Wire for Result<T, ()> {
    fn encode_to(&self, dest: &mut Vec<u8>) {
        match self {
            Ok(value) => {
                dest.push(0);
                value.encode_to(dest);
            },
            Err(_) => {
                dest.push(1);
            },
        }
    }

    fn decode(input: &[u8]) -> (decoded: Result<(Self, &[u8]), DecodeError>) {
        broadcast use group_tagged;

        match read_tag(input) {
            Ok((0, rest)) => match T::decode(rest) {
                Ok((value, rest)) => Ok((Ok(value), rest)),
                Err(error) => Err(error),
            },
            Ok((1, rest)) => {
                Ok((Err(()), rest))
            },
            _ => Err(DecodeError),
        }
    }
}

/// A pair is written as its first component and then its second.
impl<A: Encoded, B: Encoded> Encoded for (A, B) {
    type Model = (A::Model, B::Model);

    open spec fn model(&self) -> (A::Model, B::Model) {
        (self.0.model(), self.1.model())
    }

    open spec fn encodable(value: (A::Model, B::Model)) -> bool {
        A::encodable(value.0) && B::encodable(value.1)
    }

    open spec fn encoding(value: (A::Model, B::Model)) -> Seq<u8> {
        A::encoding(value.0) + B::encoding(value.1)
    }

    proof fn prefix_free(a: (A::Model, B::Model), x: Seq<u8>, b: (A::Model, B::Model), y: Seq<u8>) {
        lemma_add_assoc(A::encoding(a.0), B::encoding(a.1), x);
        lemma_add_assoc(A::encoding(b.0), B::encoding(b.1), y);
        A::prefix_free(a.0, B::encoding(a.1) + x, b.0, B::encoding(b.1) + y);
        B::prefix_free(a.1, x, b.1, y);
    }
}

impl<A: Wire, B: Wire> Wire for (A, B) {
    fn encode_to(&self, dest: &mut Vec<u8>) {
        self.0.encode_to(dest);
        self.1.encode_to(dest);
    }

    fn decode(input: &[u8]) -> (decoded: Result<(Self, &[u8]), DecodeError>) {
        match A::decode(input) {
            Ok((first, middle)) => {
                match B::decode(middle) {
                    Ok((second, rest)) => {
                        proof {
                            lemma_add_assoc(
                                A::encoding(first.model()),
                                B::encoding(second.model()),
                                rest@,
                            );
                        }
                        Ok(((first, second), rest))
                    },
                    Err(error) => {
                        assert forall|value: (A::Model, B::Model), tail: Seq<u8>|
                            Self::encodable(value) implies input@ != #[trigger] (Self::encoding(
                            value,
                        ) + tail) by {
                            if input@ == Self::encoding(value) + tail {
                                lemma_add_assoc(A::encoding(value.0), B::encoding(value.1), tail);
                                A::prefix_free(
                                    first.model(),
                                    middle@,
                                    value.0,
                                    B::encoding(value.1) + tail,
                                );
                            }
                        }
                        Err(error)
                    },
                }
            },
            Err(error) => {
                assert forall|value: (A::Model, B::Model), tail: Seq<u8>|
                    Self::encodable(value) implies input@ != #[trigger] (Self::encoding(value)
                    + tail) by {
                    lemma_add_assoc(A::encoding(value.0), B::encoding(value.1), tail);
                }
                Err(error)
            },
        }
    }
}

/// Concatenation is associative.
pub(crate) proof fn lemma_add_assoc(a: Seq<u8>, b: Seq<u8>, c: Seq<u8>)
    ensures
        (a + b) + c == a + (b + c),
{
}

} // verus!
