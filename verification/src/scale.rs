//! How the building blocks of messages are encoded. The `parity-scale-codec` crate encodes and
//! decodes them.

use parity_scale_codec::{Decode, Encode};
use vstd::prelude::*;

verus! {

/// `parity_scale_codec::Error`, which says why bytes could not be decoded.
#[verifier::external_type_specification]
#[verifier::external_body]
pub struct ExCodecError(parity_scale_codec::Error);

/// The `count` lowest bytes of `number`, lowest first.
pub open spec fn le_bytes(number: nat, count: nat) -> Seq<u8>
    decreases count,
{
    if count == 0 {
        Seq::empty()
    } else {
        seq![(number % 256) as u8] + le_bytes(number / 256, (count - 1) as nat)
    }
}

/// How a length is written: the two lowest bits of the first byte say how many bytes there are,
/// and the length takes as few as it can.
pub open spec fn length_bytes(length: nat) -> Seq<u8> {
    if length < 0x40 {
        le_bytes(length * 4, 1)
    } else if length < 0x4000 {
        le_bytes(length * 4 + 1, 2)
    } else if length < 0x4000_0000 {
        le_bytes(length * 4 + 2, 4)
    } else {
        seq![3u8] + le_bytes(length, 4)
    }
}

/// How a list of bytes is written: its length, then the bytes.
pub open spec fn list_bytes(bytes: Seq<u8>) -> Seq<u8> {
    length_bytes(bytes.len()) + bytes
}

/// Calls `u32::encode_to`, which appends the four bytes of the number, lowest first.
#[verifier::external_body]
pub(crate) fn append_u32(number: u32, dest: &mut Vec<u8>)
    ensures
        final(dest)@ == old(dest)@ + le_bytes(number as nat, 4),
{
    number.encode_to(dest)
}

/// Calls `u64::encode_to`, which appends the eight bytes of the number, lowest first.
#[verifier::external_body]
pub(crate) fn append_u64(number: u64, dest: &mut Vec<u8>)
    ensures
        final(dest)@ == old(dest)@ + le_bytes(number as nat, 8),
{
    number.encode_to(dest)
}

/// Calls `<[u8; 32]>::encode_to`, which appends the bytes as they are.
#[verifier::external_body]
pub(crate) fn append_hash(hash: &[u8; 32], dest: &mut Vec<u8>)
    ensures
        final(dest)@ == old(dest)@ + hash@,
{
    hash.encode_to(dest)
}

/// Calls `Vec::<u8>::encode_to`, which appends the length of the list and then its bytes. It
/// panics on a list whose length does not fit in 32 bits.
#[verifier::external_body]
pub(crate) fn append_list(list: &Vec<u8>, dest: &mut Vec<u8>)
    requires
        list@.len() <= u32::MAX,
    ensures
        final(dest)@ == old(dest)@ + list_bytes(list@),
{
    list.encode_to(dest)
}

/// Calls `u32::decode`, which reads four bytes, lowest first, and fails only if there are fewer.
/// What it has not read is handed back.
#[verifier::external_body]
pub(crate) fn read_u32(input: &[u8]) -> (decoded: Result<(u32, &[u8]), parity_scale_codec::Error>)
    ensures
        match decoded {
            Ok((number, rest)) => input@ == le_bytes(number as nat, 4) + rest@,
            Err(_) => input@.len() < 4,
        },
{
    let mut rest = input;
    let number = u32::decode(&mut rest)?;
    Ok((number, rest))
}

/// Calls `u64::decode`, which reads eight bytes, lowest first, and fails only if there are fewer.
/// What it has not read is handed back.
#[verifier::external_body]
pub(crate) fn read_u64(input: &[u8]) -> (decoded: Result<(u64, &[u8]), parity_scale_codec::Error>)
    ensures
        match decoded {
            Ok((number, rest)) => input@ == le_bytes(number as nat, 8) + rest@,
            Err(_) => input@.len() < 8,
        },
{
    let mut rest = input;
    let number = u64::decode(&mut rest)?;
    Ok((number, rest))
}

/// Calls `<[u8; 32]>::decode`, which reads 32 bytes as they are, and fails only if there are
/// fewer. What it has not read is handed back.
#[verifier::external_body]
pub(crate) fn read_hash(input: &[u8]) -> (decoded: Result<
    ([u8; 32], &[u8]),
    parity_scale_codec::Error,
>)
    ensures
        match decoded {
            Ok((hash, rest)) => input@ == hash@ + rest@,
            Err(_) => input@.len() < 32,
        },
{
    let mut rest = input;
    let hash = <[u8; 32]>::decode(&mut rest)?;
    Ok((hash, rest))
}

/// Calls `Vec::<u8>::decode`, which reads a length and then as many bytes. It fails if the bytes
/// end too early, and if the length takes more bytes than it has to. What it has not read is
/// handed back.
#[verifier::external_body]
pub(crate) fn read_list(input: &[u8]) -> (decoded: Result<
    (Vec<u8>, &[u8]),
    parity_scale_codec::Error,
>)
    ensures
        match decoded {
            Ok((list, rest)) => list@.len() <= u32::MAX && input@ == list_bytes(list@) + rest@,
            Err(_) => forall|list: Seq<u8>, rest: Seq<u8>|
                list.len() <= u32::MAX ==> input@ != #[trigger] (list_bytes(list) + rest),
        },
{
    let mut rest = input;
    let list = <Vec<u8>>::decode(&mut rest)?;
    Ok((list, rest))
}

/// If two concatenations are equal and their first parts are equally long, the parts are equal.
pub(crate) proof fn lemma_split(a: Seq<u8>, x: Seq<u8>, b: Seq<u8>, y: Seq<u8>)
    requires
        a + x == b + y,
        a.len() == b.len(),
    ensures
        a == b,
        x == y,
{
    assert(b =~= (b + y).take(b.len() as int));
    assert(y =~= (b + y).skip(b.len() as int));
}

pub(crate) proof fn lemma_le_bytes_len(number: nat, count: nat)
    ensures
        le_bytes(number, count).len() == count,
    decreases count,
{
    if count > 0 {
        lemma_le_bytes_len(number / 256, (count - 1) as nat);
    }
}

/// One more than the greatest number that `count` bytes can hold.
pub(crate) open spec fn le_bound(count: nat) -> nat
    decreases count,
{
    if count == 0 {
        1
    } else {
        256 * le_bound((count - 1) as nat)
    }
}

pub(crate) proof fn lemma_le_bytes_injective(a: nat, b: nat, count: nat)
    requires
        le_bytes(a, count) == le_bytes(b, count),
        a < le_bound(count),
        b < le_bound(count),
    ensures
        a == b,
    decreases count,
{
    if count > 0 {
        let less = (count - 1) as nat;
        let first_a = seq![(a % 256) as u8];
        let first_b = seq![(b % 256) as u8];
        lemma_split(first_a, le_bytes(a / 256, less), first_b, le_bytes(b / 256, less));
        assert(first_a[0] == first_b[0]);
        lemma_le_bytes_injective(a / 256, b / 256, less);
    }
}

/// A number of `count` bytes and what follows it can be told from the concatenation of the two.
pub(crate) proof fn lemma_le_bytes_prefix_free(a: nat, x: Seq<u8>, b: nat, y: Seq<u8>, count: nat)
    requires
        le_bytes(a, count) + x == le_bytes(b, count) + y,
        a < le_bound(count),
        b < le_bound(count),
    ensures
        a == b,
        x == y,
{
    lemma_le_bytes_len(a, count);
    lemma_le_bytes_len(b, count);
    lemma_split(le_bytes(a, count), x, le_bytes(b, count), y);
    lemma_le_bytes_injective(a, b, count);
}

pub(crate) proof fn lemma_le_bounds()
    ensures
        le_bound(1) == 0x100,
        le_bound(2) == 0x1_0000,
        le_bound(4) == 0x1_0000_0000,
        le_bound(8) == 0x1_0000_0000_0000_0000,
{
    reveal_with_fuel(le_bound, 9);
}

/// The two lowest bits of the first byte tell the four forms of a length apart.
pub(crate) proof fn lemma_length_form(length: nat)
    ensures
        length_bytes(length).len() > 0,
        length_bytes(length)[0] % 4 == if length < 0x40 {
            0int
        } else if length < 0x4000 {
            1
        } else if length < 0x4000_0000 {
            2
        } else {
            3
        },
{
    reveal_with_fuel(le_bytes, 2);
}

pub(crate) proof fn lemma_length_prefix_free(a: nat, x: Seq<u8>, b: nat, y: Seq<u8>)
    requires
        length_bytes(a) + x == length_bytes(b) + y,
        a <= u32::MAX,
        b <= u32::MAX,
    ensures
        a == b,
        x == y,
{
    lemma_le_bounds();
    lemma_length_form(a);
    lemma_length_form(b);
    assert((length_bytes(b) + y)[0] == length_bytes(b)[0]);
    if a < 0x40 {
        lemma_le_bytes_prefix_free(a * 4, x, b * 4, y, 1);
    } else if a < 0x4000 {
        lemma_le_bytes_prefix_free(a * 4 + 1, x, b * 4 + 1, y, 2);
    } else if a < 0x4000_0000 {
        lemma_le_bytes_prefix_free(a * 4 + 2, x, b * 4 + 2, y, 4);
    } else {
        let first = seq![3u8];
        assert(length_bytes(a) + x =~= first + (le_bytes(a, 4) + x));
        assert(length_bytes(b) + y =~= first + (le_bytes(b, 4) + y));
        lemma_split(first, le_bytes(a, 4) + x, first, le_bytes(b, 4) + y);
        lemma_le_bytes_prefix_free(a, x, b, y, 4);
    }
}

} // verus!
