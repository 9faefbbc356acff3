//! The two kinds of hash set that an adapter keeps, from the `hashbrown` crate.

use hashbrown::hash_map::DefaultHashBuilder;
use hashbrown::HashSet;
use vstd::prelude::*;

verus! {

/// `hashbrown::HashSet`, a set that finds its elements by their hash.
#[verifier::external_type_specification]
#[verifier::external_body]
#[verifier::reject_recursive_types(T)]
#[verifier::reject_recursive_types(S)]
pub struct ExHashSet<T, S>(HashSet<T, S>);

/// `hashbrown::hash_map::DefaultHashBuilder`, the hasher of a `HashSet` that names none.
#[verifier::external_type_specification]
#[verifier::external_body]
pub struct ExDefaultHashBuilder(DefaultHashBuilder);

/// The hashes that a set of interface hashes holds, each as its 32 bytes.
pub uninterp spec fn hashes_in(set: HashSet<[u8; 32]>) -> Set<Seq<u8>>;

/// The numbers that a set of message identifiers holds.
pub uninterp spec fn numbers_in(set: HashSet<u64>) -> Set<u64>;

/// Calls `HashSet::new`: the set that it makes holds nothing.
#[verifier::external_body]
pub(crate) fn new_hashes() -> (set: HashSet<[u8; 32]>)
    ensures
        hashes_in(set) == Set::<Seq<u8>>::empty(),
{
    HashSet::new()
}

/// Calls `HashSet::insert`: the set then holds `hash` besides what it held, and the result says
/// whether `hash` is new to it.
#[verifier::external_body]
pub(crate) fn insert_hash(set: &mut HashSet<[u8; 32]>, hash: [u8; 32]) -> (inserted: bool)
    ensures
        hashes_in(*final(set)) == hashes_in(*old(set)).insert(hash@),
        inserted == !hashes_in(*old(set)).contains(hash@),
{
    set.insert(hash)
}

/// Calls `HashSet::contains`: the result says whether the set holds `hash`.
#[verifier::external_body]
pub(crate) fn contains_hash(set: &HashSet<[u8; 32]>, hash: &[u8; 32]) -> (found: bool)
    ensures
        found == hashes_in(*set).contains(hash@),
{
    set.contains(hash)
}

/// Calls `HashSet::new`: the set that it makes holds nothing.
#[verifier::external_body]
pub(crate) fn new_numbers() -> (set: HashSet<u64>)
    ensures
        numbers_in(set) == Set::<u64>::empty(),
{
    HashSet::new()
}

/// Calls `HashSet::insert`: the set then holds `number` besides what it held, and the result
/// says whether `number` is new to it.
#[verifier::external_body]
pub(crate) fn insert_number(set: &mut HashSet<u64>, number: u64) -> (inserted: bool)
    ensures
        numbers_in(*final(set)) == numbers_in(*old(set)).insert(number),
        inserted == !numbers_in(*old(set)).contains(number),
{
    set.insert(number)
}

/// Calls `HashSet::contains`: the result says whether the set holds `number`.
#[verifier::external_body]
pub(crate) fn contains_number(set: &HashSet<u64>, number: &u64) -> (found: bool)
    ensures
        found == numbers_in(*set).contains(*number),
{
    set.contains(number)
}

/// Calls `HashSet::remove`: the set then holds what it held but for `number`, and the result
/// says whether `number` was among it.
#[verifier::external_body]
pub(crate) fn remove_number(set: &mut HashSet<u64>, number: &u64) -> (removed: bool)
    ensures
        numbers_in(*final(set)) == numbers_in(*old(set)).remove(*number),
        removed == numbers_in(*old(set)).contains(*number),
{
    set.remove(number)
}

} // verus!
