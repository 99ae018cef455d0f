//! The list of kitties an account owns: a `BoundedVec` of `sp_core` (from
//! `bounded-collections`) whose bound is `MAX_KITTY_OWNED`.

use sp_core::bounded::BoundedVec;
use sp_core::ConstU32;
use vstd::prelude::*;

use crate::types::{KittyIndex, MAX_KITTY_OWNED};

verus! {

/// `bounded_collections::BoundedVec`, as `sp_core::bounded` exports it; opaque here.
#[verifier::external_type_specification]
#[verifier::external_body]
#[verifier::reject_recursive_types(T)]
#[verifier::reject_recursive_types(S)]
pub struct ExBoundedVec<T, S>(BoundedVec<T, S>);

/// `bounded_collections::ConstU32`, the type-level bound of a `BoundedVec`; opaque here.
#[verifier::external_type_specification]
#[verifier::external_body]
pub struct ExConstU32<const N: u32>(ConstU32<N>);

/// The storage value of `KittiesOwned`: at most `MAX_KITTY_OWNED` kitty indices.
pub type OwnedKitties = BoundedVec<KittyIndex, ConstU32<3>>;

/// The kitty indices that a bounded list holds, in order.
pub uninterp spec fn owned_ids(v: BoundedVec<u64, ConstU32<3>>) -> Seq<u64>;

/// `BoundedVec::new`: claimed to hold nothing.
#[verifier::external_body]
pub(crate) fn owned_new() -> (v: BoundedVec<u64, ConstU32<3>>)
    ensures
        owned_ids(v) == Seq::<u64>::empty(),
{
    BoundedVec::new()
}

/// `BoundedVec::clone`: claimed to hold the same indices (it clones the inner `Vec`).
#[verifier::external_body]
pub(crate) fn owned_clone(v: &BoundedVec<u64, ConstU32<3>>) -> (c: BoundedVec<u64, ConstU32<3>>)
    ensures
        owned_ids(c) == owned_ids(*v),
{
    v.clone()
}

/// The length of the inner `Vec` (through `Deref`): claimed to be the number of indices held.
#[verifier::external_body]
pub(crate) fn owned_len(v: &BoundedVec<u64, ConstU32<3>>) -> (n: usize)
    ensures
        n == owned_ids(*v).len(),
{
    v.len()
}

/// Indexing of the inner `Vec` (through `Index`): claimed to give the `i`-th index held.
#[verifier::external_body]
pub(crate) fn owned_get(v: &BoundedVec<u64, ConstU32<3>>, i: usize) -> (x: u64)
    requires
        i < owned_ids(*v).len(),
    ensures
        x == owned_ids(*v)[i as int],
{
    v[i]
}

/// `BoundedVec::try_push`: claimed to append `x` when fewer than the bound (3) are held,
/// and otherwise to hand `x` back and leave the list as it was.
#[verifier::external_body]
pub(crate) fn owned_try_push(v: &mut BoundedVec<u64, ConstU32<3>>, x: u64) -> (r: Result<(), u64>)
    ensures
        r == (if owned_ids(*old(v)).len() < MAX_KITTY_OWNED { Ok::<(), u64>(()) } else { Err::<(), u64>(x) }),
        owned_ids(*final(v)) == if owned_ids(*old(v)).len() < MAX_KITTY_OWNED { owned_ids(*old(v)).push(x) } else { owned_ids(*old(v)) },
{
    v.try_push(x)
}

/// `BoundedVec::swap_remove`: claimed to return the `i`-th index and put the last one in its place
/// (the semantics of `Vec::swap_remove`).
#[verifier::external_body]
pub(crate) fn owned_swap_remove(v: &mut BoundedVec<u64, ConstU32<3>>, i: usize) -> (x: u64)
    requires
        i < owned_ids(*old(v)).len(),
    ensures
        x == owned_ids(*old(v))[i as int],
        owned_ids(*final(v)) == owned_ids(*old(v)).update(i as int, owned_ids(*old(v)).last()).drop_last(),
{
    v.swap_remove(i)
}

} // verus!
