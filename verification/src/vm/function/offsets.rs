//! The table of slot offsets of a function, kept in a `SmallVec` of
//! `smallvec`: most functions have few variables, and their offsets then
//! need no memory of their own. Verus does not read that crate: what this
//! file says of it is taken on trust.

use vstd::prelude::*;

verus! {

/// A table of offsets: a `SmallVec` of `smallvec` with room for six numbers
/// before it takes memory of its own. Nothing inside it is seen here.
#[verifier::external_body]
pub struct Offsets {
    table: smallvec::SmallVec<[usize; 6]>,
}

/// Most offsets that a table is asked to hold.
pub const OFFSETS_LIMIT: usize = 0x0100_0000;

/// The offsets that a table holds, in order.
pub uninterp spec fn held_offsets(table: Offsets) -> Seq<usize>;

/// `SmallVec::from_slice` of `smallvec`, on a slice of one number: a table
/// that holds that number.
#[verifier::external_body]
pub(crate) fn offsets_of(first: usize) -> (r: Offsets)
    ensures
        held_offsets(r) == seq![first],
{
    Offsets { table: smallvec::SmallVec::from_slice(&[first]) }
}

/// `SmallVec::len` of `smallvec`: how many offsets the table holds.
#[verifier::external_body]
pub(crate) fn offsets_len(table: &Offsets) -> (r: usize)
    ensures
        r == held_offsets(*table).len(),
{
    table.table.len()
}

/// Indexing a `SmallVec` of `smallvec`: the offset at place `i`.
#[verifier::external_body]
pub(crate) fn offsets_at(table: &Offsets, i: usize) -> (r: usize)
    requires
        i < held_offsets(*table).len(),
    ensures
        r == held_offsets(*table)[i as int],
{
    table.table[i]
}

/// `SmallVec::push` of `smallvec`: the table holds `offset` behind what it
/// held.
#[verifier::external_body]
pub(crate) fn offsets_push(table: &mut Offsets, offset: usize)
    requires
        held_offsets(*old(table)).len() < OFFSETS_LIMIT,
    ensures
        held_offsets(*final(table)) == held_offsets(*old(table)).push(offset),
{
    table.table.push(offset);
}

} // verus!
