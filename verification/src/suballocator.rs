//! The unit allocator that `SuballocatedBuffer` hands out space with: a thin
//! trusted layer over `offset_allocator::Allocator`.
//!
//! The allocator and its allocation handles live in private fields of two
//! opaque structs, `UnitAllocator` and `UnitAllocation`. What the rest of the
//! library knows of them is stated over four names: `live_allocations`,
//! `allocator_capacity`, `allocation_found` and `allocation_node`.

use vstd::prelude::*;

verus! {

/// An `offset_allocator::Allocator` that manages a range of units.
#[verifier::external_body]
pub struct UnitAllocator {
    inner: offset_allocator::Allocator,
}

/// One `offset_allocator::Allocation` handed out by a `UnitAllocator`.
#[verifier::external_body]
pub struct UnitAllocation {
    inner: offset_allocator::Allocation,
}

/// The live allocations of an allocator: node index to `(offset, size)` in units.
pub uninterp spec fn live_allocations(a: UnitAllocator) -> Map<u32, (u32, u32)>;

/// The number of units that an allocator was created to manage.
pub uninterp spec fn allocator_capacity(a: UnitAllocator) -> u32;

/// Whether `offset_allocator::Allocator::allocate` finds room for `size`
/// units in the allocator as it stands: this rests on its free lists and its
/// pool of nodes, which the other names do not model.
pub uninterp spec fn allocation_found(a: UnitAllocator, size: u32) -> bool;

/// Whether the allocator has run out of nodes (its stack of free nodes is
/// down to its last entry); its storage report then gives no free space.
pub uninterp spec fn nodes_exhausted(a: UnitAllocator) -> bool;

/// The allocator node that an allocation handle stands for (its private
/// `metadata` field).
pub uninterp spec fn allocation_node(al: UnitAllocation) -> u32;

/// The unit range `[offset, offset + size)` of a live allocation.
pub open spec fn region_end(r: (u32, u32)) -> int {
    r.0 + r.1
}

/// The units held by a finite set of live ranges: the sum of their sizes.
pub open spec fn used_units(m: Map<u32, (u32, u32)>) -> int
    decreases m.dom().len(),
{
    if m.dom().finite() && m.dom().len() > 0 {
        let k = m.dom().choose();
        proof {
            assert(m.dom().contains(k));
            assert(m.remove(k).dom() =~= m.dom().remove(k));
        }
        m[k].1 + used_units(m.remove(k))
    } else {
        0
    }
}

/// The sum does not depend on the order: any live range can be taken out
/// first.
pub proof fn lemma_used_units_remove(m: Map<u32, (u32, u32)>, k: u32)
    requires
        m.dom().finite(),
        m.contains_key(k),
    ensures
        used_units(m) == m[k].1 + used_units(m.remove(k)),
    decreases m.dom().len(),
{
    assert(m.remove(k).dom() =~= m.dom().remove(k));
    let c = m.dom().choose();
    assert(m.dom().contains(c));
    if c != k {
        assert(m.remove(c).dom() =~= m.dom().remove(c));
        lemma_used_units_remove(m.remove(c), k);
        lemma_used_units_remove(m.remove(k), c);
        assert(m.remove(c).remove(k) =~= m.remove(k).remove(c));
    }
}

/// Adding a range that was not live adds its size to the units held.
pub proof fn lemma_used_units_insert(m: Map<u32, (u32, u32)>, k: u32, v: (u32, u32))
    requires
        m.dom().finite(),
        !m.contains_key(k),
    ensures
        used_units(m.insert(k, v)) == used_units(m) + v.1,
{
    lemma_used_units_remove(m.insert(k, v), k);
    assert(m.insert(k, v).remove(k) =~= m);
}

/// Ranges that are all empty hold no units.
pub proof fn lemma_used_units_zero(m: Map<u32, (u32, u32)>)
    requires
        m.dom().finite(),
        forall|n: u32| #[trigger] m.contains_key(n) ==> m[n].1 == 0,
    ensures
        used_units(m) == 0,
    decreases m.dom().len(),
{
    if m.dom().len() > 0 {
        let k = m.dom().choose();
        assert(m.dom().contains(k));
        assert(m.remove(k).dom() =~= m.dom().remove(k));
        lemma_used_units_zero(m.remove(k));
    }
}

/// Two unit ranges do not overlap.
pub open spec fn regions_disjoint(a: (u32, u32), b: (u32, u32)) -> bool {
    region_end(a) <= b.0 || region_end(b) <= a.0
}

/// Calls `offset_allocator::Allocator::new`: a fresh allocator has no live
/// allocation and manages `size` units.
#[verifier::external_body]
pub(crate) fn allocator_new(size: u32) -> (r: UnitAllocator)
    ensures
        live_allocations(r).dom().is_empty(),
        allocator_capacity(r) == size,
{
    UnitAllocator { inner: offset_allocator::Allocator::new(size) }
}

/// Calls `offset_allocator::Allocator::allocate` and hands out the offset of
/// the allocation beside its handle.
///
/// The result is `Some` exactly when the allocator, as it stands, finds room
/// (`allocation_found`). On `None` the allocator is unchanged. On `Some`, the
/// allocation is a new node whose range of `size` units starts at the returned
/// offset, lies inside the managed range and overlaps no live allocation.
#[verifier::external_body]
pub(crate) fn allocator_allocate(a: &mut UnitAllocator, size: u32) -> (r: Option<(UnitAllocation, u32)>)
    ensures
        allocator_capacity(*final(a)) == allocator_capacity(*old(a)),
        r is Some <==> allocation_found(*old(a), size),
        match r {
            None => live_allocations(*final(a)) == live_allocations(*old(a)),
            Some((al, offset)) => {
                &&& !live_allocations(*old(a)).contains_key(allocation_node(al))
                &&& live_allocations(*final(a)) == live_allocations(*old(a)).insert(
                    allocation_node(al),
                    (offset, size),
                )
                &&& offset + size <= allocator_capacity(*old(a))
                &&& forall|n: u32|
                    #[trigger] live_allocations(*old(a)).contains_key(n) ==> regions_disjoint(
                        live_allocations(*old(a))[n],
                        (offset, size),
                    )
            },
        },
{
    match a.inner.allocate(size) {
        Some(al) => {
            let offset: u32 = al.offset;
            Some((UnitAllocation { inner: al }, offset))
        },
        None => None,
    }
}

/// Calls `offset_allocator::Allocator::free` on a live allocation (a freed
/// one makes it panic): the allocation's node leaves the live set.
#[verifier::external_body]
pub(crate) fn allocator_free(a: &mut UnitAllocator, al: UnitAllocation)
    requires
        live_allocations(*old(a)).contains_key(allocation_node(al)),
    ensures
        allocator_capacity(*final(a)) == allocator_capacity(*old(a)),
        live_allocations(*final(a)) == live_allocations(*old(a)).remove(allocation_node(al)),
{
    a.inner.free(al.inner)
}

/// Calls `offset_allocator::Allocator::storage_report` and returns its
/// `total_free_space`.
///
/// The report counts the managed units that no live allocation holds, or
/// reports 0 when the allocator has run out of nodes; so it never exceeds the
/// capacity, is below it while a non-empty allocation is live, and equals it
/// when nothing is live (free neighbours are merged, so one node then covers
/// everything and the pool is not used up).
#[verifier::external_body]
pub(crate) fn allocator_total_free_space(a: &UnitAllocator) -> (r: u32)
    ensures
        nodes_exhausted(*a) ==> r == 0,
        !nodes_exhausted(*a) ==> r == allocator_capacity(*a) - used_units(live_allocations(*a)),
        r <= allocator_capacity(*a),
        live_allocations(*a).dom().is_empty() ==> r == allocator_capacity(*a),
        (exists|n: u32| #[trigger]
            live_allocations(*a).contains_key(n) && live_allocations(*a)[n].1 > 0)
            ==> r < allocator_capacity(*a),
{
    a.inner.storage_report().total_free_space
}

} // verus!
