//! A GPU buffer shared by many small uploads: space is handed out in units of
//! `SUBALLOCATION_UNIT_SIZE` bytes by a `UnitAllocator`, and each upload is
//! staged through the `StagingBelt` for a copy into the buffer.

use vstd::prelude::*;
use crate::allocation::AllocatedBuffer;
use crate::staging::{StagingBelt, STAGING_BUFFER_SIZE, staged};
use crate::suballocator::{
    UnitAllocator, UnitAllocation, live_allocations, allocator_capacity, allocation_node,
    regions_disjoint, allocation_found, nodes_exhausted, used_units, lemma_used_units_insert,
    lemma_used_units_zero, allocator_new, allocator_allocate, allocator_free,
    allocator_total_free_space,
};

verus! {

/// Bytes per allocation unit.
pub const SUBALLOCATION_UNIT_SIZE: u32 = 32;

/// The units needed to hold `len` bytes: `len / 32`, rounded up.
pub open spec fn units_for(len: int) -> int {
    (len + 31) / 32
}

/// An upload takes the fewest whole 32-byte units that hold its bytes: they
/// hold all `len` bytes, and one unit fewer would not.
pub proof fn lemma_units_for_is_ceiling(len: int)
    requires
        len >= 0,
    ensures
        units_for(len) >= 0,
        len <= 32 * units_for(len),
        32 * units_for(len) < len + 32,
        len == 0 <==> units_for(len) == 0,
{
    let u = units_for(len);
    assert(u == (len + 31) / 32);
    assert(32 * u <= len + 31 && len + 31 < 32 * u + 32) by (nonlinear_arith)
        requires
            u == (len + 31) / 32,
            len >= 0,
    ;
}

/// A range of a `SuballocatedBuffer` that holds one upload.
pub struct BufferSuballocation {
    allocation: UnitAllocation,
    /// Where the range starts, in bytes from the start of the buffer.
    pub offset: u64,
    /// The size of the uploaded data, in bytes.
    pub size: u64,
}

/// A buffer, the allocator of its units and whether anything was uploaded
/// this frame.
pub struct SuballocatedBuffer {
    buffer: AllocatedBuffer,
    /// Suballocator with 32 byte "units" for mesh data.
    suballocator: UnitAllocator,
    /// True if there was any upload made in this frame.
    data_uploaded: bool,
}

/// The units of a buffer of `size` bytes are `size / 32` (truncated to 32
/// bits); the live ranges, finitely many, lie inside them and do not overlap.
pub open spec fn ranges_wf(live: Map<u32, (u32, u32)>, capacity: u32, size: u64) -> bool {
    &&& live.dom().finite()
    &&& capacity == (size / 32) as u32
    &&& capacity * SUBALLOCATION_UNIT_SIZE <= size
    &&& forall|n: u32| #[trigger] live.contains_key(n) ==> live[n].0 + live[n].1 <= capacity
    &&& forall|n: u32, m: u32|
        #[trigger] live.contains_key(n) && #[trigger] live.contains_key(m) && n != m
            ==> regions_disjoint(live[n], live[m])
}

/// Where the whole units of `s` end, in bytes: its start plus 32 bytes for
/// each unit that its size needs.
pub open spec fn rounded_end(s: &BufferSuballocation) -> int {
    s.range_start() + 32 * units_for(s.byte_len() as int)
}

impl BufferSuballocation {
    /// The allocator node that this range was handed out as.
    pub closed spec fn node(&self) -> u32 {
        allocation_node(self.allocation)
    }

    /// `offset`: where the range starts, in bytes.
    pub closed spec fn range_start(&self) -> u64 {
        self.offset
    }

    /// `size`: the size of the uploaded data, in bytes.
    pub closed spec fn byte_len(&self) -> u64 {
        self.size
    }
}

impl SuballocatedBuffer {
    /// The live unit ranges: node to `(offset, size)` in units.
    pub closed spec fn live(&self) -> Map<u32, (u32, u32)> {
        live_allocations(self.suballocator)
    }

    /// The number of units that the allocator manages.
    pub closed spec fn capacity_units(&self) -> u32 {
        allocator_capacity(self.suballocator)
    }

    /// The handle of the buffer.
    pub closed spec fn handle(&self) -> ash::vk::Buffer {
        self.buffer.handle()
    }

    /// The size of the buffer in bytes.
    pub closed spec fn size_bytes(&self) -> u64 {
        self.buffer.size_bytes()
    }

    /// Whether the allocator, as it stands, finds room for `len` bytes.
    pub closed spec fn has_room_for(&self, len: int) -> bool {
        allocation_found(self.suballocator, units_for(len) as u32)
    }

    /// Whether the allocator has run out of nodes.
    pub closed spec fn pool_exhausted(&self) -> bool {
        nodes_exhausted(self.suballocator)
    }

    /// The free units that the allocator reports: the units that no live
    /// range holds, or none once it has run out of nodes.
    pub open spec fn reported_free(&self) -> int {
        if self.pool_exhausted() {
            0
        } else {
            self.capacity_units() - used_units(self.live())
        }
    }

    /// The memory of the buffer.
    pub closed spec fn memory(&self) -> gpu_allocator::vulkan::Allocation {
        self.buffer.memory()
    }

    /// Whether an upload succeeded since the frame started.
    pub closed spec fn uploaded(&self) -> bool {
        self.data_uploaded
    }

    /// The managed units fit in the buffer, and the live ranges lie inside
    /// them without overlapping.
    pub closed spec fn wf(&self) -> bool {
        ranges_wf(self.live(), self.capacity_units(), self.size_bytes())
    }

    /// `s` is a live range of this buffer: its node is live, it starts at the
    /// node's first unit and the node has `units_for(size)` units.
    pub closed spec fn holds(&self, s: &BufferSuballocation) -> bool {
        &&& self.live().contains_key(s.node())
        &&& s.offset == self.live()[s.node()].0 * SUBALLOCATION_UNIT_SIZE
        &&& self.live()[s.node()].1 == units_for(s.size as int)
    }

    /// The buffer itself.
    pub closed spec fn backing(&self) -> AllocatedBuffer {
        self.buffer
    }

    /// Sub-allocates `buffer`: its size in bytes over 32 (truncated to 32
    /// bits) is the number of units managed, and nothing is allocated or
    /// uploaded yet.
    pub fn new(buffer: AllocatedBuffer) -> (r: Self)
        ensures
            r.wf(),
            r.live().dom().is_empty(),
            r.capacity_units() == (buffer.size_bytes() / 32) as u32,
            r.handle() == buffer.handle(),
            r.size_bytes() == buffer.size_bytes(),
            !r.uploaded(),
    {
        let buffer_size: u64 = buffer.size();
        let size_units: u32 = (buffer_size / 32) as u32;
        let suballocator = allocator_new(size_units);
        let r = Self { buffer, suballocator, data_uploaded: false };
        assert(r.capacity_units() * 32 <= buffer_size) by (nonlinear_arith)
            requires
                r.capacity_units() == (buffer_size / 32) as u32,
        {
            assert((buffer_size / 32) as u32 <= buffer_size / 32) by (bit_vector);
        }
        r
    }

    /// Starts a new frame: nothing has been uploaded in it yet.
    pub fn start_frame(&mut self)
        requires
            old(self).wf(),
        ensures
            final(self).wf(),
            !final(self).uploaded(),
            final(self).live() == old(self).live(),
            final(self).capacity_units() == old(self).capacity_units(),
            final(self).handle() == old(self).handle(),
            final(self).size_bytes() == old(self).size_bytes(),
    {
        self.data_uploaded = false;
    }

    /// Uploads `data`: allocates `units_for(len)` units, stages the bytes for
    /// a copy to the start of that range, and returns the range.
    ///
    /// Returns `None`, and changes nothing, exactly when the allocator finds
    /// no room. The data must fit in what is left of the staging buffer.
    pub fn upload_data(&mut self, staging: &mut StagingBelt, data: &[u8]) -> (r: Option<BufferSuballocation>)
        requires
            old(self).wf(),
            old(staging)@.wf(),
            old(staging)@.current().used + data@.len() <= STAGING_BUFFER_SIZE,
        ensures
            final(self).wf(),
            final(staging)@.wf(),
            final(self).capacity_units() == old(self).capacity_units(),
            final(self).handle() == old(self).handle(),
            final(self).size_bytes() == old(self).size_bytes(),
            r is Some <==> old(self).has_room_for(data@.len() as int),
            match r {
                None => {
                    &&& final(self).live() == old(self).live()
                    &&& final(self).uploaded() == old(self).uploaded()
                    &&& final(staging)@ == old(staging)@
                },
                Some(s) => {
                    &&& !old(self).live().contains_key(s.node())
                    &&& final(self).live() == old(self).live().insert(
                        s.node(),
                        ((s.range_start() / 32) as u32, units_for(data@.len() as int) as u32),
                    )
                    &&& final(self).holds(&s)
                    &&& s.range_start() % 32 == 0
                    &&& rounded_end(&s) <= final(self).size_bytes()
                    &&& data@.len() <= 32 * final(self).live()[s.node()].1
                    &&& 32 * final(self).live()[s.node()].1 < data@.len() + 32
                    &&& s.byte_len() == data@.len()
                    &&& final(self).uploaded()
                    &&& final(staging)@.current_frame == old(staging)@.current_frame
                    &&& final(staging)@.frames == old(staging)@.frames.update(
                        old(staging)@.current_frame,
                        staged(old(staging)@.current(), old(self).handle(), s.range_start(), s.byte_len()),
                    )
                },
            },
    {
        let size: u64 = data.len() as u64;
        let size_units: u32 = ((size + 31) / 32) as u32;
        let ghost old_live = old(self).live();
        let allocated = allocator_allocate(&mut self.suballocator, size_units);
        match allocated {
            None => {
                assert(self.live() == old_live);
                None
            },
            Some((allocation, unit_offset)) => {
                let ghost n = allocation_node(allocation);
                let ghost new_live = self.live();
                assert(new_live == old_live.insert(n, (unit_offset, size_units)));
                assert forall|a: u32, b: u32|
                    #[trigger] new_live.contains_key(a) && #[trigger] new_live.contains_key(b)
                        && a != b implies regions_disjoint(new_live[a], new_live[b]) by {
                    if a == n {
                        assert(old_live.contains_key(b));
                        assert(new_live[b] == old_live[b]);
                    } else if b == n {
                        assert(old_live.contains_key(a));
                        assert(new_live[a] == old_live[a]);
                    } else {
                        assert(old_live.contains_key(a) && old_live.contains_key(b));
                    }
                }
                assert forall|a: u32| #[trigger]
                    new_live.contains_key(a) implies new_live[a].0 + new_live[a].1
                        <= self.capacity_units() by {
                    if a != n {
                        assert(old_live.contains_key(a));
                    }
                }
                assert(self.wf());
                proof {
                    lemma_units_for_is_ceiling(data@.len() as int);
                }
                self.place_upload(staging, data, Some((allocation, unit_offset)))
            },
        }
    }

    /// The part of an upload after the allocator was asked for room:
    /// given what it answered, stages `data` for a copy to the start of the
    /// allocated range and returns the range; returns `None` and changes
    /// nothing when it found no room.
    ///
    /// The allocated node must already be live with `units_for(len)` units.
    pub fn place_upload(
        &mut self,
        staging: &mut StagingBelt,
        data: &[u8],
        allocated: Option<(UnitAllocation, u32)>,
    ) -> (r: Option<BufferSuballocation>)
        requires
            old(self).wf(),
            old(staging)@.wf(),
            old(staging)@.current().used + data@.len() <= STAGING_BUFFER_SIZE,
            allocated matches Some((al, unit_offset)) ==> {
                &&& old(self).live().contains_key(allocation_node(al))
                &&& old(self).live()[allocation_node(al)] == (
                    unit_offset,
                    units_for(data@.len() as int) as u32,
                )
            },
        ensures
            final(self).wf(),
            final(staging)@.wf(),
            final(self).live() == old(self).live(),
            final(self).capacity_units() == old(self).capacity_units(),
            final(self).handle() == old(self).handle(),
            final(self).size_bytes() == old(self).size_bytes(),
            match allocated {
                None => {
                    &&& r is None
                    &&& final(self).uploaded() == old(self).uploaded()
                    &&& final(staging)@ == old(staging)@
                },
                Some((al, unit_offset)) => {
                    &&& r matches Some(s) && {
                        &&& s.node() == allocation_node(al)
                        &&& s.range_start() == unit_offset * 32
                        &&& s.byte_len() == data@.len()
                        &&& final(self).holds(&s)
                        &&& final(staging)@.frames == old(staging)@.frames.update(
                            old(staging)@.current_frame,
                            staged(old(staging)@.current(), old(self).handle(), s.range_start(), s.byte_len()),
                        )
                    }
                    &&& final(self).uploaded()
                    &&& final(staging)@.current_frame == old(staging)@.current_frame
                },
            },
    {
        match allocated {
            None => None,
            Some((allocation, unit_offset)) => {
                let size: u64 = data.len() as u64;
                let offset: u64 = unit_offset as u64 * SUBALLOCATION_UNIT_SIZE as u64;
                self.data_uploaded = true;
                assert(self.live() == old(self).live());
                staging.write_buffer(self.buffer.buffer(), offset, data);
                let s = BufferSuballocation { allocation, offset, size };
                Some(s)
            },
        }
    }

    /// Returns the range of `suballocation` to the allocator.
    pub fn dispose_suballocation(&mut self, suballocation: BufferSuballocation)
        requires
            old(self).wf(),
            old(self).live().contains_key(suballocation.node()),
        ensures
            final(self).wf(),
            final(self).live() == old(self).live().remove(suballocation.node()),
            final(self).capacity_units() == old(self).capacity_units(),
            final(self).uploaded() == old(self).uploaded(),
            final(self).handle() == old(self).handle(),
            final(self).size_bytes() == old(self).size_bytes(),
    {
        allocator_free(&mut self.suballocator, suballocation.allocation);
    }

    /// Whether anything was uploaded since the frame started.
    pub fn data_uploaded_this_frame(&self) -> (r: bool)
        ensures
            r == self.uploaded(),
    {
        self.data_uploaded
    }

    /// The buffer being sub-allocated.
    pub fn allocated_buffer(&self) -> (r: &AllocatedBuffer)
        ensures
            *r == self.backing(),
            r.handle() == self.handle(),
            r.size_bytes() == self.size_bytes(),
    {
        &self.buffer
    }

    /// The memory of the buffer, for writing through its mapping; nothing
    /// else changes.
    pub fn memory_mut(&mut self) -> (r: &mut gpu_allocator::vulkan::Allocation)
        requires
            old(self).wf(),
        ensures
            *r == old(self).memory(),
            final(self).memory() == *final(r),
            final(self).wf(),
            final(self).live() == old(self).live(),
            final(self).capacity_units() == old(self).capacity_units(),
            final(self).uploaded() == old(self).uploaded(),
            final(self).handle() == old(self).handle(),
            final(self).size_bytes() == old(self).size_bytes(),
    {
        self.buffer.allocation_mut()
    }

    /// Whether `free_units` free units of 32 bytes amount to exactly the
    /// buffer's size: the test that the allocator's report of free space must
    /// pass before the buffer is released.
    pub fn accounts_for_whole_buffer(&self, free_units: u32) -> (r: bool)
        ensures
            r == (free_units * 32 == self.size_bytes()),
    {
        let unit: u64 = SUBALLOCATION_UNIT_SIZE as u64;
        assert(unit == 32);
        free_units as u64 * unit == self.buffer.size()
    }

    /// Releases the sub-allocator after checking that every range was
    /// returned: the buffer comes back, for the caller to free, when the free
    /// units amount to exactly the buffer's size, and `None` reports a leak.
    ///
    /// The check passes when nothing is live and the buffer's size is a whole
    /// number of units that fits the allocator; it fails while a non-empty
    /// range is still live.
    pub fn dispose(self) -> (r: Option<AllocatedBuffer>)
        requires
            self.wf(),
        ensures
            r matches Some(b) ==> b == self.backing(),
            r matches Some(b) ==> b.handle() == self.handle() && b.size_bytes() == self.size_bytes(),
            r is Some <==> self.reported_free() * 32 == self.size_bytes(),
            !self.pool_exhausted() && (forall|n: u32| #[trigger]
                self.live().contains_key(n) ==> self.live()[n].1 == 0) ==> (r is Some
                <==> self.capacity_units() * 32 == self.size_bytes()),
            self.live().dom().is_empty() ==> (r is Some <==> self.capacity_units() * 32
                == self.size_bytes()),
            self.live().dom().is_empty() && self.size_bytes() % 32 == 0
                && self.size_bytes() / 32 <= u32::MAX ==> r is Some,
            (exists|n: u32| #[trigger] self.live().contains_key(n) && self.live()[n].1 > 0)
                ==> r is None,
    {
        let free_units: u32 = allocator_total_free_space(&self.suballocator);
        let no_leak = self.accounts_for_whole_buffer(free_units);
        proof {
            let cap: u32 = self.capacity_units();
            let size: u64 = self.size_bytes();
            if self.live().dom().is_empty() {
                assert(free_units == cap);
            }
            if !self.pool_exhausted() && (forall|n: u32| #[trigger]
                self.live().contains_key(n) ==> self.live()[n].1 == 0) {
                lemma_used_units_zero(self.live());
            }
            if self.live().dom().is_empty() && size % 32 == 0 && size / 32 <= u32::MAX {
                assert(cap == size / 32);
            }
            if exists|n: u32| #[trigger] self.live().contains_key(n) && self.live()[n].1 > 0 {
                assert(free_units < cap);
                assert(free_units * 32 < cap * 32) by (nonlinear_arith)
                    requires
                        free_units < cap,
                ;
            }
        }
        if no_leak {
            Some(self.buffer)
        } else {
            None
        }
    }
}

/// What a call on a `SuballocatedBuffer` does to its upload flag: a new frame
/// starts (`start_frame`), an upload succeeds (`upload_data` returning a
/// range), or anything else (a failed upload, `dispose_suballocation`,
/// `memory_mut`).
pub enum FrameEvent {
    FrameStarted,
    Uploaded,
    Other,
}

/// Whether an upload succeeded after the latest frame start (or since the
/// beginning, when no frame was started) in a history of events.
pub open spec fn uploaded_since_frame_start(events: Seq<FrameEvent>) -> bool
    decreases events.len(),
{
    if events.len() == 0 {
        false
    } else {
        match events.last() {
            FrameEvent::FrameStarted => false,
            FrameEvent::Uploaded => true,
            FrameEvent::Other => uploaded_since_frame_start(events.drop_last()),
        }
    }
}

/// The flag's part of each call's contract: `start_frame` clears it, a
/// successful `upload_data` sets it, and every other call keeps it.
pub open spec fn flag_step(before: &SuballocatedBuffer, after: &SuballocatedBuffer, e: FrameEvent) -> bool {
    match e {
        FrameEvent::FrameStarted => !after.uploaded(),
        FrameEvent::Uploaded => after.uploaded(),
        FrameEvent::Other => after.uploaded() == before.uploaded(),
    }
}

/// Over any history that starts from a new buffer, the upload flag is set
/// exactly when an upload succeeded after the latest frame start.
pub proof fn lemma_upload_flag(states: Seq<SuballocatedBuffer>, events: Seq<FrameEvent>)
    requires
        states.len() == events.len() + 1,
        !states[0].uploaded(),
        forall|i: int| 0 <= i < events.len() ==> flag_step(&states[i], &states[i + 1], #[trigger] events[i]),
    ensures
        states.last().uploaded() == uploaded_since_frame_start(events),
    decreases events.len(),
{
    if events.len() > 0 {
        let k = events.len() - 1;
        lemma_upload_flag(states.drop_last(), events.drop_last());
        assert(flag_step(&states[k], &states[k + 1], events[k]));
        assert(states.drop_last().last() == states[k]);
    }
}

/// What a well-formed buffer is: its units are its size over 32 (truncated
/// to 32 bits) and fit in it, and its live ranges lie inside the units
/// without overlapping.
pub proof fn lemma_wf_reveals(b: &SuballocatedBuffer)
    requires
        b.wf(),
    ensures
        b.capacity_units() == (b.size_bytes() / 32) as u32,
        b.capacity_units() * 32 <= b.size_bytes(),
        forall|n: u32| #[trigger]
            b.live().contains_key(n) ==> b.live()[n].0 + b.live()[n].1 <= b.capacity_units(),
        forall|n: u32, m: u32|
            #[trigger] b.live().contains_key(n) && #[trigger] b.live().contains_key(m) && n != m
                ==> regions_disjoint(b.live()[n], b.live()[m]),
{
}

/// A live range starts on a unit boundary, its bytes fit in its whole units,
/// and those units lie inside the buffer.
pub proof fn lemma_holds_in_buffer(b: &SuballocatedBuffer, s: &BufferSuballocation)
    requires
        b.wf(),
        b.holds(s),
    ensures
        s.range_start() % 32 == 0,
        s.range_start() + s.byte_len() <= rounded_end(s),
        rounded_end(s) <= b.size_bytes(),
{
    let r = b.live()[s.node()];
    assert(r.0 + r.1 <= b.capacity_units());
    assert((r.0 + r.1) * 32 <= b.capacity_units() * 32) by (nonlinear_arith)
        requires
            r.0 + r.1 <= b.capacity_units(),
    ;
    assert(s.size <= 32 * units_for(s.size as int));
}

/// A range stays live, as it was, when another range is uploaded: the
/// upload adds a node that was not live.
pub proof fn lemma_holds_after_upload(
    before: &SuballocatedBuffer,
    after: &SuballocatedBuffer,
    s: &BufferSuballocation,
    n: u32,
    units: (u32, u32),
)
    requires
        before.holds(s),
        !before.live().contains_key(n),
        after.live() == before.live().insert(n, units),
    ensures
        after.holds(s),
{
    assert(n != s.node());
}

/// A range stays live, as it was, when another range is disposed of.
pub proof fn lemma_holds_after_dispose(
    before: &SuballocatedBuffer,
    after: &SuballocatedBuffer,
    s: &BufferSuballocation,
    n: u32,
)
    requires
        before.holds(s),
        n != s.node(),
        after.live() == before.live().remove(n),
    ensures
        after.holds(s),
{
}

/// Two ranges live in the same buffer never overlap, whole units included,
/// and each lies inside the buffer.
pub proof fn lemma_suballocations_disjoint(
    b: &SuballocatedBuffer,
    s: &BufferSuballocation,
    t: &BufferSuballocation,
)
    requires
        b.wf(),
        b.holds(s),
        b.holds(t),
        s.node() != t.node(),
    ensures
        rounded_end(s) <= t.range_start() || rounded_end(t) <= s.range_start(),
        rounded_end(s) <= b.size_bytes(),
        rounded_end(t) <= b.size_bytes(),
{
    lemma_holds_in_buffer(b, s);
    lemma_holds_in_buffer(b, t);
    let rs = b.live()[s.node()];
    let rt = b.live()[t.node()];
    assert(regions_disjoint(rs, rt));
    if rs.0 + rs.1 <= rt.0 {
        assert((rs.0 + rs.1) * 32 <= rt.0 * 32) by (nonlinear_arith)
            requires
                rs.0 + rs.1 <= rt.0,
        ;
    } else {
        assert((rt.0 + rt.1) * 32 <= rs.0 * 32) by (nonlinear_arith)
            requires
                rt.0 + rt.1 <= rs.0,
        ;
    }
}

/// An upload takes its units out of the free space that the allocator
/// reports (while the allocator has nodes to spare before and after).
pub proof fn lemma_upload_takes_free_units(
    before: &SuballocatedBuffer,
    uploaded: &SuballocatedBuffer,
    n: u32,
    units: (u32, u32),
)
    requires
        before.wf(),
        !before.live().contains_key(n),
        uploaded.live() == before.live().insert(n, units),
        uploaded.capacity_units() == before.capacity_units(),
        !before.pool_exhausted(),
        !uploaded.pool_exhausted(),
    ensures
        uploaded.reported_free() == before.reported_free() - units.1,
{
    lemma_used_units_insert(before.live(), n, units);
}

/// Disposing of a range undoes the upload that made it: the live ranges are
/// back to what they were before the upload, and so is the free space that
/// the allocator reports (while it has nodes to spare at both ends).
pub proof fn lemma_dispose_undoes_upload(
    before: &SuballocatedBuffer,
    uploaded: &SuballocatedBuffer,
    disposed: &SuballocatedBuffer,
    s: &BufferSuballocation,
    units: (u32, u32),
)
    requires
        !before.live().contains_key(s.node()),
        uploaded.live() == before.live().insert(s.node(), units),
        disposed.live() == uploaded.live().remove(s.node()),
        disposed.capacity_units() == before.capacity_units(),
    ensures
        disposed.live() == before.live(),
        !before.pool_exhausted() && !disposed.pool_exhausted() ==> disposed.reported_free()
            == before.reported_free(),
{
    assert(disposed.live() =~= before.live());
}

} // verus!
