//! The staging belt: per frame in flight, a CPU-visible staging buffer that
//! uploads are packed into back to back, and the list of buffer copies that
//! move the staged bytes to their destinations when the frame is flushed.
//!
//! The belt holds the staging buffers and keeps the bookkeeping. Writing the
//! bytes into the mapped memory at the offset that `write_buffer` returns, and
//! recording one GPU copy per entry of `copies_to_flush`, is the caller's part.

use vstd::prelude::*;
use crate::FRAMES_IN_FLIGHT;
use crate::allocation::AllocatedBuffer;

verus! {

/// Size in bytes of each frame's staging buffer (8 MiB).
pub const STAGING_BUFFER_SIZE: u64 = 8 * 1024 * 1024;

/// A copy from the current frame's staging buffer into `dest`, recorded by
/// `write_buffer` and executed when the frame is flushed.
#[derive(Clone, Copy, Debug)]
pub struct StoredCopy {
    pub dest: ash::vk::Buffer,
    pub dst_offset: u64,
    pub size: u64,
    pub src_offset: u64,
}

/// One frame's staging buffer and what is staged in it.
pub struct StagingBuffer {
    buffer: AllocatedBuffer,
    used: u64,
    stored_copies: Vec<StoredCopy>,
}

/// The staging buffers of all frames in flight and the frame being recorded.
pub struct StagingBelt {
    buffers: Vec<StagingBuffer>,
    current_frame: usize,
}

/// A frame's staging buffer: its handle, its memory and the size of that
/// memory, its device address, the bytes in use and the copies staged.
pub struct StagingFrameView {
    pub buffer: ash::vk::Buffer,
    pub memory: gpu_allocator::vulkan::Allocation,
    pub size: u64,
    pub address: Option<u64>,
    pub used: u64,
    pub copies: Seq<StoredCopy>,
}

/// The model of a staging belt.
pub struct StagingBeltView {
    pub frames: Seq<StagingFrameView>,
    pub current_frame: int,
}

/// The copies are laid out back to back from offset 0 and end at `used`:
/// each one starts where the one before it ends.
pub open spec fn packed(copies: Seq<StoredCopy>, used: u64) -> bool
    decreases copies.len(),
{
    if copies.len() == 0 {
        used == 0
    } else {
        let last = copies.last();
        &&& last.src_offset + last.size == used
        &&& packed(copies.drop_last(), last.src_offset)
    }
}

/// The frame after `size` bytes bound for `dest` at `dst_offset` were staged in it.
pub open spec fn staged(frame: StagingFrameView, dest: ash::vk::Buffer, dst_offset: u64, size: u64) -> StagingFrameView {
    StagingFrameView {
        used: (frame.used + size) as u64,
        copies: frame.copies.push(
            StoredCopy { dest: dest, dst_offset: dst_offset, size: size, src_offset: frame.used },
        ),
        ..frame
    }
}

/// The same frame over the memory `memory`.
pub open spec fn with_memory(frame: StagingFrameView, memory: gpu_allocator::vulkan::Allocation) -> StagingFrameView {
    StagingFrameView { memory: memory, ..frame }
}

/// The frame with nothing staged in it: the same staging buffer, emptied.
pub open spec fn emptied(frame: StagingFrameView) -> StagingFrameView {
    StagingFrameView { used: 0, copies: Seq::empty(), ..frame }
}

/// A frame with nothing staged in the staging buffer `buffer`.
pub open spec fn empty_frame(buffer: AllocatedBuffer) -> StagingFrameView {
    StagingFrameView {
        buffer: buffer.handle(),
        memory: buffer.memory(),
        size: buffer.size_bytes(),
        address: buffer.address(),
        used: 0,
        copies: Seq::empty(),
    }
}

/// Staging a write appends exactly one copy, after the copies already staged,
/// that records the destination, destination offset and size it was given and
/// the staging offset where the frame's bytes in use ended; the bytes in use
/// grow by the size, and the staging buffer stays the same.
pub proof fn lemma_staged_appends_the_write(
    frame: StagingFrameView,
    dest: ash::vk::Buffer,
    dst_offset: u64,
    size: u64,
)
    requires
        frame.used + size <= u64::MAX,
    ensures
        staged(frame, dest, dst_offset, size).copies.len() == frame.copies.len() + 1,
        staged(frame, dest, dst_offset, size).copies.subrange(0, frame.copies.len() as int)
            == frame.copies,
        staged(frame, dest, dst_offset, size).copies.last().dest == dest,
        staged(frame, dest, dst_offset, size).copies.last().dst_offset == dst_offset,
        staged(frame, dest, dst_offset, size).copies.last().size == size,
        staged(frame, dest, dst_offset, size).copies.last().src_offset == frame.used,
        staged(frame, dest, dst_offset, size).used == frame.used + size,
        staged(frame, dest, dst_offset, size).buffer == frame.buffer,
        staged(frame, dest, dst_offset, size).memory == frame.memory,
        staged(frame, dest, dst_offset, size).size == frame.size,
        staged(frame, dest, dst_offset, size).address == frame.address,
{
    assert(staged(frame, dest, dst_offset, size).copies.subrange(0, frame.copies.len() as int)
        =~= frame.copies);
}

/// Emptying a frame drops every staged copy and every byte in use, whatever
/// the frame held, and keeps its staging buffer.
pub proof fn lemma_emptied_holds_nothing(frame: StagingFrameView)
    ensures
        emptied(frame).copies.len() == 0,
        emptied(frame).used == 0,
        emptied(frame).buffer == frame.buffer,
        emptied(frame).memory == frame.memory,
        emptied(frame).size == frame.size,
        emptied(frame).address == frame.address,
{
}

/// Staged copies never share staging bytes: in a packed list the first copy
/// starts at 0, each one starts where the one before it ends, the last one
/// ends at `used`, every copy ends before any later one starts, and all of
/// them lie in `[0, used)`.
pub proof fn lemma_packed_copies_disjoint(copies: Seq<StoredCopy>, used: u64)
    requires
        packed(copies, used),
    ensures
        copies.len() > 0 ==> copies[0].src_offset == 0,
        copies.len() > 0 ==> copies.last().src_offset + copies.last().size == used,
        forall|k: int|
            0 <= k < copies.len() - 1 ==> #[trigger] copies[k + 1].src_offset == copies[k].src_offset
                + copies[k].size,
        forall|i: int|
            0 <= i < copies.len() ==> #[trigger] copies[i].src_offset + copies[i].size <= used,
        forall|i: int, j: int|
            0 <= i < j < copies.len() ==> #[trigger] copies[i].src_offset + copies[i].size
                <= #[trigger] copies[j].src_offset,
    decreases copies.len(),
{
    if copies.len() > 0 {
        let init = copies.drop_last();
        let last = copies.last();
        lemma_packed_copies_disjoint(init, last.src_offset);
        if init.len() > 0 {
            assert(copies[0] == init[0]);
        } else {
            assert(copies[0] == last);
            assert(packed(init, last.src_offset));
            assert(last.src_offset == 0);
        }
        assert forall|k: int| 0 <= k < copies.len() - 1 implies #[trigger] copies[k + 1].src_offset
            == copies[k].src_offset + copies[k].size by {
            assert(copies[k] == init[k]);
            if k + 1 < copies.len() - 1 {
                assert(copies[k + 1] == init[k + 1]);
            } else {
                assert(init.last() == init[k]);
            }
        }
        assert forall|i: int| 0 <= i < copies.len() implies #[trigger] copies[i].src_offset
            + copies[i].size <= used by {
            if i < copies.len() - 1 {
                assert(copies[i] == init[i]);
            }
        }
        assert forall|i: int, j: int| 0 <= i < j < copies.len() implies #[trigger] copies[i].src_offset
            + copies[i].size <= #[trigger] copies[j].src_offset by {
            assert(copies[i] == init[i]);
            if j < copies.len() - 1 {
                assert(copies[j] == init[j]);
            }
        }
    }
}

/// In every frame of a well-formed belt, which `new`, `start_frame` and
/// `write_buffer` all leave behind, the staged copies are contiguous from
/// offset 0 up to the bytes in use, those lie inside `STAGING_BUFFER_SIZE`,
/// and no two copies share a byte of the staging buffer.
pub proof fn lemma_staged_copies_disjoint(belt: StagingBeltView, frame: int)
    requires
        belt.wf(),
        0 <= frame < FRAMES_IN_FLIGHT,
    ensures
        belt.frames[frame].copies.len() > 0 ==> belt.frames[frame].copies[0].src_offset == 0,
        belt.frames[frame].copies.len() > 0 ==> belt.frames[frame].copies.last().src_offset
            + belt.frames[frame].copies.last().size == belt.frames[frame].used,
        belt.frames[frame].copies.len() == 0 ==> belt.frames[frame].used == 0,
        belt.frames[frame].used <= STAGING_BUFFER_SIZE,
        forall|k: int|
            0 <= k < belt.frames[frame].copies.len() - 1 ==> #[trigger] belt.frames[frame].copies[k
                + 1].src_offset == belt.frames[frame].copies[k].src_offset
                + belt.frames[frame].copies[k].size,
        forall|i: int|
            0 <= i < belt.frames[frame].copies.len() ==> #[trigger] belt.frames[frame].copies[i].src_offset
                + belt.frames[frame].copies[i].size <= belt.frames[frame].used,
        forall|i: int, j: int|
            0 <= i < j < belt.frames[frame].copies.len() ==> #[trigger] belt.frames[frame].copies[i].src_offset
                + belt.frames[frame].copies[i].size <= #[trigger] belt.frames[frame].copies[j].src_offset,
{
    let f = belt.frames[frame];
    lemma_packed_copies_disjoint(f.copies, f.used);
}

impl StagingBuffer {
    /// The buffer's handle, the bytes in use and the copies staged.
    pub closed spec fn view(&self) -> StagingFrameView {
        StagingFrameView {
            buffer: self.buffer.handle(),
            memory: self.buffer.memory(),
            size: self.buffer.size_bytes(),
            address: self.buffer.address(),
            used: self.used,
            copies: self.stored_copies@,
        }
    }

    /// The memory of the staging buffer; the bookkeeping stays as it is.
    fn memory_mut(&mut self) -> (r: &mut gpu_allocator::vulkan::Allocation)
        ensures
            *r == old(self).view().memory,
            final(self).view() == with_memory(old(self).view(), *final(r)),
    {
        self.buffer.allocation_mut()
    }
}

impl View for StagingBelt {
    type V = StagingBeltView;

    closed spec fn view(&self) -> StagingBeltView {
        StagingBeltView {
            frames: Seq::new(self.buffers@.len(), |i: int| self.buffers@[i].view()),
            current_frame: self.current_frame as int,
        }
    }
}

impl StagingBeltView {
    /// The frame being recorded.
    pub open spec fn current(self) -> StagingFrameView {
        self.frames[self.current_frame]
    }

    /// One staging buffer of at least `STAGING_BUFFER_SIZE` bytes per frame in
    /// flight, a valid current frame, and in each frame the staged copies
    /// packed within `STAGING_BUFFER_SIZE` bytes.
    pub open spec fn wf(self) -> bool {
        &&& self.frames.len() == FRAMES_IN_FLIGHT
        &&& 0 <= self.current_frame < FRAMES_IN_FLIGHT
        &&& forall|f: int|
            0 <= f < FRAMES_IN_FLIGHT ==> {
                &&& (#[trigger] self.frames[f]).used <= STAGING_BUFFER_SIZE
                &&& self.frames[f].size >= STAGING_BUFFER_SIZE
                &&& packed(self.frames[f].copies, self.frames[f].used)
            }
    }
}

impl StagingBelt {
    /// A belt over one staging buffer per frame in flight, each of at least
    /// `STAGING_BUFFER_SIZE` bytes, with nothing staged, recording frame 0.
    pub fn new(buffers: Vec<AllocatedBuffer>) -> (r: Self)
        requires
            buffers@.len() == FRAMES_IN_FLIGHT,
            forall|f: int| 0 <= f < FRAMES_IN_FLIGHT ==> #[trigger] buffers@[f].size_bytes() >= STAGING_BUFFER_SIZE,
        ensures
            r@.wf(),
            r@.current_frame == 0,
            forall|f: int|
                0 <= f < FRAMES_IN_FLIGHT ==> #[trigger] r@.frames[f] == empty_frame(buffers@[f]),
    {
        let mut rest = buffers;
        let mut frames: Vec<StagingBuffer> = Vec::new();
        while rest.len() > 0
            invariant
                frames@.len() + rest@.len() == FRAMES_IN_FLIGHT,
                forall|f: int|
                    0 <= f < frames@.len() ==> #[trigger] frames@[f].view() == empty_frame(buffers@[f]),
                forall|f: int|
                    0 <= f < rest@.len() ==> #[trigger] rest@[f] == buffers@[frames@.len() + f],
            decreases rest@.len(),
        {
            let ghost prev_rest = rest@;
            let buffer = rest.remove(0);
            proof {
                assert(buffer == buffers@[frames@.len() as int]);
            }
            frames.push(StagingBuffer { buffer, used: 0, stored_copies: Vec::new() });
            assert forall|f: int| 0 <= f < rest@.len() implies #[trigger] rest@[f] == buffers@[frames@.len() + f] by {
                assert(rest@[f] == prev_rest[f + 1]);
            }
        }
        let r = StagingBelt { buffers: frames, current_frame: 0 };
        assert forall|f: int| 0 <= f < FRAMES_IN_FLIGHT implies #[trigger] r@.frames[f] == empty_frame(buffers@[f]) by {
            assert(r@.frames[f] == frames@[f].view());
        }
        r
    }

    /// Makes `frame` the frame being recorded and empties its staging buffer.
    pub fn start_frame(&mut self, frame: usize)
        requires
            old(self)@.wf(),
            frame < FRAMES_IN_FLIGHT,
        ensures
            final(self)@.wf(),
            final(self)@.current_frame == frame,
            final(self)@.current().copies.len() == 0,
            final(self)@.current().used == 0,
            final(self)@.frames == old(self)@.frames.update(
                frame as int,
                emptied(old(self)@.frames[frame as int]),
            ),
    {
        self.current_frame = frame;
        self.buffers[frame].used = 0;
        self.buffers[frame].stored_copies.clear();
        assert(self@.frames =~= old(self)@.frames.update(
            frame as int,
            emptied(old(self)@.frames[frame as int]),
        ));
    }

    /// Stages `data` for a copy into `dest` at `dst_offset`, right after what
    /// the current frame already holds, and returns the offset in the staging
    /// buffer at which the caller writes the bytes.
    ///
    /// The data must fit in what is left of the staging buffer.
    pub fn write_buffer(&mut self, dest: ash::vk::Buffer, dst_offset: u64, data: &[u8]) -> (src_offset: u64)
        requires
            old(self)@.wf(),
            old(self)@.current().used + data@.len() <= STAGING_BUFFER_SIZE,
        ensures
            final(self)@.wf(),
            src_offset == old(self)@.current().used,
            final(self)@.current_frame == old(self)@.current_frame,
            final(self)@.current().copies.len() == old(self)@.current().copies.len() + 1,
            final(self)@.current().copies.last().dest == dest,
            final(self)@.current().copies.last().dst_offset == dst_offset,
            final(self)@.current().copies.last().size == data@.len(),
            final(self)@.current().copies.last().src_offset == src_offset,
            final(self)@.current().used == src_offset + data@.len(),
            final(self)@.frames == old(self)@.frames.update(
                old(self)@.current_frame,
                staged(old(self)@.current(), dest, dst_offset, data@.len() as u64),
            ),
    {
        let data_size: u64 = data.len() as u64;
        let cur: usize = self.current_frame;
        let src_offset: u64 = self.buffers[cur].used;
        proof {
            assert(self@.frames[cur as int] == self.buffers@[cur as int].view());
        }
        self.buffers[cur].used = src_offset + data_size;
        self.buffers[cur].stored_copies.push(
            StoredCopy { dest, dst_offset, size: data_size, src_offset },
        );
        proof {
            let new_frame = staged(old(self)@.current(), dest, dst_offset, data_size);
            assert(self@.frames =~= old(self)@.frames.update(cur as int, new_frame));
            assert(new_frame.copies.drop_last() =~= old(self)@.current().copies);
        }
        src_offset
    }

    /// The bytes left in the current frame's staging buffer.
    pub fn available(&self) -> (r: u64)
        requires
            self@.wf(),
        ensures
            r == STAGING_BUFFER_SIZE - self@.current().used,
    {
        let cur: usize = self.current_frame;
        proof {
            assert(self@.frames[cur as int] == self.buffers@[cur as int].view());
        }
        STAGING_BUFFER_SIZE - self.buffers[cur].used
    }

    /// The bytes staged so far in the current frame: where the next write
    /// goes in its staging buffer.
    pub fn used(&self) -> (r: u64)
        requires
            self@.wf(),
        ensures
            r == self@.current().used,
    {
        let cur: usize = self.current_frame;
        proof {
            assert(self@.frames[cur as int] == self.buffers@[cur as int].view());
        }
        self.buffers[cur].used
    }

    /// The frame being recorded.
    pub fn current_frame(&self) -> (r: usize)
        ensures
            r == self@.current_frame,
    {
        self.current_frame
    }

    /// The current frame's staging buffer.
    pub fn current_buffer(&self) -> (r: &AllocatedBuffer)
        requires
            self@.wf(),
        ensures
            r.handle() == self@.current().buffer,
    {
        let cur: usize = self.current_frame;
        proof {
            assert(self@.frames[cur as int] == self.buffers@[cur as int].view());
        }
        &self.buffers[cur].buffer
    }

    /// The memory of the current frame's staging buffer, for writing staged
    /// bytes through its mapping. The bookkeeping stays as it is.
    pub fn current_memory_mut(&mut self) -> (r: &mut gpu_allocator::vulkan::Allocation)
        requires
            old(self)@.wf(),
        ensures
            *r == old(self)@.current().memory,
            final(self)@.frames == old(self)@.frames.update(
                old(self)@.current_frame,
                with_memory(old(self)@.current(), *final(r)),
            ),
            final(self)@.current_frame == old(self)@.current_frame,
    {
        let cur: usize = self.current_frame;
        self.buffers[cur].memory_mut()
    }

    /// Hands back the staging buffers, in frame order, for release.
    pub fn dispose(self) -> (r: Vec<AllocatedBuffer>)
        requires
            self@.wf(),
        ensures
            r@.len() == FRAMES_IN_FLIGHT,
            forall|f: int|
                0 <= f < FRAMES_IN_FLIGHT ==> {
                    &&& #[trigger] r@[f].handle() == self@.frames[f].buffer
                    &&& r@[f].memory() == self@.frames[f].memory
                    &&& r@[f].size_bytes() == self@.frames[f].size
                    &&& r@[f].address() == self@.frames[f].address
                },
    {
        let ghost frames = self.buffers@;
        let mut rest = self.buffers;
        let mut released: Vec<AllocatedBuffer> = Vec::new();
        while rest.len() > 0
            invariant
                frames.len() == FRAMES_IN_FLIGHT,
                released@.len() + rest@.len() == FRAMES_IN_FLIGHT,
                forall|f: int|
                    0 <= f < released@.len() ==> #[trigger] released@[f] == frames[f].buffer,
                forall|f: int|
                    0 <= f < rest@.len() ==> #[trigger] rest@[f] == frames[released@.len() + f],
            decreases rest@.len(),
        {
            let ghost prev_rest = rest@;
            let staging_buffer = rest.remove(0);
            released.push(staging_buffer.buffer);
            assert forall|f: int| 0 <= f < rest@.len() implies #[trigger] rest@[f] == frames[released@.len() + f] by {
                assert(rest@[f] == prev_rest[f + 1]);
            }
        }
        assert forall|f: int| 0 <= f < FRAMES_IN_FLIGHT implies {
            &&& #[trigger] released@[f].handle() == self@.frames[f].buffer
            &&& released@[f].memory() == self@.frames[f].memory
            &&& released@[f].size_bytes() == self@.frames[f].size
            &&& released@[f].address() == self@.frames[f].address
        } by {
            assert(self@.frames[f] == frames[f].view());
        }
        released
    }

    /// The copies staged in the current frame, in the order they were staged:
    /// the copies that flushing the frame records.
    pub fn copies_to_flush(&self) -> (r: &Vec<StoredCopy>)
        requires
            self@.wf(),
        ensures
            r@ == self@.current().copies,
    {
        let cur: usize = self.current_frame;
        proof {
            assert(self@.frames[cur as int] == self.buffers@[cur as int].view());
        }
        &self.buffers[cur].stored_copies
    }
}

} // verus!
