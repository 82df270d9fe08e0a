//! Double buffering: which of two regions a frame reads and which it writes.

use vstd::prelude::*;
use crate::resource::Resource;

verus! {

/// The place in a pair of the region that frame `n` reads.
pub open spec fn read_index(n: int) -> int {
    n % 2
}

/// The place in a pair of the region that frame `n` writes.
pub open spec fn write_index(n: int) -> int {
    (n + 1) % 2
}

/// A frame reads one region of a pair and writes the other, and the next frame reads
/// what this one wrote.
pub proof fn lemma_double_buffer(n: int)
    requires
        0 <= n,
    ensures
        0 <= read_index(n) < 2,
        0 <= write_index(n) < 2,
        read_index(n) != write_index(n),
        read_index(n + 1) == write_index(n),
        write_index(n + 1) == read_index(n),
{
}

/// A count of frames that wraps around after 256 of them.
#[derive(Clone, Copy, Debug, PartialEq, Eq, Structural)]
pub struct FrameCounter {
    pub frame_num: u8,
}

impl FrameCounter {
    /// The counter before the first frame.
    pub fn new() -> (c: Self)
        ensures
            c.frame_num == 0,
    {
        FrameCounter { frame_num: 0 }
    }

    /// The place in a pair of the region that this frame reads.
    pub fn read_slot(&self) -> (i: usize)
        ensures
            i == read_index(self.frame_num as int),
    {
        (self.frame_num % 2) as usize
    }

    /// The place in a pair of the region that this frame writes.
    pub fn write_slot(&self) -> (i: usize)
        ensures
            i == write_index(self.frame_num as int),
            i != read_index(self.frame_num as int),
    {
        (1 - self.frame_num % 2) as usize
    }

    /// Moves on to the next frame.  The regions change roles, also where the count wraps.
    pub fn advance(&mut self)
        ensures
            final(self).frame_num == (old(self).frame_num + 1) % 256,
            read_index(final(self).frame_num as int) == write_index(old(self).frame_num as int),
            write_index(final(self).frame_num as int) == read_index(old(self).frame_num as int),
    {
        self.frame_num = self.frame_num.wrapping_add(1);
    }
}

/// The resources of the bind group for frames of parity `parity`: of the two regions,
/// the one read first and the one written second, then `rest`.
pub open spec fn paired_resources(
    first: Resource,
    second: Resource,
    rest: Seq<Resource>,
    parity: int,
) -> Seq<Resource> {
    if parity % 2 == 0 {
        seq![first, second] + rest
    } else {
        seq![second, first] + rest
    }
}

/// The resources of the bind group for frames of parity `parity`.
pub fn pair_resources(first: Resource, second: Resource, rest: &Vec<Resource>, parity: usize) -> (r:
    Vec<Resource>)
    ensures
        r@ == paired_resources(first, second, rest@, parity as int),
{
    let mut r: Vec<Resource> = Vec::new();
    if parity % 2 == 0 {
        r.push(first);
        r.push(second);
    } else {
        r.push(second);
        r.push(first);
    }
    let ghost head = r@;
    let mut i: usize = 0;
    while i < rest.len()
        invariant
            i <= rest.len(),
            r@ == head + rest@.take(i as int),
        decreases rest.len() - i,
    {
        r.push(rest[i]);
        i += 1;
        assert(r@ =~= head + rest@.take(i as int));
    }
    assert(rest@.take(rest.len() as int) =~= rest@);
    assert(head =~= if parity % 2 == 0 {
        seq![first, second]
    } else {
        seq![second, first]
    });
    r
}

/// The buffer that `resource` lies in, if it lies in one.
pub open spec fn buffer_of(resource: Resource) -> Option<u64> {
    match resource {
        Resource::Buffer { buffer, elt_size, offset, size } => Some(buffer),
        _ => None,
    }
}

/// In the bind group of frame `n` the region read is the one at place `n % 2` of the
/// pair and the region written the one at place `(n + 1) % 2`; where the two regions
/// lie in different buffers, no frame reads the buffer that it writes.
pub proof fn lemma_frame_reads_and_writes(
    first: Resource,
    second: Resource,
    rest: Seq<Resource>,
    n: int,
)
    requires
        0 <= n,
    ensures
        paired_resources(first, second, rest, n)[0] == seq![first, second][read_index(n)],
        paired_resources(first, second, rest, n)[1] == seq![first, second][write_index(n)],
        buffer_of(first) != buffer_of(second) ==> buffer_of(
            paired_resources(first, second, rest, n)[0],
        ) != buffer_of(paired_resources(first, second, rest, n)[1]),
{
}

} // verus!
