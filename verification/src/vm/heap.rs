//! A first-fit free-list allocator over one region of memory.
//!
//! The region is a range of offsets from 0 to the size of the heap. The
//! blocks of the free list divide it without gaps, in the order of their
//! offsets.

use vstd::prelude::*;

verus! {

/// The number of bytes to a multiple of which every request is rounded up.
pub const WORD: usize = 8;

/// One block of the heap: `size` bytes that begin at `offset`.
#[derive(Debug, Clone, Copy, PartialEq, Eq, Structural)]
pub struct Block {
    pub size: usize,
    pub free: bool,
    pub offset: usize,
}

/// Numbers that describe the state of a heap.
#[derive(Debug, Clone, Copy, PartialEq, Eq, Structural)]
pub struct HeapStats {
    pub total_size: usize,
    pub allocated: usize,
    pub free: usize,
    pub num_blocks: usize,
    pub num_allocated_blocks: usize,
    pub num_free_blocks: usize,
}

/// The heap: its size and its blocks.
#[derive(Debug)]
pub struct Heap {
    pub heap_size: usize,
    pub free_list: Vec<Block>,
}

/// `size` rounded up to a multiple of [`WORD`].
pub open spec fn aligned(size: int) -> int {
    ((size + 7) / 8) * 8
}

/// Whether the blocks divide the range from 0 to `heap_size` without gaps,
/// in order.
pub open spec fn contiguous(blocks: Seq<Block>, heap_size: int) -> bool {
    &&& blocks.len() > 0
    &&& blocks[0].offset == 0
    &&& forall|i: int|
        0 <= i < blocks.len() ==> blocks[i].offset + blocks[i].size == #[trigger] start_after(
            blocks,
            i,
            heap_size,
        )
}

/// Where the block behind block `i` begins, or the heap ends.
pub open spec fn start_after(blocks: Seq<Block>, i: int, heap_size: int) -> int {
    if i + 1 < blocks.len() {
        blocks[i + 1].offset as int
    } else {
        heap_size
    }
}

/// The index of the first block at or after `from` that is free and holds
/// `need` bytes.
pub open spec fn first_fit(blocks: Seq<Block>, need: int, from: int) -> Option<int>
    decreases blocks.len() - from,
{
    if from < 0 || from >= blocks.len() {
        None
    } else if blocks[from].free && blocks[from].size >= need {
        Some(from)
    } else {
        first_fit(blocks, need, from + 1)
    }
}

/// The index of the first block at or after `from` that is allocated and
/// begins at `offset`.
pub open spec fn first_allocated_at(blocks: Seq<Block>, offset: int, from: int) -> Option<int>
    decreases blocks.len() - from,
{
    if from < 0 || from >= blocks.len() {
        None
    } else if blocks[from].offset == offset && !blocks[from].free {
        Some(from)
    } else {
        first_allocated_at(blocks, offset, from + 1)
    }
}

/// The blocks after block `i` has been allocated for `need` bytes: what it
/// holds beyond them becomes a free block behind it.
pub open spec fn allocated_in(blocks: Seq<Block>, i: int, need: int) -> Seq<Block> {
    let block = blocks[i];
    if block.size > need {
        blocks.update(i, Block { size: need as usize, free: false, offset: block.offset }).insert(
            i + 1,
            Block {
                size: (block.size - need) as usize,
                free: true,
                offset: (block.offset + need) as usize,
            },
        )
    } else {
        blocks.update(i, Block { free: false, ..block })
    }
}

/// The blocks with block `i` and the block behind it made one.
pub open spec fn merged(blocks: Seq<Block>, i: int) -> Seq<Block> {
    blocks.update(
        i,
        Block { size: (blocks[i].size + blocks[i + 1].size) as usize, ..blocks[i] },
    ).remove(i + 1)
}

/// Whether block `i` ends where a free block begins behind it.
pub open spec fn joins_next(blocks: Seq<Block>, i: int) -> bool {
    0 <= i && i + 1 < blocks.len() && blocks[i].offset + blocks[i].size == blocks[i + 1].offset
        && blocks[i + 1].free
}

/// Whether a free block ends where block `i` begins.
pub open spec fn joins_previous(blocks: Seq<Block>, i: int) -> bool {
    0 < i < blocks.len() && blocks[i - 1].offset + blocks[i - 1].size == blocks[i].offset
        && blocks[i - 1].free
}

/// The blocks after block `i` has been joined with the free blocks next
/// to it: first with the one behind it, then with the one before it.
pub open spec fn coalesced(blocks: Seq<Block>, i: int) -> Seq<Block> {
    let forward = if joins_next(blocks, i) {
        merged(blocks, i)
    } else {
        blocks
    };
    if joins_previous(forward, i) {
        merged(forward, i - 1)
    } else {
        forward
    }
}

/// The blocks after block `i` has been freed.
pub open spec fn freed_in(blocks: Seq<Block>, i: int) -> Seq<Block> {
    coalesced(blocks.update(i, Block { free: true, ..blocks[i] }), i)
}

/// The bytes in the first `upto` blocks that are free, or that are not.
pub open spec fn bytes_in(blocks: Seq<Block>, free: bool, upto: int) -> int
    decreases upto,
{
    if upto <= 0 {
        0
    } else {
        bytes_in(blocks, free, upto - 1) + if blocks[upto - 1].free == free {
            blocks[upto - 1].size as int
        } else {
            0
        }
    }
}

/// The number of the first `upto` blocks that are free, or that are not.
pub open spec fn blocks_in(blocks: Seq<Block>, free: bool, upto: int) -> int
    decreases upto,
{
    if upto <= 0 {
        0
    } else {
        blocks_in(blocks, free, upto - 1) + if blocks[upto - 1].free == free {
            1int
        } else {
            0
        }
    }
}

/// In blocks without gaps, the free and the allocated bytes of the first
/// `upto` blocks together reach to where the next block begins.
pub proof fn lemma_bytes_partition(blocks: Seq<Block>, heap_size: int, upto: int)
    requires
        contiguous(blocks, heap_size),
        0 <= upto <= blocks.len(),
    ensures
        bytes_in(blocks, true, upto) >= 0,
        bytes_in(blocks, false, upto) >= 0,
        blocks_in(blocks, true, upto) >= 0,
        blocks_in(blocks, false, upto) >= 0,
        blocks_in(blocks, true, upto) + blocks_in(blocks, false, upto) == upto,
        bytes_in(blocks, true, upto) + bytes_in(blocks, false, upto) == if upto < blocks.len() {
            blocks[upto].offset as int
        } else {
            heap_size
        },
    decreases upto,
{
    if upto > 0 {
        lemma_bytes_partition(blocks, heap_size, upto - 1);
        assert(blocks[upto - 1].offset + blocks[upto - 1].size == start_after(
            blocks,
            upto - 1,
            heap_size,
        ));
    }
}

impl Heap {
    /// Whether the blocks divide the heap without gaps.
    pub open spec fn wf(&self) -> bool {
        contiguous(self.free_list@, self.heap_size as int)
    }

    /// A heap of `size` bytes in one free block.
    pub fn new(size: usize) -> (r: Self)
        ensures
            r.wf(),
            r.heap_size == size,
            r.free_list@ == seq![Block { size, free: true, offset: 0 }],
    {
        let mut free_list: Vec<Block> = Vec::new();
        free_list.push(Block { size, free: true, offset: 0 });
        Heap { heap_size: size, free_list }
    }

    /// Allocates `size` bytes, rounded up to a multiple of [`WORD`], in the
    /// first free block that holds them, and returns the offset at which
    /// they begin. Nothing changes where no block holds them.
    pub fn zmalloc(&mut self, size: usize) -> (r: Option<usize>)
        requires
            old(self).wf(),
        ensures
            final(self).wf(),
            final(self).heap_size == old(self).heap_size,
            match first_fit(old(self).free_list@, aligned(size as int), 0) {
                Some(i) => r == Some(old(self).free_list@[i].offset) && final(self).free_list@
                    == allocated_in(old(self).free_list@, i, aligned(size as int)),
                None => r is None && final(self).free_list@ == old(self).free_list@,
            },
    {
        if size > usize::MAX - (WORD - 1) {
            proof {
                lemma_no_fit(self.free_list@, self.heap_size as int, aligned(size as int), 0);
            }
            return None;
        }
        let aligned_size: usize = ((size + (WORD - 1)) / WORD) * WORD;
        let mut i: usize = 0;
        while i < self.free_list.len()
            invariant
                self.free_list@ == old(self).free_list@,
                self.heap_size == old(self).heap_size,
                self.wf(),
                i <= self.free_list.len(),
                aligned_size == aligned(size as int),
                first_fit(self.free_list@, aligned_size as int, 0) == first_fit(
                    self.free_list@,
                    aligned_size as int,
                    i as int,
                ),
            decreases self.free_list.len() - i,
        {
            let block = self.free_list[i];
            if block.free && block.size >= aligned_size {
                if block.size > aligned_size {
                    self.split_blocks(i, block.size, aligned_size);
                } else {
                    self.free_list[i].free = false;
                    assert(self.free_list@ =~= old(self).free_list@.update(
                        i as int,
                        Block { free: false, ..block },
                    ));
                    proof {
                        lemma_same_extents(
                            old(self).free_list@,
                            self.free_list@,
                            self.heap_size as int,
                        );
                    }
                }
                return Some(block.offset);
            }
            i += 1;
        }
        None
    }

    /// Cuts block `i` of `block_size` bytes down to an allocated block of
    /// `aligned_size` bytes and makes a free block of the rest.
    fn split_blocks(&mut self, i: usize, block_size: usize, aligned_size: usize)
        requires
            old(self).wf(),
            i < old(self).free_list.len(),
            block_size == old(self).free_list[i as int].size,
            aligned_size < block_size,
        ensures
            final(self).wf(),
            final(self).heap_size == old(self).heap_size,
            final(self).free_list@ == allocated_in(
                old(self).free_list@,
                i as int,
                aligned_size as int,
            ),
    {
        let remaining_size = block_size - aligned_size;
        let offset = self.free_list[i].offset;
        assert(old(self).free_list@[i as int].offset + old(self).free_list@[i as int].size
            <= usize::MAX) by {
            lemma_block_end(old(self).free_list@, old(self).heap_size as int, i as int);
        }
        self.free_list[i].size = aligned_size;
        self.free_list[i].free = false;
        let new_block = Block { size: remaining_size, free: true, offset: offset + aligned_size };
        self.free_list.insert(i + 1, new_block);
        proof {
            let before = old(self).free_list@;
            let after = self.free_list@;
            let size = self.heap_size as int;
            assert(after =~= allocated_in(before, i as int, aligned_size as int));
            assert forall|k: int| 0 <= k < after.len() implies after[k].offset + after[k].size
                == #[trigger] start_after(after, k, size) by {
                if k < i {
                    assert(before[k].offset + before[k].size == start_after(before, k, size));
                } else if k > i + 1 {
                    assert(before[k - 1].offset + before[k - 1].size == start_after(
                        before,
                        k - 1,
                        size,
                    ));
                } else if k == i + 1 {
                    assert(before[i as int].offset + before[i as int].size == start_after(
                        before,
                        i as int,
                        size,
                    ));
                }
            }
        }
    }

    /// Frees the first allocated block that begins at `offset` and joins it
    /// with the free blocks next to it. Nothing changes where no allocated
    /// block begins there. The result is always `Ok`.
    pub fn zfree(&mut self, offset: usize) -> (r: Result<(), &'static str>)
        requires
            old(self).wf(),
        ensures
            r is Ok,
            final(self).wf(),
            final(self).heap_size == old(self).heap_size,
            final(self).free_list@ == match first_allocated_at(
                old(self).free_list@,
                offset as int,
                0,
            ) {
                Some(i) => freed_in(old(self).free_list@, i),
                None => old(self).free_list@,
            },
    {
        let mut i: usize = 0;
        while i < self.free_list.len()
            invariant
                self.free_list@ == old(self).free_list@,
                self.heap_size == old(self).heap_size,
                self.wf(),
                i <= self.free_list.len(),
                first_allocated_at(self.free_list@, offset as int, 0) == first_allocated_at(
                    self.free_list@,
                    offset as int,
                    i as int,
                ),
            decreases self.free_list.len() - i,
        {
            if self.free_list[i].offset == offset && !self.free_list[i].free {
                self.free_list[i].free = true;
                assert(self.free_list@ =~= old(self).free_list@.update(
                    i as int,
                    Block { free: true, ..old(self).free_list@[i as int] },
                ));
                proof {
                    lemma_same_extents(
                        old(self).free_list@,
                        self.free_list@,
                        self.heap_size as int,
                    );
                }
                self.coalesce(i);
                return Ok(());
            }
            i += 1;
        }
        Ok(())
    }

    /// Joins block `index` with the free blocks next to it.
    fn coalesce(&mut self, index: usize)
        requires
            old(self).wf(),
            index < old(self).free_list.len(),
        ensures
            final(self).wf(),
            final(self).heap_size == old(self).heap_size,
            final(self).free_list@ == coalesced(old(self).free_list@, index as int),
    {
        if index + 1 < self.num_blocks() {
            let current_end = self.block_end(index);
            let next = self.free_list[index + 1];
            if current_end == next.offset && next.free {
                self.merge_with_next(index);
            }
        }
        if index > 0 {
            let previous_end = self.block_end(index - 1);
            let current = self.free_list[index];
            if previous_end == current.offset && self.free_list[index - 1].free {
                self.merge_with_next(index - 1);
            }
        }
    }

    /// The offset at which block `i` ends.
    fn block_end(&self, i: usize) -> (r: usize)
        requires
            self.wf(),
            i < self.free_list.len(),
        ensures
            r == self.free_list[i as int].offset + self.free_list[i as int].size,
    {
        proof {
            lemma_block_end(self.free_list@, self.heap_size as int, i as int);
        }
        self.free_list[i].offset + self.free_list[i].size
    }

    /// Makes one block of block `i` and the block behind it.
    fn merge_with_next(&mut self, i: usize)
        requires
            old(self).wf(),
            i + 1 < old(self).free_list.len(),
        ensures
            final(self).wf(),
            final(self).heap_size == old(self).heap_size,
            final(self).free_list@ == merged(old(self).free_list@, i as int),
    {
        proof {
            lemma_block_end(self.free_list@, self.heap_size as int, i + 1);
            assert(self.free_list@[i as int].offset + self.free_list@[i as int].size
                == start_after(self.free_list@, i as int, self.heap_size as int));
        }
        let next_size = self.free_list[i + 1].size;
        self.free_list[i].size = self.free_list[i].size + next_size;
        let _ = self.free_list.remove(i + 1);
        proof {
            let before = old(self).free_list@;
            let after = self.free_list@;
            let size = self.heap_size as int;
            assert(after =~= merged(before, i as int));
            assert forall|k: int| 0 <= k < after.len() implies after[k].offset + after[k].size
                == #[trigger] start_after(after, k, size) by {
                if k < i {
                    assert(before[k].offset + before[k].size == start_after(before, k, size));
                } else if k > i {
                    assert(before[k + 1].offset + before[k + 1].size == start_after(
                        before,
                        k + 1,
                        size,
                    ));
                } else {
                    assert(before[i + 1].offset + before[i + 1].size == start_after(
                        before,
                        i + 1,
                        size,
                    ));
                    assert(before[i as int].offset + before[i as int].size == start_after(
                        before,
                        i as int,
                        size,
                    ));
                }
            }
        }
    }

    /// The size of the heap, the bytes and the blocks that are allocated
    /// and that are free.
    pub fn stats(&self) -> (r: HeapStats)
        requires
            self.wf(),
        ensures
            r.total_size == self.heap_size,
            r.allocated == bytes_in(self.free_list@, false, self.free_list@.len() as int),
            r.free == bytes_in(self.free_list@, true, self.free_list@.len() as int),
            r.num_blocks == self.free_list@.len(),
            r.num_allocated_blocks == blocks_in(
                self.free_list@,
                false,
                self.free_list@.len() as int,
            ),
            r.num_free_blocks == blocks_in(self.free_list@, true, self.free_list@.len() as int),
            r.allocated + r.free == r.total_size,
            r.num_allocated_blocks + r.num_free_blocks == r.num_blocks,
    {
        proof {
            lemma_bytes_partition(
                self.free_list@,
                self.heap_size as int,
                self.free_list@.len() as int,
            );
        }
        HeapStats {
            total_size: self.total_size(),
            allocated: self.allocated_size(),
            free: self.free_size(),
            num_blocks: self.num_blocks(),
            num_allocated_blocks: self.num_allocated_blocks(),
            num_free_blocks: self.num_free_blocks(),
        }
    }

    /// The size of the heap.
    fn total_size(&self) -> (r: usize)
        ensures
            r == self.heap_size,
    {
        self.heap_size
    }

    /// The bytes in blocks that are free, or that are not.
    fn size_of_blocks(&self, free: bool) -> (r: usize)
        requires
            self.wf(),
        ensures
            r == bytes_in(self.free_list@, free, self.free_list@.len() as int),
    {
        let mut total: usize = 0;
        let mut i: usize = 0;
        while i < self.free_list.len()
            invariant
                self.wf(),
                i <= self.free_list.len(),
                total == bytes_in(self.free_list@, free, i as int),
            decreases self.free_list.len() - i,
        {
            proof {
                lemma_bytes_partition(self.free_list@, self.heap_size as int, i + 1);
            }
            if self.free_list[i].free == free {
                total = total + self.free_list[i].size;
            }
            i += 1;
        }
        total
    }

    /// The number of blocks that are free, or that are not.
    fn count_blocks(&self, free: bool) -> (r: usize)
        requires
            self.wf(),
        ensures
            r == blocks_in(self.free_list@, free, self.free_list@.len() as int),
    {
        let mut count: usize = 0;
        let mut i: usize = 0;
        while i < self.free_list.len()
            invariant
                self.wf(),
                i <= self.free_list.len(),
                count == blocks_in(self.free_list@, free, i as int),
                count <= i,
            decreases self.free_list.len() - i,
        {
            if self.free_list[i].free == free {
                count = count + 1;
            }
            i += 1;
        }
        count
    }

    /// The bytes that are allocated.
    fn allocated_size(&self) -> (r: usize)
        requires
            self.wf(),
        ensures
            r == bytes_in(self.free_list@, false, self.free_list@.len() as int),
    {
        self.size_of_blocks(false)
    }

    /// The bytes that are free.
    fn free_size(&self) -> (r: usize)
        requires
            self.wf(),
        ensures
            r == bytes_in(self.free_list@, true, self.free_list@.len() as int),
    {
        self.size_of_blocks(true)
    }

    /// The number of blocks.
    fn num_blocks(&self) -> (r: usize)
        ensures
            r == self.free_list@.len(),
    {
        self.free_list.len()
    }

    /// The number of blocks that are allocated.
    fn num_allocated_blocks(&self) -> (r: usize)
        requires
            self.wf(),
        ensures
            r == blocks_in(self.free_list@, false, self.free_list@.len() as int),
    {
        self.count_blocks(false)
    }

    /// The number of blocks that are free.
    fn num_free_blocks(&self) -> (r: usize)
        requires
            self.wf(),
        ensures
            r == blocks_in(self.free_list@, true, self.free_list@.len() as int),
    {
        self.count_blocks(true)
    }
}

/// Blocks that differ from blocks without gaps only in which of them are
/// free have no gaps either.
proof fn lemma_same_extents(before: Seq<Block>, after: Seq<Block>, heap_size: int)
    requires
        contiguous(before, heap_size),
        after.len() == before.len(),
        forall|k: int|
            0 <= k < before.len() ==> (#[trigger] after[k]).offset == before[k].offset
                && after[k].size == before[k].size,
    ensures
        contiguous(after, heap_size),
{
    assert forall|k: int| 0 <= k < after.len() implies after[k].offset + after[k].size
        == #[trigger] start_after(after, k, heap_size) by {
        assert(before[k].offset + before[k].size == start_after(before, k, heap_size));
        assert(after[k].offset == before[k].offset);
        if k + 1 < after.len() {
            assert(after[k + 1].offset == before[k + 1].offset);
        }
    }
}

/// In blocks without gaps every block ends inside the heap.
pub proof fn lemma_block_end(blocks: Seq<Block>, heap_size: int, i: int)
    requires
        contiguous(blocks, heap_size),
        0 <= i < blocks.len(),
        heap_size <= usize::MAX,
    ensures
        blocks[i].offset + blocks[i].size <= heap_size,
    decreases blocks.len() - i,
{
    assert(blocks[i].offset + blocks[i].size == start_after(blocks, i, heap_size));
    if i + 1 < blocks.len() {
        lemma_block_end(blocks, heap_size, i + 1);
    }
}

/// No block of a heap holds more bytes than a `usize` counts.
proof fn lemma_no_fit(blocks: Seq<Block>, heap_size: int, need: int, from: int)
    requires
        contiguous(blocks, heap_size),
        heap_size <= usize::MAX,
        need > usize::MAX,
        0 <= from,
    ensures
        first_fit(blocks, need, from) is None,
    decreases blocks.len() - from,
{
    if from < blocks.len() {
        lemma_no_fit(blocks, heap_size, need, from + 1);
    }
}

} // verus!
