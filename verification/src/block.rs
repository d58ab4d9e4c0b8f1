//! Memory blocks: sub-ranges of device memory and the requirements they must
//! satisfy.

use vstd::prelude::*;

verus! {

/// A non-empty byte range `[start, end)` within one memory object.
#[derive(Debug, Clone, Copy, PartialEq, Eq, Structural)]
pub struct MemRange {
    pub start: u64,
    pub end: u64,
}

impl MemRange {
    /// A range is well formed when it is non-empty.
    pub open spec fn wf(self) -> bool {
        self.start < self.end
    }

    /// Number of bytes the range covers.
    pub open spec fn byte_len(self) -> int {
        self.end - self.start
    }
}

/// Constraints the device reports for a raw resource: any memory bound to the
/// resource must come from a block satisfying them.
#[derive(Debug, Clone, Copy, PartialEq, Eq, Structural)]
pub struct MemoryRequirements {
    /// Least number of bytes the block must cover.
    pub size: u64,
    /// The block's start must be a multiple of this; at least 1.
    pub alignment: u64,
    /// Bit mask of the memory types the resource can live in; the allocator
    /// chooses among them.
    pub type_mask: u32,
}

impl MemoryRequirements {
    /// Requirements make sense only with a positive alignment.
    pub open spec fn wf(self) -> bool {
        self.alignment >= 1
    }

    /// Whether a block covering `range` is large enough and aligned as these
    /// requirements demand. Memory-type compatibility is outside this check:
    /// choosing a memory object within `type_mask` is the allocator's own
    /// affair, and a block does not carry its memory type.
    pub open spec fn satisfied_by(self, range: MemRange) -> bool {
        &&& range.byte_len() >= self.size
        &&& range.start % self.alignment == 0
    }
}

/// Ownership of a contiguous byte range within a larger memory allocation.
///
/// A block identifies its owning memory object and a non-empty `[start, end)`
/// range within it. Allocators produce blocks; the factory binds a block's
/// memory to a resource at the block's range start.
pub trait Block {
    /// Identity of the memory object the block's bytes belong to.
    open spec fn memory_id(&self) -> u64 {
        arbitrary()
    }

    /// The byte range the block owns within that memory object.
    open spec fn span(&self) -> MemRange {
        arbitrary()
    }

    /// Identity of the owning memory object.
    fn memory(&self) -> (m: u64)
        ensures
            m == self.memory_id(),
    ;

    /// The owned byte range.
    fn range(&self) -> (r: MemRange)
        ensures
            r == self.span(),
    ;
}

/// The plainest block: a memory object identity and a byte range, held
/// directly.
#[derive(Debug, Clone, Copy, PartialEq, Eq, Structural)]
pub struct MemBlock {
    pub memory: u64,
    pub range: MemRange,
}

impl Block for MemBlock {
    open spec fn memory_id(&self) -> u64 {
        self.memory
    }

    open spec fn span(&self) -> MemRange {
        self.range
    }

    fn memory(&self) -> (m: u64) {
        self.memory
    }

    fn range(&self) -> (r: MemRange) {
        self.range
    }
}

} // verus!
