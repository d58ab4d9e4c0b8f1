//! The allocator collaborator: a pluggable strategy producing and recycling
//! memory blocks that satisfy given requirements.

use vstd::prelude::*;

use crate::block::Block;
use crate::block::MemoryRequirements;
use crate::device::Device;

verus! {

/// The allocator could not satisfy an allocation request.
#[derive(Debug, Clone, Copy, PartialEq, Eq, Structural)]
pub enum MemoryError {
    /// No memory heap had room for a satisfying block.
    OutOfMemory,
    /// No memory type in the requirements' mask is available.
    NoCompatibleMemoryType,
}

/// One call the allocator observed, as ghost data. Allocation events record
/// the requirements they were asked to satisfy, failed ones the error the
/// allocator reported. Each event carries the device clock at the moment of
/// the call — the length of the device's own log — so the interleaving of
/// device and allocator calls stays visible.
pub enum AllocEvent {
    /// An allocation for the given requirements succeeded, producing a block
    /// covering `[start, end)` of memory object `memory`.
    AllocOk { reqs: MemoryRequirements, memory: u64, start: u64, end: u64, at: int },
    /// An allocation for the given requirements was attempted and failed.
    AllocFailed { reqs: MemoryRequirements, error: MemoryError, at: int },
    /// A block covering `[start, end)` of memory object `memory` was
    /// returned to the allocator.
    Free { memory: u64, start: u64, end: u64, at: int },
}

/// A memory allocation strategy for a device `D`.
///
/// `allocate` weighs both an opaque caller-supplied placement hint (the
/// [`MemoryAllocator::Request`]) and the device-mandated requirements before
/// choosing a block; any block it hands out is well formed and satisfies the
/// requirements it was asked for. `free` returns a block for recycling.
///
/// Every call is appended to the ghost [`MemoryAllocator::log`], stamped with
/// the device clock (the device log's length) at the moment of the call.
pub trait MemoryAllocator<D: Device>: Sized {
    /// Allocator-specific placement hint, opaque to the factory and passed
    /// through unmodified.
    type Request;

    /// The block type this allocator hands out.
    type Block: Block;

    /// The calls this allocator has observed, oldest first.
    open spec fn log(&self) -> Seq<AllocEvent> {
        arbitrary()
    }

    /// Allocate a block satisfying `reqs`, weighing the placement hint in
    /// `request`.
    fn allocate(&mut self, device: &D, request: Self::Request, reqs: MemoryRequirements) -> (r:
        Result<Self::Block, MemoryError>)
        requires
            reqs.wf(),
        ensures
            match r {
                Ok(b) => {
                    &&& b.span().wf()
                    &&& reqs.satisfied_by(b.span())
                    &&& final(self).log() == old(self).log().push(
                        AllocEvent::AllocOk {
                            reqs,
                            memory: b.memory_id(),
                            start: b.span().start,
                            end: b.span().end,
                            at: device.log().len() as int,
                        },
                    )
                },
                Err(e) => final(self).log() == old(self).log().push(
                    AllocEvent::AllocFailed { reqs, error: e, at: device.log().len() as int },
                ),
            },
    ;

    /// Return a block to the allocator for recycling. The caller must no
    /// longer use any resource bound to the block's memory.
    fn free(&mut self, device: &D, block: Self::Block)
        ensures
            final(self).log() == old(self).log().push(
                AllocEvent::Free {
                    memory: block.memory_id(),
                    start: block.span().start,
                    end: block.span().end,
                    at: device.log().len() as int,
                },
            ),
    ;
}

} // verus!
