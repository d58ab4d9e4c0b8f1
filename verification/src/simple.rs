//! The simplest conforming collaborators: a device that mints numbered
//! handles and an allocator that places every block at the start of a fresh
//! memory object. Both are verified against the collaborator contracts, so
//! the factory operations provably compose with at least one checked
//! implementation; they also serve as stand-ins where no real hardware is
//! wanted.

use vstd::prelude::*;

use crate::allocator::AllocEvent;
use crate::allocator::MemoryAllocator;
use crate::allocator::MemoryError;
use crate::block::Block;
use crate::block::MemBlock;
use crate::block::MemRange;
use crate::block::MemoryRequirements;
use crate::device::BindError;
use crate::device::BufferCreationError;
use crate::device::Device;
use crate::device::DeviceEvent;
use crate::device::ImageCreationError;

verus! {

/// A device that performs no hardware work: it numbers the handles it hands
/// out and accepts every request until its counter is exhausted. All its
/// resources report the same fixed requirements: one byte, byte-aligned,
/// every memory type acceptable.
pub struct SimpleDevice {
    next_id: u64,
    history: Ghost<Seq<DeviceEvent>>,
}

impl SimpleDevice {
    /// The calls this device has observed, oldest first.
    pub closed spec fn observed(self) -> Seq<DeviceEvent> {
        self.history@
    }

    /// How many handles the device has minted so far; the next handle gets
    /// this number, and at `u64::MAX` the counter is exhausted.
    pub closed spec fn minted(self) -> u64 {
        self.next_id
    }

    /// A fresh device that has observed nothing.
    pub fn new() -> (d: SimpleDevice)
        ensures
            d.log() == Seq::<DeviceEvent>::empty(),
    {
        SimpleDevice { next_id: 0, history: Ghost(Seq::empty()) }
    }
}

impl Device for SimpleDevice {
    type RawBuffer = u64;

    type RawImage = u64;

    type BufferUsage = u32;

    type ImageKind = u32;

    type Level = u8;

    type Format = u32;

    type Tiling = u32;

    type ImageUsage = u32;

    type ViewCapabilities = u32;

    open spec fn log(&self) -> Seq<DeviceEvent> {
        self.observed()
    }

    open spec fn buffer_id(b: &u64) -> u64 {
        *b
    }

    open spec fn image_id(i: &u64) -> u64 {
        *i
    }

    open spec fn buffer_requirements(id: u64) -> MemoryRequirements {
        MemoryRequirements { size: 1, alignment: 1, type_mask: 0xffff_ffff }
    }

    open spec fn image_requirements(id: u64) -> MemoryRequirements {
        MemoryRequirements { size: 1, alignment: 1, type_mask: 0xffff_ffff }
    }

    fn create_buffer(&mut self, size: u64, usage: u32) -> (r: Result<u64, BufferCreationError>)
        ensures
            old(self).minted() < u64::MAX ==> r == Ok::<u64, BufferCreationError>(
                old(self).minted(),
            ) && final(self).minted() == old(self).minted() + 1,
            old(self).minted() == u64::MAX ==> r == Err::<u64, BufferCreationError>(
                BufferCreationError::OutOfMemory,
            ) && final(self).minted() == old(self).minted(),
    {
        if self.next_id == u64::MAX {
            self.history = Ghost(
                self.history@.push(
                    DeviceEvent::CreateBufferFailed {
                        size,
                        error: BufferCreationError::OutOfMemory,
                    },
                ),
            );
            return Err(BufferCreationError::OutOfMemory);
        }
        let id = self.next_id;
        self.next_id = self.next_id + 1;
        self.history = Ghost(self.history@.push(DeviceEvent::CreateBuffer { id, size }));
        Ok(id)
    }

    fn create_image(
        &mut self,
        kind: u32,
        level: u8,
        format: u32,
        tiling: u32,
        usage: u32,
        view_caps: u32,
    ) -> (r: Result<u64, ImageCreationError>)
        ensures
            old(self).minted() < u64::MAX ==> r == Ok::<u64, ImageCreationError>(
                old(self).minted(),
            ) && final(self).minted() == old(self).minted() + 1,
            old(self).minted() == u64::MAX ==> r == Err::<u64, ImageCreationError>(
                ImageCreationError::OutOfMemory,
            ) && final(self).minted() == old(self).minted(),
    {
        if self.next_id == u64::MAX {
            self.history = Ghost(
                self.history@.push(
                    DeviceEvent::CreateImageFailed { error: ImageCreationError::OutOfMemory },
                ),
            );
            return Err(ImageCreationError::OutOfMemory);
        }
        let id = self.next_id;
        self.next_id = self.next_id + 1;
        self.history = Ghost(self.history@.push(DeviceEvent::CreateImage { id }));
        Ok(id)
    }

    fn get_buffer_requirements(&self, buffer: &u64) -> (r: MemoryRequirements) {
        MemoryRequirements { size: 1, alignment: 1, type_mask: 0xffff_ffff }
    }

    fn get_image_requirements(&self, image: &u64) -> (r: MemoryRequirements) {
        MemoryRequirements { size: 1, alignment: 1, type_mask: 0xffff_ffff }
    }

    fn bind_buffer_memory(&mut self, memory: u64, offset: u64, buffer: u64) -> (r: Result<
        u64,
        BindError,
    >)
        ensures
            r == Ok::<u64, BindError>(buffer),
            final(self).minted() == old(self).minted(),
    {
        self.history = Ghost(
            self.history@.push(DeviceEvent::BindBuffer { id: buffer, memory, offset }),
        );
        Ok(buffer)
    }

    fn bind_image_memory(&mut self, memory: u64, offset: u64, image: u64) -> (r: Result<
        u64,
        BindError,
    >)
        ensures
            r == Ok::<u64, BindError>(image),
            final(self).minted() == old(self).minted(),
    {
        self.history = Ghost(
            self.history@.push(DeviceEvent::BindImage { id: image, memory, offset }),
        );
        Ok(image)
    }

    fn destroy_buffer(&mut self, buffer: u64) {
        self.history = Ghost(self.history@.push(DeviceEvent::DestroyBuffer { id: buffer }));
    }

    fn destroy_image(&mut self, image: u64) {
        self.history = Ghost(self.history@.push(DeviceEvent::DestroyImage { id: image }));
    }
}

/// An allocator that never recycles: every request is served from the start
/// of a fresh memory object, sized to the request, until its counter of
/// memory objects is exhausted. The placement hint carries no information it
/// could weigh, so it ignores it.
pub struct SimpleAllocator {
    next_memory: u64,
    history: Ghost<Seq<AllocEvent>>,
}

impl SimpleAllocator {
    /// The calls this allocator has observed, oldest first.
    pub closed spec fn observed(self) -> Seq<AllocEvent> {
        self.history@
    }

    /// How many memory objects the allocator has handed out so far; the next
    /// block lives in a memory object with this number, and at `u64::MAX`
    /// the counter is exhausted.
    pub closed spec fn minted(self) -> u64 {
        self.next_memory
    }

    /// A fresh allocator that has observed nothing.
    pub fn new() -> (a: SimpleAllocator)
        ensures
            a.observed() == Seq::<AllocEvent>::empty(),
    {
        SimpleAllocator { next_memory: 0, history: Ghost(Seq::empty()) }
    }
}

impl<D: Device> MemoryAllocator<D> for SimpleAllocator {
    type Request = ();

    type Block = MemBlock;

    open spec fn log(&self) -> Seq<AllocEvent> {
        self.observed()
    }

    fn allocate(&mut self, device: &D, request: (), reqs: MemoryRequirements) -> (r: Result<
        MemBlock,
        MemoryError,
    >)
        ensures
            old(self).minted() < u64::MAX ==> r == Ok::<MemBlock, MemoryError>(
                MemBlock {
                    memory: old(self).minted(),
                    range: MemRange {
                        start: 0,
                        end: if reqs.size == 0 {
                            1u64
                        } else {
                            reqs.size
                        },
                    },
                },
            ) && final(self).minted() == old(self).minted() + 1,
            old(self).minted() == u64::MAX ==> r == Err::<MemBlock, MemoryError>(
                MemoryError::OutOfMemory,
            ) && final(self).minted() == old(self).minted(),
    {
        if self.next_memory == u64::MAX {
            self.history = Ghost(
                self.history@.push(
                    AllocEvent::AllocFailed {
                        reqs,
                        error: MemoryError::OutOfMemory,
                        at: device.log().len() as int,
                    },
                ),
            );
            return Err(MemoryError::OutOfMemory);
        }
        let memory = self.next_memory;
        self.next_memory = self.next_memory + 1;
        let end = if reqs.size == 0 {
            1u64
        } else {
            reqs.size
        };
        let block = MemBlock { memory, range: MemRange { start: 0, end } };
        self.history = Ghost(
            self.history@.push(
                AllocEvent::AllocOk {
                    reqs,
                    memory,
                    start: 0,
                    end,
                    at: device.log().len() as int,
                },
            ),
        );
        Ok(block)
    }

    fn free(&mut self, device: &D, block: MemBlock)
        ensures
            final(self).minted() == old(self).minted(),
    {
        self.history = Ghost(
            self.history@.push(
                AllocEvent::Free {
                    memory: block.memory,
                    start: block.range.start,
                    end: block.range.end,
                    at: device.log().len() as int,
                },
            ),
        );
    }
}

} // verus!
