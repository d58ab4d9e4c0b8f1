//! The factory operations: derive create/destroy of bound buffers and images
//! from any [`Device`] and any [`MemoryAllocator`] for it.
//!
//! Creation asks the device for an unbound raw resource, queries its memory
//! requirements, asks the allocator for a satisfying block, binds the block's
//! memory at the block's range start, and pairs resource and block into one
//! [`Item`]. Teardown destroys the device resource first and only then
//! releases its block, so the allocator can never hand the memory to a new
//! request while the old resource is still alive on the device.

use vstd::prelude::*;

use crate::allocator::AllocEvent;
use crate::allocator::MemoryAllocator;
use crate::allocator::MemoryError;
use crate::block::Block;
use crate::block::MemRange;
use crate::block::MemoryRequirements;
use crate::device::BindError;
use crate::device::BufferCreationError;
use crate::device::Device;
use crate::device::DeviceEvent;
use crate::device::ImageCreationError;

verus! {

/// A raw resource paired with the memory block backing it.
///
/// The pairing is immutable once constructed and owns both halves: neither
/// the raw resource nor the block can be taken out or dropped independently.
/// Only a successful create operation constructs an `Item`, and only the
/// matching destroy operation consumes it — so a resource can never outlive
/// ownership of its backing memory, and a second destroy of the same handle
/// cannot even be written.
#[derive(Debug)]
pub struct Item<I, T> {
    raw: I,
    block: T,
}

impl<I, T> Item<I, T> {
    /// The raw resource half of the pairing.
    pub closed spec fn raw_spec(self) -> I {
        self.raw
    }

    /// The memory block half of the pairing.
    pub closed spec fn block_spec(self) -> T {
        self.block
    }

    /// Read access to the raw resource.
    pub fn raw(&self) -> (r: &I)
        ensures
            *r == self.raw_spec(),
    {
        &self.raw
    }

    /// Mutable access to the raw resource. The block stays untouched: only
    /// the raw half may be worked on in place.
    pub fn raw_mut(&mut self) -> (r: &mut I)
        ensures
            *r == old(self).raw_spec(),
            final(self).raw_spec() == *final(r),
            final(self).block_spec() == old(self).block_spec(),
    {
        &mut self.raw
    }

    /// Read access to the memory block.
    pub fn block(&self) -> (r: &T)
        ensures
            *r == self.block_spec(),
    {
        &self.block
    }
}

/// An `Item` answers the same memory-identity and range queries as the block
/// backing it, so callers can treat bound resources and plain blocks
/// uniformly wherever block-like inputs are expected.
impl<I, T: Block> Block for Item<I, T> {
    open spec fn memory_id(&self) -> u64 {
        self.block_spec().memory_id()
    }

    open spec fn span(&self) -> MemRange {
        self.block_spec().span()
    }

    fn memory(&self) -> (m: u64) {
        self.block.memory()
    }

    fn range(&self) -> (r: MemRange) {
        self.block.range()
    }
}

/// The failures a factory operation can surface, one tag per source, each a
/// transparent wrap of the collaborator's own error.
///
/// A binding failure after a successful allocation is reported as the
/// recoverable [`FactoryError::BindFailure`] rather than treated as fatal;
/// the factory releases the block before surfacing it.
#[derive(Debug, Clone, Copy, PartialEq, Eq, Structural)]
pub enum FactoryError {
    /// The allocator could not supply a satisfying block.
    MemoryError(MemoryError),
    /// The device rejected the requested buffer descriptors.
    BufferCreationError(BufferCreationError),
    /// The device rejected the requested image descriptors.
    ImageCreationError(ImageCreationError),
    /// The device refused to bind the allocated block's memory.
    BindFailure(BindError),
}

impl From<MemoryError> for FactoryError {
    fn from(error: MemoryError) -> (r: FactoryError) {
        FactoryError::MemoryError(error)
    }
}

impl vstd::std_specs::convert::FromSpecImpl<MemoryError> for FactoryError {
    open spec fn obeys_from_spec() -> bool {
        true
    }

    open spec fn from_spec(error: MemoryError) -> FactoryError {
        FactoryError::MemoryError(error)
    }
}

impl From<BufferCreationError> for FactoryError {
    fn from(error: BufferCreationError) -> (r: FactoryError) {
        FactoryError::BufferCreationError(error)
    }
}

impl vstd::std_specs::convert::FromSpecImpl<BufferCreationError> for FactoryError {
    open spec fn obeys_from_spec() -> bool {
        true
    }

    open spec fn from_spec(error: BufferCreationError) -> FactoryError {
        FactoryError::BufferCreationError(error)
    }
}

impl From<ImageCreationError> for FactoryError {
    fn from(error: ImageCreationError) -> (r: FactoryError) {
        FactoryError::ImageCreationError(error)
    }
}

impl vstd::std_specs::convert::FromSpecImpl<ImageCreationError> for FactoryError {
    open spec fn obeys_from_spec() -> bool {
        true
    }

    open spec fn from_spec(error: ImageCreationError) -> FactoryError {
        FactoryError::ImageCreationError(error)
    }
}

/// Create a buffer of the given size and usage on `device`, backed by memory
/// from `allocator`.
///
/// On success the returned pairing holds a bound buffer and exactly the block
/// the allocator produced for the device-reported requirements, bound at the
/// block's range start. On failure no pairing is constructed and the error
/// tags the stage that failed: if the device rejected the buffer, the
/// allocator was never consulted; if the allocator failed, the raw buffer was
/// destroyed again before the error surfaced; if the bind failed, the block
/// was released back to the allocator. Every path consults the device, so the
/// device log records the attempt even when it fails.
pub fn create_buffer<D: Device, A: MemoryAllocator<D>>(
    allocator: &mut A,
    device: &mut D,
    request: A::Request,
    size: u64,
    usage: D::BufferUsage,
) -> (r: Result<Item<D::RawBuffer, A::Block>, FactoryError>)
    ensures
        match r {
            Ok(item) => {
                let id = D::buffer_id(&item.raw_spec());
                let b = item.block_spec();
                &&& b.span().wf()
                &&& D::buffer_requirements(id).satisfied_by(b.span())
                &&& final(device).log() == old(device).log().push(
                    DeviceEvent::CreateBuffer { id, size },
                ).push(
                    DeviceEvent::BindBuffer {
                        id,
                        memory: b.memory_id(),
                        offset: b.span().start,
                    },
                )
                &&& final(allocator).log() == old(allocator).log().push(
                    AllocEvent::AllocOk {
                        reqs: D::buffer_requirements(id),
                        memory: b.memory_id(),
                        start: b.span().start,
                        end: b.span().end,
                        at: old(device).log().len() + 1int,
                    },
                )
            },
            Err(FactoryError::BufferCreationError(e)) => {
                &&& final(device).log() == old(device).log().push(
                    DeviceEvent::CreateBufferFailed { size, error: e },
                )
                &&& final(allocator).log() == old(allocator).log()
            },
            Err(FactoryError::MemoryError(e)) => {
                exists|id: u64|
                    {
                        &&& final(device).log() == #[trigger] old(device).log().push(
                            DeviceEvent::CreateBuffer { id, size },
                        ).push(DeviceEvent::DestroyBuffer { id })
                        &&& final(allocator).log() == old(allocator).log().push(
                            AllocEvent::AllocFailed {
                                reqs: D::buffer_requirements(id),
                                error: e,
                                at: old(device).log().len() + 1int,
                            },
                        )
                    }
            },
            Err(FactoryError::BindFailure(e)) => {
                exists|id: u64, memory: u64, start: u64, end: u64|
                    {
                        &&& final(device).log() == #[trigger] old(device).log().push(
                            DeviceEvent::CreateBuffer { id, size },
                        ).push(
                            DeviceEvent::BindBufferFailed { id, memory, offset: start, error: e },
                        )
                        &&& final(allocator).log() == #[trigger] old(allocator).log().push(
                            AllocEvent::AllocOk {
                                reqs: D::buffer_requirements(id),
                                memory,
                                start,
                                end,
                                at: old(device).log().len() + 1int,
                            },
                        ).push(
                            AllocEvent::Free {
                                memory,
                                start,
                                end,
                                at: old(device).log().len() + 2int,
                            },
                        )
                    }
            },
            Err(FactoryError::ImageCreationError(_)) => false,
        },
{
    let ubuf = match device.create_buffer(size, usage) {
        Ok(b) => b,
        Err(e) => {
            return Err(FactoryError::BufferCreationError(e));
        },
    };
    let ghost ubuf_id = D::buffer_id(&ubuf);
    let reqs = device.get_buffer_requirements(&ubuf);
    let block = match allocator.allocate(device, request, reqs) {
        Ok(b) => b,
        Err(e) => {
            device.destroy_buffer(ubuf);
            return Err(FactoryError::MemoryError(e));
        },
    };
    let ghost bmem = block.memory_id();
    let ghost bspan = block.span();
    let memory = block.memory();
    let offset = block.range().start;
    let buf = match device.bind_buffer_memory(memory, offset, ubuf) {
        Ok(b) => b,
        Err(e) => {
            allocator.free(device, block);
            proof {
                assert(device.log() == old(device).log().push(
                    DeviceEvent::CreateBuffer { id: ubuf_id, size },
                ).push(
                    DeviceEvent::BindBufferFailed {
                        id: ubuf_id,
                        memory: bmem,
                        offset: bspan.start,
                        error: e,
                    },
                ));
                assert(allocator.log() == old(allocator).log().push(
                    AllocEvent::AllocOk {
                        reqs: D::buffer_requirements(ubuf_id),
                        memory: bmem,
                        start: bspan.start,
                        end: bspan.end,
                        at: old(device).log().len() + 1int,
                    },
                ).push(
                    AllocEvent::Free {
                        memory: bmem,
                        start: bspan.start,
                        end: bspan.end,
                        at: old(device).log().len() + 2int,
                    },
                ));
            }
            return Err(FactoryError::BindFailure(e));
        },
    };
    Ok(Item { raw: buf, block })
}

/// Create an image from the given descriptors on `device`, backed by memory
/// from `allocator`.
///
/// The contract is that of [`create_buffer`], parameterized over image
/// descriptors: on success the returned pairing holds a bound image and
/// exactly the block the allocator produced for the device-reported
/// requirements, bound at the block's range start; on failure no pairing is
/// constructed and the error tags the stage that failed, with the same
/// cleanup on the allocation-failure and bind-failure paths.
pub fn create_image<D: Device, A: MemoryAllocator<D>>(
    allocator: &mut A,
    device: &mut D,
    request: A::Request,
    kind: D::ImageKind,
    level: D::Level,
    format: D::Format,
    tiling: D::Tiling,
    usage: D::ImageUsage,
    view_caps: D::ViewCapabilities,
) -> (r: Result<Item<D::RawImage, A::Block>, FactoryError>)
    ensures
        match r {
            Ok(item) => {
                let id = D::image_id(&item.raw_spec());
                let b = item.block_spec();
                &&& b.span().wf()
                &&& D::image_requirements(id).satisfied_by(b.span())
                &&& final(device).log() == old(device).log().push(
                    DeviceEvent::CreateImage { id },
                ).push(
                    DeviceEvent::BindImage {
                        id,
                        memory: b.memory_id(),
                        offset: b.span().start,
                    },
                )
                &&& final(allocator).log() == old(allocator).log().push(
                    AllocEvent::AllocOk {
                        reqs: D::image_requirements(id),
                        memory: b.memory_id(),
                        start: b.span().start,
                        end: b.span().end,
                        at: old(device).log().len() + 1int,
                    },
                )
            },
            Err(FactoryError::ImageCreationError(e)) => {
                &&& final(device).log() == old(device).log().push(
                    DeviceEvent::CreateImageFailed { error: e },
                )
                &&& final(allocator).log() == old(allocator).log()
            },
            Err(FactoryError::MemoryError(e)) => {
                exists|id: u64|
                    {
                        &&& final(device).log() == #[trigger] old(device).log().push(
                            DeviceEvent::CreateImage { id },
                        ).push(DeviceEvent::DestroyImage { id })
                        &&& final(allocator).log() == old(allocator).log().push(
                            AllocEvent::AllocFailed {
                                reqs: D::image_requirements(id),
                                error: e,
                                at: old(device).log().len() + 1int,
                            },
                        )
                    }
            },
            Err(FactoryError::BindFailure(e)) => {
                exists|id: u64, memory: u64, start: u64, end: u64|
                    {
                        &&& final(device).log() == #[trigger] old(device).log().push(
                            DeviceEvent::CreateImage { id },
                        ).push(
                            DeviceEvent::BindImageFailed { id, memory, offset: start, error: e },
                        )
                        &&& final(allocator).log() == #[trigger] old(allocator).log().push(
                            AllocEvent::AllocOk {
                                reqs: D::image_requirements(id),
                                memory,
                                start,
                                end,
                                at: old(device).log().len() + 1int,
                            },
                        ).push(
                            AllocEvent::Free {
                                memory,
                                start,
                                end,
                                at: old(device).log().len() + 2int,
                            },
                        )
                    }
            },
            Err(FactoryError::BufferCreationError(_)) => false,
        },
{
    let uimg = match device.create_image(kind, level, format, tiling, usage, view_caps) {
        Ok(i) => i,
        Err(e) => {
            return Err(FactoryError::ImageCreationError(e));
        },
    };
    let ghost uimg_id = D::image_id(&uimg);
    let reqs = device.get_image_requirements(&uimg);
    let block = match allocator.allocate(device, request, reqs) {
        Ok(b) => b,
        Err(e) => {
            device.destroy_image(uimg);
            return Err(FactoryError::MemoryError(e));
        },
    };
    let ghost bmem = block.memory_id();
    let ghost bspan = block.span();
    let memory = block.memory();
    let offset = block.range().start;
    let img = match device.bind_image_memory(memory, offset, uimg) {
        Ok(i) => i,
        Err(e) => {
            allocator.free(device, block);
            proof {
                assert(device.log() == old(device).log().push(
                    DeviceEvent::CreateImage { id: uimg_id },
                ).push(
                    DeviceEvent::BindImageFailed {
                        id: uimg_id,
                        memory: bmem,
                        offset: bspan.start,
                        error: e,
                    },
                ));
                assert(allocator.log() == old(allocator).log().push(
                    AllocEvent::AllocOk {
                        reqs: D::image_requirements(uimg_id),
                        memory: bmem,
                        start: bspan.start,
                        end: bspan.end,
                        at: old(device).log().len() + 1int,
                    },
                ).push(
                    AllocEvent::Free {
                        memory: bmem,
                        start: bspan.start,
                        end: bspan.end,
                        at: old(device).log().len() + 2int,
                    },
                ));
            }
            return Err(FactoryError::BindFailure(e));
        },
    };
    Ok(Item { raw: img, block })
}

/// Destroy a buffer created by [`create_buffer`], consuming the pairing.
///
/// The raw buffer is destroyed on the device first; only then is its block
/// released to the allocator, so the memory cannot be recycled while the
/// buffer is still alive on the device. The order is visible in the
/// postcondition: the release carries a device clock one past the position at
/// which the destroy was observed.
pub fn destroy_buffer<D: Device, A: MemoryAllocator<D>>(
    allocator: &mut A,
    device: &mut D,
    buffer: Item<D::RawBuffer, A::Block>,
)
    ensures
        final(device).log() == old(device).log().push(
            DeviceEvent::DestroyBuffer { id: D::buffer_id(&buffer.raw_spec()) },
        ),
        final(allocator).log() == old(allocator).log().push(
            AllocEvent::Free {
                memory: buffer.block_spec().memory_id(),
                start: buffer.block_spec().span().start,
                end: buffer.block_spec().span().end,
                at: old(device).log().len() + 1int,
            },
        ),
{
    let Item { raw, block } = buffer;
    device.destroy_buffer(raw);
    allocator.free(device, block);
}

/// Destroy an image created by [`create_image`], consuming the pairing.
///
/// The raw image is destroyed on the device first; only then is its block
/// released to the allocator, so the memory cannot be recycled while the
/// image is still alive on the device. The order is visible in the
/// postcondition: the release carries a device clock one past the position at
/// which the destroy was observed.
pub fn destroy_image<D: Device, A: MemoryAllocator<D>>(
    allocator: &mut A,
    device: &mut D,
    image: Item<D::RawImage, A::Block>,
)
    ensures
        final(device).log() == old(device).log().push(
            DeviceEvent::DestroyImage { id: D::image_id(&image.raw_spec()) },
        ),
        final(allocator).log() == old(allocator).log().push(
            AllocEvent::Free {
                memory: image.block_spec().memory_id(),
                start: image.block_spec().span().start,
                end: image.block_spec().span().end,
                at: old(device).log().len() + 1int,
            },
        ),
{
    let Item { raw, block } = image;
    device.destroy_image(raw);
    allocator.free(device, block);
}

/// Whether a device event is a destroy call, of a buffer or of an image.
pub open spec fn is_destroy(e: DeviceEvent) -> bool {
    ||| e matches DeviceEvent::DestroyBuffer { .. }
    ||| e matches DeviceEvent::DestroyImage { .. }
}

/// Whether an allocator event is a free call.
pub open spec fn is_free(e: AllocEvent) -> bool {
    e matches AllocEvent::Free { .. }
}

/// Number of destroy calls a device log holds.
pub open spec fn destroy_count(log: Seq<DeviceEvent>) -> int
    decreases log.len(),
{
    if log.len() == 0 {
        0
    } else {
        destroy_count(log.drop_last()) + if is_destroy(log.last()) {
            1int
        } else {
            0int
        }
    }
}

/// Number of free calls an allocator log holds.
pub open spec fn free_count(log: Seq<AllocEvent>) -> int
    decreases log.len(),
{
    if log.len() == 0 {
        0
    } else {
        free_count(log.drop_last()) + if is_free(log.last()) {
            1int
        } else {
            0int
        }
    }
}

proof fn lemma_destroy_count_push(log: Seq<DeviceEvent>, e: DeviceEvent)
    ensures
        destroy_count(log.push(e)) == destroy_count(log) + if is_destroy(e) {
            1int
        } else {
            0int
        },
{
    assert(log.push(e).drop_last() =~= log);
}

proof fn lemma_free_count_push(log: Seq<AllocEvent>, e: AllocEvent)
    ensures
        free_count(log.push(e)) == free_count(log) + if is_free(e) {
            1int
        } else {
            0int
        },
{
    assert(log.push(e).drop_last() =~= log);
}

/// A successful buffer create followed immediately by its matching destroy:
/// the device observes exactly one destroy call and the allocator exactly one
/// free call, in that order — the free call carries a device clock strictly
/// past the position at which the destroy was recorded.
///
/// The two premises are the log shapes in which [`create_buffer`]'s success
/// case followed by [`destroy_buffer`] leaves the device and the allocator.
pub proof fn lemma_create_then_destroy_buffer(
    dev0: Seq<DeviceEvent>,
    dev1: Seq<DeviceEvent>,
    al0: Seq<AllocEvent>,
    al1: Seq<AllocEvent>,
    id: u64,
    size: u64,
    reqs: MemoryRequirements,
    memory: u64,
    start: u64,
    end: u64,
)
    requires
        dev1 == dev0.push(DeviceEvent::CreateBuffer { id, size }).push(
            DeviceEvent::BindBuffer { id, memory, offset: start },
        ).push(DeviceEvent::DestroyBuffer { id }),
        al1 == al0.push(
            AllocEvent::AllocOk { reqs, memory, start, end, at: dev0.len() + 1int },
        ).push(AllocEvent::Free { memory, start, end, at: dev0.len() + 3int }),
    ensures
        destroy_count(dev1) == destroy_count(dev0) + 1,
        free_count(al1) == free_count(al0) + 1,
        dev1[dev0.len() + 2int] == (DeviceEvent::DestroyBuffer { id }),
        al1.last() matches AllocEvent::Free { at, .. } && at > dev0.len() + 2int,
{
    lemma_destroy_count_push(dev0, DeviceEvent::CreateBuffer { id, size });
    lemma_destroy_count_push(
        dev0.push(DeviceEvent::CreateBuffer { id, size }),
        DeviceEvent::BindBuffer { id, memory, offset: start },
    );
    lemma_destroy_count_push(
        dev0.push(DeviceEvent::CreateBuffer { id, size }).push(
            DeviceEvent::BindBuffer { id, memory, offset: start },
        ),
        DeviceEvent::DestroyBuffer { id },
    );
    lemma_free_count_push(
        al0,
        AllocEvent::AllocOk { reqs, memory, start, end, at: dev0.len() + 1int },
    );
    lemma_free_count_push(
        al0.push(AllocEvent::AllocOk { reqs, memory, start, end, at: dev0.len() + 1int }),
        AllocEvent::Free { memory, start, end, at: dev0.len() + 3int },
    );
}

/// A successful image create followed immediately by its matching destroy:
/// the device observes exactly one destroy call and the allocator exactly one
/// free call, in that order — the free call carries a device clock strictly
/// past the position at which the destroy was recorded.
///
/// The two premises are the log shapes in which [`create_image`]'s success
/// case followed by [`destroy_image`] leaves the device and the allocator.
pub proof fn lemma_create_then_destroy_image(
    dev0: Seq<DeviceEvent>,
    dev1: Seq<DeviceEvent>,
    al0: Seq<AllocEvent>,
    al1: Seq<AllocEvent>,
    id: u64,
    reqs: MemoryRequirements,
    memory: u64,
    start: u64,
    end: u64,
)
    requires
        dev1 == dev0.push(DeviceEvent::CreateImage { id }).push(
            DeviceEvent::BindImage { id, memory, offset: start },
        ).push(DeviceEvent::DestroyImage { id }),
        al1 == al0.push(
            AllocEvent::AllocOk { reqs, memory, start, end, at: dev0.len() + 1int },
        ).push(AllocEvent::Free { memory, start, end, at: dev0.len() + 3int }),
    ensures
        destroy_count(dev1) == destroy_count(dev0) + 1,
        free_count(al1) == free_count(al0) + 1,
        dev1[dev0.len() + 2int] == (DeviceEvent::DestroyImage { id }),
        al1.last() matches AllocEvent::Free { at, .. } && at > dev0.len() + 2int,
{
    lemma_destroy_count_push(dev0, DeviceEvent::CreateImage { id });
    lemma_destroy_count_push(
        dev0.push(DeviceEvent::CreateImage { id }),
        DeviceEvent::BindImage { id, memory, offset: start },
    );
    lemma_destroy_count_push(
        dev0.push(DeviceEvent::CreateImage { id }).push(
            DeviceEvent::BindImage { id, memory, offset: start },
        ),
        DeviceEvent::DestroyImage { id },
    );
    lemma_free_count_push(
        al0,
        AllocEvent::AllocOk { reqs, memory, start, end, at: dev0.len() + 1int },
    );
    lemma_free_count_push(
        al0.push(AllocEvent::AllocOk { reqs, memory, start, end, at: dev0.len() + 1int }),
        AllocEvent::Free { memory, start, end, at: dev0.len() + 3int },
    );
}

} // verus!
