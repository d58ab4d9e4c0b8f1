//! The device collaborator: creates raw resource handles, reports their
//! memory requirements, binds memory to them and destroys them.

use vstd::prelude::*;

use crate::block::MemoryRequirements;

verus! {

/// The device rejected the descriptors of a requested buffer.
#[derive(Debug, Clone, Copy, PartialEq, Eq, Structural)]
pub enum BufferCreationError {
    /// The device ran out of memory for the handle itself.
    OutOfMemory,
    /// The requested usage is not supported.
    UnsupportedUsage,
}

/// The device rejected the descriptors of a requested image.
#[derive(Debug, Clone, Copy, PartialEq, Eq, Structural)]
pub enum ImageCreationError {
    /// The device ran out of memory for the handle itself.
    OutOfMemory,
    /// The requested format is not supported.
    UnsupportedFormat,
    /// The requested kind or sample count is not supported.
    UnsupportedKind,
}

/// The device refused to bind memory to a raw resource.
#[derive(Debug, Clone, Copy, PartialEq, Eq, Structural)]
pub enum BindError {
    /// The offset or size lies outside the bounds of the memory object.
    OutOfBounds,
    /// The memory object does not fit the resource's requirements.
    WrongMemory,
}

/// One call the device observed, failed attempts included. Resources appear
/// under the numeric identity the device assigns them; buffer-create calls
/// record the requested size, failed calls record the error the device
/// reported, and bind calls record which memory object was bound and at
/// which byte offset.
#[derive(Debug, Clone, Copy, PartialEq, Eq, Structural)]
pub enum DeviceEvent {
    CreateBuffer { id: u64, size: u64 },
    CreateBufferFailed { size: u64, error: BufferCreationError },
    CreateImage { id: u64 },
    CreateImageFailed { error: ImageCreationError },
    BindBuffer { id: u64, memory: u64, offset: u64 },
    BindBufferFailed { id: u64, memory: u64, offset: u64, error: BindError },
    BindImage { id: u64, memory: u64, offset: u64 },
    BindImageFailed { id: u64, memory: u64, offset: u64, error: BindError },
    DestroyBuffer { id: u64 },
    DestroyImage { id: u64 },
}

/// A hardware/driver abstraction producing raw, unbound buffer and image
/// handles, usable for GPU work only once memory is bound to them.
///
/// The descriptor types (usage, kind, format, tiling, view capabilities) are
/// opaque to this layer: the factory forwards them to the device verbatim and
/// never inspects them.
///
/// Every observable call is appended to the ghost [`Device::log`], each
/// resource identified by [`Device::buffer_id`] or [`Device::image_id`];
/// requirement queries are read-only and leave the log unchanged. The
/// requirements of a resource are a function of its identity alone, so they
/// do not shift between the query and the later bind.
pub trait Device: Sized {
    /// A raw, unbound buffer handle.
    type RawBuffer;

    /// A raw, unbound image handle.
    type RawImage;

    /// Buffer usage descriptor, forwarded verbatim.
    type BufferUsage;

    /// Image kind descriptor (dimensions, sample count), forwarded verbatim.
    type ImageKind;

    /// Mipmap level descriptor, forwarded verbatim.
    type Level;

    /// Texture format descriptor, forwarded verbatim.
    type Format;

    /// Image tiling descriptor, forwarded verbatim.
    type Tiling;

    /// Image usage descriptor, forwarded verbatim.
    type ImageUsage;

    /// Image view capabilities descriptor, forwarded verbatim.
    type ViewCapabilities;

    /// The calls this device has observed, oldest first.
    open spec fn log(&self) -> Seq<DeviceEvent> {
        arbitrary()
    }

    /// The identity the device assigned to a raw buffer.
    open spec fn buffer_id(b: &Self::RawBuffer) -> u64 {
        arbitrary()
    }

    /// The identity the device assigned to a raw image.
    open spec fn image_id(i: &Self::RawImage) -> u64 {
        arbitrary()
    }

    /// The memory requirements of the buffer with the given identity.
    open spec fn buffer_requirements(id: u64) -> MemoryRequirements {
        arbitrary()
    }

    /// The memory requirements of the image with the given identity.
    open spec fn image_requirements(id: u64) -> MemoryRequirements {
        arbitrary()
    }

    /// Create an unbound buffer of the given size and usage. The observed
    /// event records the size as it was requested, and on failure the error
    /// the device itself reported.
    fn create_buffer(&mut self, size: u64, usage: Self::BufferUsage) -> (r: Result<
        Self::RawBuffer,
        BufferCreationError,
    >)
        ensures
            match r {
                Ok(b) => final(self).log() == old(self).log().push(
                    DeviceEvent::CreateBuffer { id: Self::buffer_id(&b), size },
                ),
                Err(e) => final(self).log() == old(self).log().push(
                    DeviceEvent::CreateBufferFailed { size, error: e },
                ),
            },
    ;

    /// Create an unbound image from the given descriptors.
    fn create_image(
        &mut self,
        kind: Self::ImageKind,
        level: Self::Level,
        format: Self::Format,
        tiling: Self::Tiling,
        usage: Self::ImageUsage,
        view_caps: Self::ViewCapabilities,
    ) -> (r: Result<Self::RawImage, ImageCreationError>)
        ensures
            match r {
                Ok(i) => final(self).log() == old(self).log().push(
                    DeviceEvent::CreateImage { id: Self::image_id(&i) },
                ),
                Err(e) => final(self).log() == old(self).log().push(
                    DeviceEvent::CreateImageFailed { error: e },
                ),
            },
    ;

    /// Report the memory requirements of an unbound buffer.
    fn get_buffer_requirements(&self, buffer: &Self::RawBuffer) -> (r: MemoryRequirements)
        ensures
            r == Self::buffer_requirements(Self::buffer_id(buffer)),
            r.wf(),
    ;

    /// Report the memory requirements of an unbound image.
    fn get_image_requirements(&self, image: &Self::RawImage) -> (r: MemoryRequirements)
        ensures
            r == Self::image_requirements(Self::image_id(image)),
            r.wf(),
    ;

    /// Bind the given memory object to a raw buffer at the given byte offset.
    /// The bind call is observed whether or not it succeeds. On success the
    /// handle keeps its identity; on failure the handle was consumed by the
    /// call and the device disposes of it internally, and the observed event
    /// records the error the device reported.
    fn bind_buffer_memory(&mut self, memory: u64, offset: u64, buffer: Self::RawBuffer) -> (r:
        Result<Self::RawBuffer, BindError>)
        ensures
            match r {
                Ok(b) => {
                    &&& final(self).log() == old(self).log().push(
                        DeviceEvent::BindBuffer { id: Self::buffer_id(&buffer), memory, offset },
                    )
                    &&& Self::buffer_id(&b) == Self::buffer_id(&buffer)
                },
                Err(e) => final(self).log() == old(self).log().push(
                    DeviceEvent::BindBufferFailed {
                        id: Self::buffer_id(&buffer),
                        memory,
                        offset,
                        error: e,
                    },
                ),
            },
    ;

    /// Bind the given memory object to a raw image at the given byte offset.
    /// The bind call is observed whether or not it succeeds. On success the
    /// handle keeps its identity; on failure the handle was consumed by the
    /// call and the device disposes of it internally, and the observed event
    /// records the error the device reported.
    fn bind_image_memory(&mut self, memory: u64, offset: u64, image: Self::RawImage) -> (r: Result<
        Self::RawImage,
        BindError,
    >)
        ensures
            match r {
                Ok(i) => {
                    &&& final(self).log() == old(self).log().push(
                        DeviceEvent::BindImage { id: Self::image_id(&image), memory, offset },
                    )
                    &&& Self::image_id(&i) == Self::image_id(&image)
                },
                Err(e) => final(self).log() == old(self).log().push(
                    DeviceEvent::BindImageFailed {
                        id: Self::image_id(&image),
                        memory,
                        offset,
                        error: e,
                    },
                ),
            },
    ;

    /// Destroy a raw buffer. The buffer may still have memory bound; the
    /// device unbinds it internally.
    fn destroy_buffer(&mut self, buffer: Self::RawBuffer)
        ensures
            final(self).log() == old(self).log().push(
                DeviceEvent::DestroyBuffer { id: Self::buffer_id(&buffer) },
            ),
    ;

    /// Destroy a raw image. The image may still have memory bound; the device
    /// unbinds it internally.
    fn destroy_image(&mut self, image: Self::RawImage)
        ensures
            final(self).log() == old(self).log().push(
                DeviceEvent::DestroyImage { id: Self::image_id(&image) },
            ),
    ;
}

} // verus!
