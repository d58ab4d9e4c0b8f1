use memory_factory::allocator::MemoryAllocator;
use memory_factory::allocator::MemoryError;
use memory_factory::block::Block;
use memory_factory::block::MemRange;
use memory_factory::block::MemoryRequirements;
use memory_factory::device::BindError;
use memory_factory::device::BufferCreationError;
use memory_factory::device::Device;
use memory_factory::device::DeviceEvent;
use memory_factory::device::ImageCreationError;
use memory_factory::factory::create_buffer;
use memory_factory::factory::create_image;
use memory_factory::factory::destroy_buffer;
use memory_factory::factory::destroy_image;
use memory_factory::factory::FactoryError;
use memory_factory::simple::SimpleAllocator;
use memory_factory::simple::SimpleDevice;

/// A device stub: hands out numeric handles, records every observed call,
/// and fails on command.
struct StubDevice {
    next_id: u64,
    events: Vec<DeviceEvent>,
    requirements: MemoryRequirements,
    fail_create_buffer: bool,
    fail_create_image: bool,
    fail_bind: bool,
}

impl StubDevice {
    fn new() -> StubDevice {
        StubDevice {
            next_id: 0,
            events: Vec::new(),
            requirements: MemoryRequirements { size: 128, alignment: 64, type_mask: 0b1 },
            fail_create_buffer: false,
            fail_create_image: false,
            fail_bind: false,
        }
    }
}

impl Device for StubDevice {
    type RawBuffer = u64;
    type RawImage = u64;
    type BufferUsage = u32;
    type ImageKind = u32;
    type Level = u8;
    type Format = u32;
    type Tiling = u32;
    type ImageUsage = u32;
    type ViewCapabilities = u32;

    fn create_buffer(&mut self, size: u64, _usage: u32) -> Result<u64, BufferCreationError> {
        if self.fail_create_buffer {
            let error = BufferCreationError::UnsupportedUsage;
            self.events.push(DeviceEvent::CreateBufferFailed { size, error });
            return Err(error);
        }
        let id = self.next_id;
        self.next_id += 1;
        self.events.push(DeviceEvent::CreateBuffer { id, size });
        Ok(id)
    }

    fn create_image(
        &mut self,
        _kind: u32,
        _level: u8,
        _format: u32,
        _tiling: u32,
        _usage: u32,
        _view_caps: u32,
    ) -> Result<u64, ImageCreationError> {
        if self.fail_create_image {
            let error = ImageCreationError::UnsupportedKind;
            self.events.push(DeviceEvent::CreateImageFailed { error });
            return Err(error);
        }
        let id = self.next_id;
        self.next_id += 1;
        self.events.push(DeviceEvent::CreateImage { id });
        Ok(id)
    }

    fn get_buffer_requirements(&self, _buffer: &u64) -> MemoryRequirements {
        self.requirements
    }

    fn get_image_requirements(&self, _image: &u64) -> MemoryRequirements {
        self.requirements
    }

    fn bind_buffer_memory(&mut self, memory: u64, offset: u64, buffer: u64) -> Result<u64, BindError> {
        if self.fail_bind {
            let error = BindError::WrongMemory;
            self.events.push(DeviceEvent::BindBufferFailed { id: buffer, memory, offset, error });
            return Err(error);
        }
        self.events.push(DeviceEvent::BindBuffer { id: buffer, memory, offset });
        Ok(buffer)
    }

    fn bind_image_memory(&mut self, memory: u64, offset: u64, image: u64) -> Result<u64, BindError> {
        if self.fail_bind {
            let error = BindError::WrongMemory;
            self.events.push(DeviceEvent::BindImageFailed { id: image, memory, offset, error });
            return Err(error);
        }
        self.events.push(DeviceEvent::BindImage { id: image, memory, offset });
        Ok(image)
    }

    fn destroy_buffer(&mut self, buffer: u64) {
        self.events.push(DeviceEvent::DestroyBuffer { id: buffer });
    }

    fn destroy_image(&mut self, image: u64) {
        self.events.push(DeviceEvent::DestroyImage { id: image });
    }
}

/// The block type the allocator stub hands out.
#[derive(Debug, Clone, Copy, PartialEq)]
struct StubBlock {
    memory: u64,
    range: MemRange,
}

impl Block for StubBlock {
    fn memory(&self) -> u64 {
        self.memory
    }

    fn range(&self) -> MemRange {
        self.range
    }
}

/// What the allocator stub observed, the requirements it was handed
/// included; `at` is the length of the device stub's event list at the
/// moment of the call.
#[derive(Debug, Clone, Copy, PartialEq)]
enum StubAllocEvent {
    AllocOk { reqs: MemoryRequirements, memory: u64, start: u64, end: u64, at: usize },
    AllocFailed { reqs: MemoryRequirements, error: MemoryError, at: usize },
    Free { memory: u64, start: u64, end: u64, at: usize },
}

/// An allocator stub: hands out one configured block per request, records
/// every observed call, and fails on command.
struct StubAlloc {
    next_block: StubBlock,
    events: Vec<StubAllocEvent>,
    fail_alloc: bool,
}

impl StubAlloc {
    fn new(memory: u64, start: u64, end: u64) -> StubAlloc {
        StubAlloc {
            next_block: StubBlock { memory, range: MemRange { start, end } },
            events: Vec::new(),
            fail_alloc: false,
        }
    }
}

impl MemoryAllocator<StubDevice> for StubAlloc {
    type Request = u64;
    type Block = StubBlock;

    fn allocate(
        &mut self,
        device: &StubDevice,
        _request: u64,
        reqs: MemoryRequirements,
    ) -> Result<StubBlock, MemoryError> {
        let at = device.events.len();
        if self.fail_alloc {
            let error = MemoryError::NoCompatibleMemoryType;
            self.events.push(StubAllocEvent::AllocFailed { reqs, error, at });
            return Err(error);
        }
        let b = self.next_block;
        self.events.push(StubAllocEvent::AllocOk {
            reqs,
            memory: b.memory,
            start: b.range.start,
            end: b.range.end,
            at,
        });
        Ok(b)
    }

    fn free(&mut self, device: &StubDevice, block: StubBlock) {
        self.events.push(StubAllocEvent::Free {
            memory: block.memory,
            start: block.range.start,
            end: block.range.end,
            at: device.events.len(),
        });
    }
}

/// The requirements the device stub reports for every resource.
fn stub_reqs() -> MemoryRequirements {
    MemoryRequirements { size: 128, alignment: 64, type_mask: 0b1 }
}

#[test]
fn create_buffer_pairs_resource_with_allocated_block() {
    let mut device = StubDevice::new();
    let mut alloc = StubAlloc::new(7, 64, 192);
    let item = create_buffer(&mut alloc, &mut device, 0, 128, 0).unwrap();
    assert_eq!(*item.raw(), 0);
    assert_eq!(item.block().memory(), 7);
    assert_eq!(item.block().range(), MemRange { start: 64, end: 192 });
    // The pairing answers block queries like the block itself.
    assert_eq!(item.memory(), 7);
    assert_eq!(item.range(), MemRange { start: 64, end: 192 });
    assert_eq!(
        device.events,
        vec![
            DeviceEvent::CreateBuffer { id: 0, size: 128 },
            DeviceEvent::BindBuffer { id: 0, memory: 7, offset: 64 },
        ]
    );
    // The allocator was asked for exactly the device-reported requirements.
    assert_eq!(
        alloc.events,
        vec![StubAllocEvent::AllocOk { reqs: stub_reqs(), memory: 7, start: 64, end: 192, at: 1 }]
    );
}

#[test]
fn create_image_pairs_resource_with_allocated_block() {
    let mut device = StubDevice::new();
    let mut alloc = StubAlloc::new(3, 0, 4096);
    let item = create_image(&mut alloc, &mut device, 0, 2, 1, 9, 0, 4, 0).unwrap();
    assert_eq!(*item.raw(), 0);
    assert_eq!(item.memory(), 3);
    assert_eq!(item.range(), MemRange { start: 0, end: 4096 });
    assert_eq!(
        device.events,
        vec![
            DeviceEvent::CreateImage { id: 0 },
            DeviceEvent::BindImage { id: 0, memory: 3, offset: 0 },
        ]
    );
    assert_eq!(
        alloc.events,
        vec![StubAllocEvent::AllocOk { reqs: stub_reqs(), memory: 3, start: 0, end: 4096, at: 1 }]
    );
}

#[test]
fn bind_observes_offset_equal_to_block_range_start() {
    let mut device = StubDevice::new();
    let mut alloc = StubAlloc::new(1, 4096, 8192);
    let _item = create_buffer(&mut alloc, &mut device, 0, 128, 0).unwrap();
    assert_eq!(
        device.events[1],
        DeviceEvent::BindBuffer { id: 0, memory: 1, offset: 4096 }
    );
}

#[test]
fn destroy_buffer_destroys_before_freeing() {
    let mut device = StubDevice::new();
    let mut alloc = StubAlloc::new(7, 64, 192);
    let item = create_buffer(&mut alloc, &mut device, 0, 128, 0).unwrap();
    destroy_buffer(&mut alloc, &mut device, item);
    assert_eq!(
        device.events,
        vec![
            DeviceEvent::CreateBuffer { id: 0, size: 128 },
            DeviceEvent::BindBuffer { id: 0, memory: 7, offset: 64 },
            DeviceEvent::DestroyBuffer { id: 0 },
        ]
    );
    assert_eq!(
        alloc.events,
        vec![
            StubAllocEvent::AllocOk { reqs: stub_reqs(), memory: 7, start: 64, end: 192, at: 1 },
            StubAllocEvent::Free { memory: 7, start: 64, end: 192, at: 3 },
        ]
    );
    // Exactly one destroy and one free, and the free saw a device clock (3)
    // strictly past the position of the destroy (2): destroy came first.
    let destroys = device
        .events
        .iter()
        .filter(|e| matches!(e, DeviceEvent::DestroyBuffer { .. }))
        .count();
    assert_eq!(destroys, 1);
    let frees = alloc
        .events
        .iter()
        .filter(|e| matches!(e, StubAllocEvent::Free { .. }))
        .count();
    assert_eq!(frees, 1);
    assert!(matches!(alloc.events[1], StubAllocEvent::Free { at: 3, .. }));
}

#[test]
fn destroy_image_destroys_before_freeing() {
    let mut device = StubDevice::new();
    let mut alloc = StubAlloc::new(2, 0, 1024);
    let item = create_image(&mut alloc, &mut device, 0, 2, 1, 9, 0, 4, 0).unwrap();
    destroy_image(&mut alloc, &mut device, item);
    assert_eq!(
        device.events,
        vec![
            DeviceEvent::CreateImage { id: 0 },
            DeviceEvent::BindImage { id: 0, memory: 2, offset: 0 },
            DeviceEvent::DestroyImage { id: 0 },
        ]
    );
    assert_eq!(
        alloc.events,
        vec![
            StubAllocEvent::AllocOk { reqs: stub_reqs(), memory: 2, start: 0, end: 1024, at: 1 },
            StubAllocEvent::Free { memory: 2, start: 0, end: 1024, at: 3 },
        ]
    );
}

#[test]
fn failed_buffer_creation_never_reaches_the_allocator() {
    let mut device = StubDevice::new();
    let mut alloc = StubAlloc::new(7, 64, 192);
    device.fail_create_buffer = true;
    let r = create_buffer(&mut alloc, &mut device, 0, 128, 0);
    // The device's own error value comes through unchanged.
    assert_eq!(
        r.unwrap_err(),
        FactoryError::BufferCreationError(BufferCreationError::UnsupportedUsage)
    );
    assert_eq!(alloc.events, vec![]);
    assert_eq!(
        device.events,
        vec![
            DeviceEvent::CreateBufferFailed {
                size: 128,
                error: BufferCreationError::UnsupportedUsage,
            },
        ]
    );
}

#[test]
fn failed_image_creation_never_reaches_the_allocator() {
    let mut device = StubDevice::new();
    let mut alloc = StubAlloc::new(7, 64, 192);
    device.fail_create_image = true;
    let r = create_image(&mut alloc, &mut device, 0, 2, 1, 9, 0, 4, 0);
    // The device's own error value comes through unchanged.
    assert_eq!(
        r.unwrap_err(),
        FactoryError::ImageCreationError(ImageCreationError::UnsupportedKind)
    );
    assert_eq!(alloc.events, vec![]);
    assert_eq!(
        device.events,
        vec![DeviceEvent::CreateImageFailed { error: ImageCreationError::UnsupportedKind }]
    );
}

#[test]
fn failed_allocation_destroys_the_raw_buffer() {
    let mut device = StubDevice::new();
    let mut alloc = StubAlloc::new(7, 64, 192);
    alloc.fail_alloc = true;
    let r = create_buffer(&mut alloc, &mut device, 0, 128, 0);
    // The allocator's own error value comes through unchanged.
    assert_eq!(r.unwrap_err(), FactoryError::MemoryError(MemoryError::NoCompatibleMemoryType));
    assert_eq!(
        device.events,
        vec![
            DeviceEvent::CreateBuffer { id: 0, size: 128 },
            DeviceEvent::DestroyBuffer { id: 0 },
        ]
    );
    assert_eq!(
        alloc.events,
        vec![
            StubAllocEvent::AllocFailed {
                reqs: stub_reqs(),
                error: MemoryError::NoCompatibleMemoryType,
                at: 1,
            },
        ]
    );
}

#[test]
fn failed_allocation_destroys_the_raw_image() {
    let mut device = StubDevice::new();
    let mut alloc = StubAlloc::new(7, 64, 192);
    alloc.fail_alloc = true;
    let r = create_image(&mut alloc, &mut device, 0, 2, 1, 9, 0, 4, 0);
    assert_eq!(r.unwrap_err(), FactoryError::MemoryError(MemoryError::NoCompatibleMemoryType));
    assert_eq!(
        device.events,
        vec![DeviceEvent::CreateImage { id: 0 }, DeviceEvent::DestroyImage { id: 0 }]
    );
    assert_eq!(
        alloc.events,
        vec![
            StubAllocEvent::AllocFailed {
                reqs: stub_reqs(),
                error: MemoryError::NoCompatibleMemoryType,
                at: 1,
            },
        ]
    );
}

#[test]
fn failed_bind_releases_the_block() {
    let mut device = StubDevice::new();
    let mut alloc = StubAlloc::new(7, 64, 192);
    device.fail_bind = true;
    let r = create_buffer(&mut alloc, &mut device, 0, 128, 0);
    // The device's own error value comes through unchanged.
    assert_eq!(r.unwrap_err(), FactoryError::BindFailure(BindError::WrongMemory));
    assert_eq!(
        device.events,
        vec![
            DeviceEvent::CreateBuffer { id: 0, size: 128 },
            DeviceEvent::BindBufferFailed {
                id: 0,
                memory: 7,
                offset: 64,
                error: BindError::WrongMemory,
            },
        ]
    );
    assert_eq!(
        alloc.events,
        vec![
            StubAllocEvent::AllocOk { reqs: stub_reqs(), memory: 7, start: 64, end: 192, at: 1 },
            StubAllocEvent::Free { memory: 7, start: 64, end: 192, at: 2 },
        ]
    );
}

#[test]
fn raw_mut_touches_only_the_raw_half() {
    let mut device = StubDevice::new();
    let mut alloc = StubAlloc::new(7, 64, 192);
    let mut item = create_buffer(&mut alloc, &mut device, 0, 128, 0).unwrap();
    assert_eq!(*item.raw(), 0);
    *item.raw_mut() = 5;
    assert_eq!(*item.raw(), 5);
    assert_eq!(item.block().memory(), 7);
    assert_eq!(item.block().range(), MemRange { start: 64, end: 192 });
}

#[test]
fn factory_error_wraps_each_failure_kind() {
    assert_eq!(
        FactoryError::from(MemoryError::OutOfMemory),
        FactoryError::MemoryError(MemoryError::OutOfMemory)
    );
    assert_eq!(
        FactoryError::from(BufferCreationError::UnsupportedUsage),
        FactoryError::BufferCreationError(BufferCreationError::UnsupportedUsage)
    );
    assert_eq!(
        FactoryError::from(ImageCreationError::UnsupportedKind),
        FactoryError::ImageCreationError(ImageCreationError::UnsupportedKind)
    );
}

#[test]
fn simple_collaborators_roundtrip() {
    let mut device = SimpleDevice::new();
    let mut alloc = SimpleAllocator::new();
    let item = create_buffer(&mut alloc, &mut device, (), 16, 0).unwrap();
    assert_eq!(*item.raw(), 0);
    // The device reports fixed one-byte requirements, and the allocator
    // serves each request from the start of a fresh memory object.
    assert_eq!(item.memory(), 0);
    assert_eq!(item.range(), MemRange { start: 0, end: 1 });
    destroy_buffer(&mut alloc, &mut device, item);
    let image = create_image(&mut alloc, &mut device, (), 1, 1, 1, 1, 1, 1).unwrap();
    assert_eq!(*image.raw(), 1);
    assert_eq!(image.memory(), 1);
    destroy_image(&mut alloc, &mut device, image);
}
