use vstd::prelude::*;

verus! {

/// Why data could not be written into a buffer's memory.
#[derive(Clone, Copy, Debug, PartialEq, Eq, Structural)]
pub enum BufferDataUploadError {
    SizeConversionFailed(usize),
    UseAfterFree,
    SizeMismatch { data_size: usize, buffer_size: u64 },
    MemoryMappingFailed,
}

/// Whether `data_size` bytes can go into a buffer whose allocation has
/// `allocation_size` bytes (`None` once the buffer was freed).
pub open spec fn spec_check_upload(allocation_size: Option<u64>, data_size: usize) -> Result<
    (),
    BufferDataUploadError,
> {
    match allocation_size {
        None => Err(BufferDataUploadError::UseAfterFree),
        Some(size) => if size < data_size {
            Err(BufferDataUploadError::SizeMismatch { data_size, buffer_size: size })
        } else {
            Ok(())
        },
    }
}

/// Checks an upload of `data_size` bytes against the buffer's allocation: a freed
/// buffer takes nothing, and the data must fit in the allocation.
pub fn check_upload(allocation_size: Option<u64>, data_size: usize) -> (r: Result<
    (),
    BufferDataUploadError,
>)
    ensures
        r == spec_check_upload(allocation_size, data_size),
{
    match allocation_size {
        None => Err(BufferDataUploadError::UseAfterFree),
        Some(size) => {
            let data_size_u64 = data_size as u64;
            if size < data_size_u64 {
                Err(BufferDataUploadError::SizeMismatch { data_size, buffer_size: size })
            } else {
                Ok(())
            }
        },
    }
}

/// Writes `data` at the start of mapped memory; the bytes after it stay as they were.
pub fn copy_into_mapped(mapped: &mut [u8], data: &[u8])
    requires
        data@.len() <= old(mapped)@.len(),
    ensures
        final(mapped)@ == data@ + old(mapped)@.skip(data@.len() as int),
{
    let mut i: usize = 0;
    while i < data.len()
        invariant
            i <= data@.len(),
            data@.len() <= mapped@.len(),
            mapped@.len() == old(mapped)@.len(),
            forall|j: int| 0 <= j < i ==> mapped@[j] == data@[j],
            forall|j: int| i <= j < mapped@.len() ==> mapped@[j] == old(mapped)@[j],
        decreases data@.len() - i,
    {
        mapped[i] = data[i];
        i = i + 1;
    }
    assert(mapped@ =~= data@ + old(mapped)@.skip(data@.len() as int));
}


/// `VkImageUsageFlagBits::TRANSFER_DST`.
pub const IMAGE_USAGE_TRANSFER_DST: u32 = 0x2;

/// `VkImageUsageFlagBits::SAMPLED`.
pub const IMAGE_USAGE_SAMPLED: u32 = 0x4;

/// `VkImageUsageFlagBits::STORAGE`.
pub const IMAGE_USAGE_STORAGE: u32 = 0x8;

/// The usage an image is created with: the requested usage, plus transfer
/// destination when initial data is given to it.
pub open spec fn spec_image_build_usage(usage: u32, has_data: bool) -> u32 {
    if has_data {
        usage | IMAGE_USAGE_TRANSFER_DST
    } else {
        usage
    }
}

pub fn image_build_usage(usage: u32, has_data: bool) -> (r: u32)
    ensures
        r == spec_image_build_usage(usage, has_data),
{
    if has_data {
        usage | IMAGE_USAGE_TRANSFER_DST
    } else {
        usage
    }
}

/// The pixels an image starts with when it is built without data: every byte of
/// its `width * height` RGBA texels at 255 (opaque white).
pub fn default_image_data(width: u32, height: u32) -> (r: Vec<u8>)
    requires
        width * height * 4 <= u32::MAX,
    ensures
        r@.len() == width * height * 4,
        forall|i: int| 0 <= i < r@.len() ==> r@[i] == 255u8,
{
    proof {
        assert(width * height <= width * height * 4) by (nonlinear_arith);
    }
    let count = width * height * 4;
    let count = count as usize;
    let mut data: Vec<u8> = Vec::new();
    let mut i: usize = 0;
    while i < count
        invariant
            i <= count,
            data@.len() == i,
            forall|j: int| 0 <= j < i ==> data@[j] == 255u8,
        decreases count - i,
    {
        data.push(255u8);
        i = i + 1;
    }
    data
}

/// The size in bytes of `count` elements of `element_size` bytes, as the size of
/// a GPU buffer.
pub fn buffer_data_size(count: usize, element_size: usize) -> (r: u64)
    requires
        count * element_size <= usize::MAX,
    ensures
        r == count * element_size,
{
    let size = count * element_size;
    size as u64
}


/// The raw `VkImageLayout` value of `TRANSFER_DST_OPTIMAL`.
pub const IMAGE_LAYOUT_TRANSFER_DST_OPTIMAL: i32 = 7;

/// The layout changes of copying data into an image that is in layout `current`:
/// the layout to move out of before the copy (none when the image is already a
/// transfer destination), and the layout the image is left in, which is the
/// requested one or else the one it had.
pub open spec fn spec_image_upload_layouts(current: i32, new_layout: Option<i32>) -> (Option<i32>, i32) {
    (
        if current != IMAGE_LAYOUT_TRANSFER_DST_OPTIMAL {
            Some(current)
        } else {
            None
        },
        match new_layout {
            Some(l) => l,
            None => current,
        },
    )
}

pub fn image_upload_layouts(current: i32, new_layout: Option<i32>) -> (r: (Option<i32>, i32))
    ensures
        r == spec_image_upload_layouts(current, new_layout),
{
    let barrier_from = if current != IMAGE_LAYOUT_TRANSFER_DST_OPTIMAL {
        Some(current)
    } else {
        None
    };
    let final_layout = match new_layout {
        Some(l) => l,
        None => current,
    };
    (barrier_from, final_layout)
}

/// An image changes layout only when the target layout differs from its own.
pub fn needs_layout_transition(from: i32, to: i32) -> (r: bool)
    ensures
        r == (from != to),
{
    from != to
}

/// Where the memory of a GPU allocation lives.
#[derive(Clone, Copy, Debug, PartialEq, Eq, Structural)]
pub enum MemoryLocation {
    Unknown,
    GpuOnly,
    CpuToGpu,
    GpuToCpu,
}

/// `VkBufferUsageFlagBits::TRANSFER_SRC`.
pub const BUFFER_USAGE_TRANSFER_SRC: u32 = 0x1;

/// `VkBufferUsageFlagBits::UNIFORM_BUFFER`.
pub const BUFFER_USAGE_UNIFORM_BUFFER: u32 = 0x10;

/// The settings a GPU buffer is built with.
#[derive(Clone, Copy, Debug, PartialEq, Eq, Structural)]
pub struct AllocatedBufferBuilder {
    pub size: u64,
    pub usage: u32,
    pub memory_location: MemoryLocation,
}

impl AllocatedBufferBuilder {
    /// The same as [`AllocatedBufferBuilder::uniform_buffer_default`].
    pub fn default(size: u64) -> (r: Self)
        ensures
            r == (AllocatedBufferBuilder {
                size,
                usage: BUFFER_USAGE_UNIFORM_BUFFER,
                memory_location: MemoryLocation::CpuToGpu,
            }),
    {
        Self::uniform_buffer_default(size)
    }

    /// A uniform buffer the CPU writes and the GPU reads.
    pub fn uniform_buffer_default(size: u64) -> (r: Self)
        ensures
            r == (AllocatedBufferBuilder {
                size,
                usage: BUFFER_USAGE_UNIFORM_BUFFER,
                memory_location: MemoryLocation::CpuToGpu,
            }),
    {
        AllocatedBufferBuilder {
            size,
            usage: BUFFER_USAGE_UNIFORM_BUFFER,
            memory_location: MemoryLocation::CpuToGpu,
        }
    }

    /// A buffer the CPU fills for the GPU to copy from.
    pub fn staging_buffer_default(size: u64) -> (r: Self)
        ensures
            r == (AllocatedBufferBuilder {
                size,
                usage: BUFFER_USAGE_TRANSFER_SRC,
                memory_location: MemoryLocation::CpuToGpu,
            }),
    {
        AllocatedBufferBuilder {
            size,
            usage: BUFFER_USAGE_TRANSFER_SRC,
            memory_location: MemoryLocation::CpuToGpu,
        }
    }

    pub fn with_usage(self, usage: u32) -> (r: Self)
        ensures
            r == (AllocatedBufferBuilder { usage, ..self }),
    {
        AllocatedBufferBuilder { usage, ..self }
    }

    pub fn with_memory_location(self, memory_location: MemoryLocation) -> (r: Self)
        ensures
            r == (AllocatedBufferBuilder { memory_location, ..self }),
    {
        AllocatedBufferBuilder { memory_location, ..self }
    }
}

/// The size of an image, in texels.
#[derive(Clone, Copy, Debug, PartialEq, Eq, Structural)]
pub struct Extent3D {
    pub width: u32,
    pub height: u32,
    pub depth: u32,
}

/// Raw Vulkan values of the image settings the builders choose.
pub const IMAGE_TYPE_2D: i32 = 1;

pub const IMAGE_TILING_OPTIMAL: i32 = 0;

pub const SAMPLE_COUNT_1: u32 = 0x1;

pub const IMAGE_VIEW_TYPE_2D: i32 = 1;

pub const IMAGE_VIEW_TYPE_CUBE: i32 = 3;

pub const IMAGE_CREATE_CUBE_COMPATIBLE: u32 = 0x10;

pub const IMAGE_ASPECT_COLOR: u32 = 0x1;

pub const IMAGE_ASPECT_DEPTH: u32 = 0x2;

/// `VkImageUsageFlagBits::DEPTH_STENCIL_ATTACHMENT`.
pub const IMAGE_USAGE_DEPTH_STENCIL_ATTACHMENT: u32 = 0x20;

/// `VK_FORMAT_D16_UNORM`.
pub const FORMAT_D16_UNORM: i32 = 124;

/// `VK_IMAGE_LAYOUT_GENERAL`.
pub const IMAGE_LAYOUT_GENERAL: i32 = 1;

/// `VK_IMAGE_LAYOUT_SHADER_READ_ONLY_OPTIMAL`.
pub const IMAGE_LAYOUT_SHADER_READ_ONLY_OPTIMAL: i32 = 5;

/// The settings a GPU image and its view are built with. A field that no method
/// sets keeps the zero that Vulkan's create infos start from.
#[derive(Clone, Debug, PartialEq, Eq)]
pub struct AllocatedImageBuilder {
    pub extent: Extent3D,
    pub image_type: i32,
    pub format: i32,
    pub mip_levels: u32,
    pub array_layers: u32,
    pub samples: u32,
    pub tiling: i32,
    /// The usage written into the image's create info by a default.
    pub create_usage: u32,
    pub flags: u32,
    pub view_type: i32,
    pub aspect_mask: u32,
    pub view_layer_count: u32,
    /// The layout the image is left in once its data is uploaded.
    pub layout: i32,
    /// The usage added when the image is built.
    pub usage: u32,
    pub data: Option<Vec<u8>>,
}

impl AllocatedImageBuilder {
    /// An image of the given size with every other setting at zero, to be left
    /// in the general layout, with no usage and no data.
    pub fn new(extent: Extent3D) -> (r: Self)
        ensures
            r == (AllocatedImageBuilder {
                extent,
                image_type: 0,
                format: 0,
                mip_levels: 0,
                array_layers: 0,
                samples: 0,
                tiling: 0,
                create_usage: 0,
                flags: 0,
                view_type: 0,
                aspect_mask: 0,
                view_layer_count: 0,
                layout: IMAGE_LAYOUT_GENERAL,
                usage: 0,
                data: None,
            }),
    {
        AllocatedImageBuilder {
            extent,
            image_type: 0,
            format: 0,
            mip_levels: 0,
            array_layers: 0,
            samples: 0,
            tiling: 0,
            create_usage: 0,
            flags: 0,
            view_type: 0,
            aspect_mask: 0,
            view_layer_count: 0,
            layout: IMAGE_LAYOUT_GENERAL,
            usage: 0,
            data: None,
        }
    }

    pub fn with_usage(self, usage: u32) -> (r: Self)
        ensures
            r == (AllocatedImageBuilder { usage, ..self }),
    {
        AllocatedImageBuilder { usage, ..self }
    }

    pub fn with_data(self, data: Vec<u8>) -> (r: Self)
        ensures
            r == (AllocatedImageBuilder { data: Some(data), ..self }),
    {
        AllocatedImageBuilder { data: Some(data), ..self }
    }

    pub fn with_layout(self, layout: i32) -> (r: Self)
        ensures
            r == (AllocatedImageBuilder { layout, ..self }),
    {
        AllocatedImageBuilder { layout, ..self }
    }

    /// A sampled 2D colour texture of one mip level and one layer, left ready for
    /// shaders to read.
    pub fn texture_default(self, format: i32) -> (r: Self)
        ensures
            r == (AllocatedImageBuilder {
                layout: IMAGE_LAYOUT_SHADER_READ_ONLY_OPTIMAL,
                image_type: IMAGE_TYPE_2D,
                format,
                mip_levels: 1,
                array_layers: 1,
                samples: SAMPLE_COUNT_1,
                tiling: IMAGE_TILING_OPTIMAL,
                create_usage: self.usage | IMAGE_USAGE_SAMPLED,
                view_type: IMAGE_VIEW_TYPE_2D,
                aspect_mask: IMAGE_ASPECT_COLOR,
                view_layer_count: 1,
                ..self
            }),
    {
        let create_usage = self.usage | IMAGE_USAGE_SAMPLED;
        AllocatedImageBuilder {
            layout: IMAGE_LAYOUT_SHADER_READ_ONLY_OPTIMAL,
            image_type: IMAGE_TYPE_2D,
            format,
            mip_levels: 1,
            array_layers: 1,
            samples: SAMPLE_COUNT_1,
            tiling: IMAGE_TILING_OPTIMAL,
            create_usage,
            view_type: IMAGE_VIEW_TYPE_2D,
            aspect_mask: IMAGE_ASPECT_COLOR,
            view_layer_count: 1,
            ..self
        }
    }

    /// A sampled cube map: six layers of one 2D image, cube compatible, seen
    /// through a cube view, left ready for shaders to read.
    pub fn cubemap_default(self, format: i32) -> (r: Self)
        ensures
            r == (AllocatedImageBuilder {
                layout: IMAGE_LAYOUT_SHADER_READ_ONLY_OPTIMAL,
                image_type: IMAGE_TYPE_2D,
                format,
                mip_levels: 1,
                array_layers: 6,
                samples: SAMPLE_COUNT_1,
                tiling: IMAGE_TILING_OPTIMAL,
                create_usage: self.usage | IMAGE_USAGE_SAMPLED,
                flags: IMAGE_CREATE_CUBE_COMPATIBLE,
                view_type: IMAGE_VIEW_TYPE_CUBE,
                aspect_mask: IMAGE_ASPECT_COLOR,
                view_layer_count: 6,
                ..self
            }),
    {
        let create_usage = self.usage | IMAGE_USAGE_SAMPLED;
        AllocatedImageBuilder {
            layout: IMAGE_LAYOUT_SHADER_READ_ONLY_OPTIMAL,
            image_type: IMAGE_TYPE_2D,
            format,
            mip_levels: 1,
            array_layers: 6,
            samples: SAMPLE_COUNT_1,
            tiling: IMAGE_TILING_OPTIMAL,
            create_usage,
            flags: IMAGE_CREATE_CUBE_COMPATIBLE,
            view_type: IMAGE_VIEW_TYPE_CUBE,
            aspect_mask: IMAGE_ASPECT_COLOR,
            view_layer_count: 6,
            ..self
        }
    }

    /// A 2D colour image that shaders read and write, of one mip level and one
    /// layer; its layout stays as it was set.
    pub fn storage_image_default(self, format: i32) -> (r: Self)
        ensures
            r == (AllocatedImageBuilder {
                image_type: IMAGE_TYPE_2D,
                format,
                mip_levels: 1,
                array_layers: 1,
                samples: SAMPLE_COUNT_1,
                tiling: IMAGE_TILING_OPTIMAL,
                create_usage: self.usage | IMAGE_USAGE_STORAGE,
                view_type: IMAGE_VIEW_TYPE_2D,
                aspect_mask: IMAGE_ASPECT_COLOR,
                view_layer_count: 1,
                ..self
            }),
    {
        let create_usage = self.usage | IMAGE_USAGE_STORAGE;
        AllocatedImageBuilder {
            image_type: IMAGE_TYPE_2D,
            format,
            mip_levels: 1,
            array_layers: 1,
            samples: SAMPLE_COUNT_1,
            tiling: IMAGE_TILING_OPTIMAL,
            create_usage,
            view_type: IMAGE_VIEW_TYPE_2D,
            aspect_mask: IMAGE_ASPECT_COLOR,
            view_layer_count: 1,
            ..self
        }
    }

    /// A 16-bit depth attachment of one mip level and one layer; its usage is
    /// the depth attachment alone, and its view sees the depth aspect.
    pub fn depth_image_default(self) -> (r: Self)
        ensures
            r == (AllocatedImageBuilder {
                image_type: IMAGE_TYPE_2D,
                format: FORMAT_D16_UNORM,
                mip_levels: 1,
                array_layers: 1,
                samples: SAMPLE_COUNT_1,
                tiling: IMAGE_TILING_OPTIMAL,
                create_usage: IMAGE_USAGE_DEPTH_STENCIL_ATTACHMENT,
                view_type: IMAGE_VIEW_TYPE_2D,
                aspect_mask: IMAGE_ASPECT_DEPTH,
                view_layer_count: 1,
                ..self
            }),
    {
        AllocatedImageBuilder {
            image_type: IMAGE_TYPE_2D,
            format: FORMAT_D16_UNORM,
            mip_levels: 1,
            array_layers: 1,
            samples: SAMPLE_COUNT_1,
            tiling: IMAGE_TILING_OPTIMAL,
            create_usage: IMAGE_USAGE_DEPTH_STENCIL_ATTACHMENT,
            view_type: IMAGE_VIEW_TYPE_2D,
            aspect_mask: IMAGE_ASPECT_DEPTH,
            view_layer_count: 1,
            ..self
        }
    }

    /// The usage the image is finally created with: what the default wrote, the
    /// requested usage, and transfer destination when data was given.
    pub fn final_usage(&self) -> (r: u32)
        ensures
            r == self.create_usage | spec_image_build_usage(self.usage, self.data is Some),
    {
        self.create_usage | image_build_usage(self.usage, self.data.is_some())
    }
}

} // verus!
