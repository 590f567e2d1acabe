//! Descriptions of device resources with their usual defaults filled in:
//! what a buffer or a texture is created with, which memory it lives in, and
//! the barrier that moves a resource from one use to another.

use vstd::prelude::*;

verus! {

/// Node mask of a single-adapter device.
pub const SINGLE_NODE_MASK: u32 = 1;

/// Subresource index that stands for all subresources of a resource.
pub const ALL_SUBRESOURCES: u32 = 0xffff_ffff;

/// Pixel format of a surface or of vertex data.
#[derive(Clone, Copy, Debug, PartialEq, Eq, Structural)]
pub enum Format {
    Unknown,
    R8G8B8A8Unorm,
    R32G32Float,
}

/// The kind of memory a resource lives in.
#[derive(Clone, Copy, Debug, PartialEq, Eq, Structural)]
pub enum HeapType {
    /// Device memory, not visible to the host.
    Default,
    /// Host-visible memory that the device reads.
    Upload,
}

/// What kind of resource a description describes.
#[derive(Clone, Copy, Debug, PartialEq, Eq, Structural)]
pub enum ResourceDimension {
    Unknown,
    Buffer,
    Texture2D,
}

/// How the texels of a resource are laid out in memory.
#[derive(Clone, Copy, Debug, PartialEq, Eq, Structural)]
pub enum TextureLayout {
    Unknown,
    RowMajor,
}

/// How the host accesses the pages of a heap.
#[derive(Clone, Copy, Debug, PartialEq, Eq, Structural)]
pub enum CpuPageProperty {
    Unknown,
}

/// Which memory pool a heap prefers.
#[derive(Clone, Copy, Debug, PartialEq, Eq, Structural)]
pub enum MemoryPool {
    Unknown,
}

/// What a resource is used as.
#[derive(Clone, Copy, Debug, PartialEq, Eq, Structural)]
pub enum ResourceState {
    Common,
    VertexAndConstantBuffer,
    RenderTarget,
    Present,
}

/// What a resource is created with.
#[derive(Clone, Copy, Debug, PartialEq, Eq, Structural)]
pub struct ResourceDesc {
    pub dimension: ResourceDimension,
    pub alignment: u64,
    pub width: u64,
    pub height: u32,
    pub depth_or_array_size: u16,
    pub mip_levels: u16,
    pub format: Format,
    pub sample_count: u32,
    pub sample_quality: u32,
    pub layout: TextureLayout,
    pub flags: u32,
}

impl ResourceDesc {
    /// The description that the others start from: one texel of unknown
    /// kind, format and layout, one mip level, single sampled, no flags.
    pub open spec fn spec_default() -> ResourceDesc {
        ResourceDesc {
            dimension: ResourceDimension::Unknown,
            alignment: 0,
            width: 1,
            height: 1,
            depth_or_array_size: 1,
            mip_levels: 1,
            format: Format::Unknown,
            sample_count: 1,
            sample_quality: 0,
            layout: TextureLayout::Unknown,
            flags: 0,
        }
    }

    /// The description that the others start from.
    pub fn default() -> (desc: ResourceDesc)
        ensures
            desc == Self::spec_default(),
    {
        ResourceDesc {
            dimension: ResourceDimension::Unknown,
            alignment: 0,
            width: 1,
            height: 1,
            depth_or_array_size: 1,
            mip_levels: 1,
            format: Format::Unknown,
            sample_count: 1,
            sample_quality: 0,
            layout: TextureLayout::Unknown,
            flags: 0,
        }
    }

    /// A buffer of `size` bytes: a single row, laid out row major.
    pub fn buffer(size: usize) -> (desc: ResourceDesc)
        ensures
            desc == (ResourceDesc {
                dimension: ResourceDimension::Buffer,
                width: size as u64,
                layout: TextureLayout::RowMajor,
                ..Self::spec_default()
            }),
    {
        ResourceDesc {
            dimension: ResourceDimension::Buffer,
            alignment: 0,
            width: size as u64,
            height: 1,
            depth_or_array_size: 1,
            mip_levels: 1,
            format: Format::Unknown,
            sample_count: 1,
            sample_quality: 0,
            layout: TextureLayout::RowMajor,
            flags: 0,
        }
    }

    /// A two-dimensional texture of `width` by `height` texels of `format`.
    pub fn tex2d(format: Format, width: u64, height: u32) -> (desc: ResourceDesc)
        ensures
            desc == (ResourceDesc {
                format,
                dimension: ResourceDimension::Texture2D,
                width,
                height,
                ..Self::spec_default()
            }),
    {
        ResourceDesc {
            dimension: ResourceDimension::Texture2D,
            alignment: 0,
            width,
            height,
            depth_or_array_size: 1,
            mip_levels: 1,
            format,
            sample_count: 1,
            sample_quality: 0,
            layout: TextureLayout::Unknown,
            flags: 0,
        }
    }
}

/// Which memory a resource is created in.
#[derive(Clone, Copy, Debug, PartialEq, Eq, Structural)]
pub struct HeapProperties {
    pub heap_type: HeapType,
    pub cpu_page_property: CpuPageProperty,
    pub memory_pool_preference: MemoryPool,
    pub creation_node_mask: u32,
    pub visible_node_mask: u32,
}

impl HeapProperties {
    /// Memory of kind `heap_type` on a single-adapter device, with nothing
    /// else prescribed.
    pub open spec fn spec_standard(heap_type: HeapType) -> HeapProperties {
        HeapProperties {
            heap_type,
            cpu_page_property: CpuPageProperty::Unknown,
            memory_pool_preference: MemoryPool::Unknown,
            creation_node_mask: SINGLE_NODE_MASK,
            visible_node_mask: SINGLE_NODE_MASK,
        }
    }

    /// Device memory on a single-adapter device.
    pub fn default() -> (properties: HeapProperties)
        ensures
            properties == Self::spec_standard(HeapType::Default),
    {
        HeapProperties::standard(HeapType::Default)
    }

    /// Memory of kind `heap_type` on a single-adapter device.
    pub fn standard(heap_type: HeapType) -> (properties: HeapProperties)
        ensures
            properties == Self::spec_standard(heap_type),
    {
        HeapProperties {
            heap_type,
            cpu_page_property: CpuPageProperty::Unknown,
            memory_pool_preference: MemoryPool::Unknown,
            creation_node_mask: SINGLE_NODE_MASK,
            visible_node_mask: SINGLE_NODE_MASK,
        }
    }
}

/// A barrier that moves all of a resource from one use to another. The
/// resource is named by its position among the caller's resources.
#[derive(Clone, Copy, Debug, PartialEq, Eq, Structural)]
pub struct TransitionBarrier {
    pub resource: usize,
    pub state_before: ResourceState,
    pub state_after: ResourceState,
    pub subresource: u32,
}

/// The barrier that moves every subresource of `resource` from
/// `state_before` to `state_after`.
pub fn transition_barrier(resource: usize, state_before: ResourceState, state_after: ResourceState) -> (barrier:
    TransitionBarrier)
    ensures
        barrier == (TransitionBarrier { resource, state_before, state_after, subresource: ALL_SUBRESOURCES }),
{
    TransitionBarrier { resource, state_before, state_after, subresource: ALL_SUBRESOURCES }
}

} // verus!
