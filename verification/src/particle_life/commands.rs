//! The device buffers of the simulation and the commands that an update
//! records into a command list.

use crate::d3dx12::HeapProperties;
use crate::d3dx12::HeapType;
use crate::d3dx12::ResourceDesc;
use vstd::prelude::*;

verus! {

/// One of the simulation's device buffers.
#[derive(Clone, Copy, Debug, PartialEq, Eq, Structural)]
pub enum Buffer {
    /// Global constants followed by the rule table; device resident.
    Constants,
    /// Output vertices written by the compute pass; device resident.
    Vertices,
    /// One of the two particle buffers, 0 or 1; device resident.
    Particles(usize),
    /// One of the two staging buffers, 0 or 1; host visible.
    Staging(usize),
}

/// A buffer to create: its role, its size in bytes and its memory.
#[derive(Clone, Copy, Debug, PartialEq, Eq, Structural)]
pub struct BufferDesc {
    pub buffer: Buffer,
    pub size: usize,
    pub heap: HeapType,
}

impl BufferDesc {
    /// What the buffer is created with.
    pub fn resource_desc(&self) -> (desc: ResourceDesc)
        ensures
            desc == (ResourceDesc {
                dimension: crate::d3dx12::ResourceDimension::Buffer,
                width: self.size as u64,
                layout: crate::d3dx12::TextureLayout::RowMajor,
                ..ResourceDesc::spec_default()
            }),
    {
        ResourceDesc::buffer(self.size)
    }

    /// Which memory the buffer is created in.
    pub fn heap_properties(&self) -> (properties: HeapProperties)
        ensures
            properties == HeapProperties::spec_standard(self.heap),
    {
        HeapProperties::standard(self.heap)
    }
}

/// A command to record. Commands execute on the device in recording order.
#[derive(Clone, Copy, Debug, PartialEq, Eq, Structural)]
pub enum Command {
    /// Copy `num_bytes` bytes from `src` at `src_offset` to `dst` at
    /// `dst_offset`.
    CopyBufferRegion { dst: Buffer, dst_offset: u64, src: Buffer, src_offset: u64, num_bytes: u64 },
    /// Bind the compute pass's root signature.
    SetComputeRootSignature,
    /// Bind the compute pass's pipeline state.
    SetPipelineState,
    /// Bind `buffer` from `offset` on as constant buffer at a root parameter.
    SetComputeRootConstantBufferView { root_parameter_index: u32, buffer: Buffer, offset: u64 },
    /// Bind `buffer` from `offset` on for reading at a root parameter.
    SetComputeRootShaderResourceView { root_parameter_index: u32, buffer: Buffer, offset: u64 },
    /// Bind `buffer` from `offset` on for reading and writing at a root
    /// parameter.
    SetComputeRootUnorderedAccessView { root_parameter_index: u32, buffer: Buffer, offset: u64 },
    /// Run the compute pass on a grid of thread groups.
    Dispatch { thread_group_count_x: u32, thread_group_count_y: u32, thread_group_count_z: u32 },
}

} // verus!
