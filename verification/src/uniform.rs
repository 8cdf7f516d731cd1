//! The time uniform: a buffer of one number that the host rewrites every
//! frame and the compute programs read.

use vstd::prelude::*;
use crate::bind_group::ResourceView;
use crate::layout::TIME_UNIFORM_SIZE;

verus! {

/// What a buffer may be used for.
#[derive(Clone, Copy, Debug, PartialEq, Eq, Structural)]
pub struct BufferUsage {
    /// A program may read it as a uniform.
    pub uniform: bool,
    /// The host may copy data into it.
    pub copy_dst: bool,
}

/// How a uniform buffer is to be created.
#[derive(Clone, Copy, Debug)]
pub struct UniformBufferDescriptor {
    pub label: &'static str,
    /// Size in bytes.
    pub size: u64,
    pub usage: BufferUsage,
}

impl UniformBufferDescriptor {
    /// Describes the buffer behind the time uniform: as large as the
    /// uniform, readable as one, and writable from the host.
    pub fn time() -> (descriptor: UniformBufferDescriptor)
        ensures
            descriptor.label@ == "time uniform buffer"@,
            descriptor.size == TIME_UNIFORM_SIZE,
            descriptor.usage == (BufferUsage { uniform: true, copy_dst: true }),
    {
        UniformBufferDescriptor {
            label: "time uniform buffer",
            size: TIME_UNIFORM_SIZE,
            usage: BufferUsage { uniform: true, copy_dst: true },
        }
    }

    /// The whole buffer as a frame sees it once it exists.
    pub fn view(&self) -> (view: ResourceView)
        ensures
            view == (ResourceView::Buffer { size: self.size }),
    {
        ResourceView::Buffer { size: self.size }
    }
}

} // verus!
