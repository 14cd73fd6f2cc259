//! The barriers that linking attaches to a pass.

use vstd::prelude::*;

verus! {

/// A pipeline barrier on an image, with its layout transition.
#[derive(Clone, Copy, Debug, PartialEq, Eq, Structural)]
pub struct ImageBarrier {
    pub resource: u64,
    pub source_stage: u32,
    pub dest_stage: u32,
    pub source_access: u32,
    pub dest_access: u32,
    pub old_layout: i32,
    pub new_layout: i32,
}

/// A pipeline barrier on a range of a buffer.
#[derive(Clone, Copy, Debug, PartialEq, Eq, Structural)]
pub struct BufferBarrier {
    pub resource: u64,
    pub source_stage: u32,
    pub dest_stage: u32,
    pub source_access: u32,
    pub dest_access: u32,
    pub size: usize,
    pub offset: usize,
}

} // verus!
