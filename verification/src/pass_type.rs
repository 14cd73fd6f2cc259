//! The four kinds of pass a frame can hold.

use vstd::prelude::*;
use crate::compute_pass_node::ComputePassNode;
use crate::copy_pass_node::CopyPassNode;
use crate::graphics_pass_node::GraphicsPassNode;
use crate::pass_node::{PassNode, attachment_handles, binding_handles, optional_handle};
use crate::present_pass_node::PresentPassNode;

verus! {

pub enum PassType<F, P, V, B> {
    Graphics(GraphicsPassNode<F, P, V, B>),
    Copy(CopyPassNode<F>),
    Compute(ComputePassNode<F>),
    Present(PresentPassNode),
}

/// A pass answers for itself whatever its kind.
impl<F, P, V, B> PassNode for PassType<F, P, V, B> {
    open spec fn spec_name(&self) -> Seq<char> {
        match self {
            PassType::Graphics(n) => n.spec_name(),
            PassType::Copy(n) => n.spec_name(),
            PassType::Compute(n) => n.spec_name(),
            PassType::Present(n) => n.spec_name(),
        }
    }

    open spec fn spec_reads(&self) -> Seq<u64> {
        match self {
            PassType::Graphics(n) => n.spec_reads(),
            PassType::Copy(n) => n.spec_reads(),
            PassType::Compute(n) => n.spec_reads(),
            PassType::Present(n) => n.spec_reads(),
        }
    }

    open spec fn spec_writes(&self) -> Seq<u64> {
        match self {
            PassType::Graphics(n) => n.spec_writes(),
            PassType::Copy(n) => n.spec_writes(),
            PassType::Compute(n) => n.spec_writes(),
            PassType::Present(n) => n.spec_writes(),
        }
    }

    fn get_name(&self) -> (name: &str) {
        match self {
            PassType::Graphics(n) => n.get_name(),
            PassType::Copy(n) => n.get_name(),
            PassType::Compute(n) => n.get_name(),
            PassType::Present(n) => n.get_name(),
        }
    }

    fn get_reads(&self) -> (reads: Vec<u64>) {
        match self {
            PassType::Graphics(n) => n.get_reads(),
            PassType::Copy(n) => n.get_reads(),
            PassType::Compute(n) => n.get_reads(),
            PassType::Present(n) => n.get_reads(),
        }
    }

    fn get_writes(&self) -> (writes: Vec<u64>) {
        match self {
            PassType::Graphics(n) => n.get_writes(),
            PassType::Copy(n) => n.get_writes(),
            PassType::Compute(n) => n.get_writes(),
            PassType::Present(n) => n.get_writes(),
        }
    }
}

/// Every pass depends on what it reads and produces what it writes:
/// - a graphics pass reads its inputs and writes its outputs, and both
///   reads and writes each render target and its depth target;
/// - a copy pass reads its sources and writes its destinations;
/// - a compute pass reads its inputs and writes its outputs;
/// - a present pass reads its swapchain image and writes nothing.
/// So a pass that draws into an image (as a color or a depth attachment)
/// is a writer of that image, which the passes reading it depend on.
pub proof fn law_passes_touch_their_resources<F, P, V, B>(pass: PassType<F, P, V, B>)
    ensures
        match pass {
            PassType::Graphics(n) => {
                &&& forall|k: int| 0 <= k < n.inputs@.len() ==> pass.spec_reads().contains(#[trigger] n.inputs@[k].resource)
                &&& forall|k: int| 0 <= k < n.outputs@.len() ==> pass.spec_writes().contains(#[trigger] n.outputs@[k].resource)
                &&& forall|k: int| 0 <= k < n.render_targets@.len() ==> pass.spec_reads().contains(
                    #[trigger] n.render_targets@[k].resource_image) && pass.spec_writes().contains(n.render_targets@[k].resource_image)
                &&& (n.depth_target matches Some(d) ==> pass.spec_reads().contains(d.resource_image)
                    && pass.spec_writes().contains(d.resource_image))
            },
            PassType::Copy(n) => {
                &&& forall|k: int| 0 <= k < n.copy_sources@.len() ==> pass.spec_reads().contains(#[trigger] n.copy_sources@[k])
                &&& forall|k: int| 0 <= k < n.copy_dests@.len() ==> pass.spec_writes().contains(#[trigger] n.copy_dests@[k])
            },
            PassType::Compute(n) => {
                &&& forall|k: int| 0 <= k < n.inputs@.len() ==> pass.spec_reads().contains(#[trigger] n.inputs@[k].resource)
                &&& forall|k: int| 0 <= k < n.outputs@.len() ==> pass.spec_writes().contains(#[trigger] n.outputs@[k].resource)
            },
            PassType::Present(n) => {
                &&& pass.spec_reads().contains(n.swapchain_image)
                &&& pass.spec_writes().len() == 0
            },
        },
{
    match pass {
        PassType::Graphics(n) => {
            let bi = binding_handles(n.inputs@);
            let bo = binding_handles(n.outputs@);
            let at = attachment_handles(n.render_targets@);
            let od = optional_handle(n.depth_target);
            assert forall|k: int| 0 <= k < n.inputs@.len() implies pass.spec_reads().contains(#[trigger] n.inputs@[k].resource) by {
                assert(pass.spec_reads()[k] == bi[k]);
            }
            assert forall|k: int| 0 <= k < n.outputs@.len() implies pass.spec_writes().contains(#[trigger] n.outputs@[k].resource) by {
                assert(pass.spec_writes()[k] == bo[k]);
            }
            assert forall|k: int| 0 <= k < n.render_targets@.len() implies pass.spec_reads().contains(
                #[trigger] n.render_targets@[k].resource_image) && pass.spec_writes().contains(n.render_targets@[k].resource_image) by {
                assert(pass.spec_reads()[bi.len() + k] == at[k]);
                assert(pass.spec_writes()[bo.len() + k] == at[k]);
            }
            if let Some(d) = n.depth_target {
                assert(pass.spec_reads()[(bi.len() + at.len()) as int] == d.resource_image);
                assert(pass.spec_writes()[(bo.len() + at.len()) as int] == d.resource_image);
            }
        },
        PassType::Copy(n) => {
            assert forall|k: int| 0 <= k < n.copy_sources@.len() implies pass.spec_reads().contains(#[trigger] n.copy_sources@[k]) by {
                assert(pass.spec_reads()[k] == n.copy_sources@[k]);
            }
            assert forall|k: int| 0 <= k < n.copy_dests@.len() implies pass.spec_writes().contains(#[trigger] n.copy_dests@[k]) by {
                assert(pass.spec_writes()[k] == n.copy_dests@[k]);
            }
        },
        PassType::Compute(n) => {
            assert forall|k: int| 0 <= k < n.inputs@.len() implies pass.spec_reads().contains(#[trigger] n.inputs@[k].resource) by {
                assert(pass.spec_reads()[k] == n.inputs@[k].resource);
            }
            assert forall|k: int| 0 <= k < n.outputs@.len() implies pass.spec_writes().contains(#[trigger] n.outputs@[k].resource) by {
                assert(pass.spec_writes()[k] == n.outputs@[k].resource);
            }
        },
        PassType::Present(n) => {
            assert(pass.spec_reads()[0] == n.swapchain_image);
        },
    }
}

} // verus!
