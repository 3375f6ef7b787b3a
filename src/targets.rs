//! The render pass and the framebuffers that the frames draw into.
use vstd::prelude::*;
use crate::surface::Extent2D;

verus! {

/// What happens to an attachment's contents when a pass begins.
#[derive(Clone, Copy, Debug, PartialEq, Eq, Structural)]
pub enum LoadOp {
    Clear,
    Load,
    DontCare,
}

/// What happens to an attachment's contents when a pass ends.
#[derive(Clone, Copy, Debug, PartialEq, Eq, Structural)]
pub enum StoreOp {
    Store,
    DontCare,
}

/// The image layouts that the render pass uses.
#[derive(Clone, Copy, Debug, PartialEq, Eq, Structural)]
pub enum ImageLayout {
    Undefined,
    ColorAttachment,
    PresentSource,
}

/// The single colour attachment of the single-subpass render pass.
#[derive(Clone, Copy, Debug, PartialEq, Eq, Structural)]
pub struct RenderPassDesc {
    /// Raw API value of the chain's colour format.
    pub color_format: i32,
    pub load_op: LoadOp,
    pub store_op: StoreOp,
    pub stencil_load_op: LoadOp,
    pub stencil_store_op: StoreOp,
    pub initial_layout: ImageLayout,
    pub final_layout: ImageLayout,
    /// Layout of the attachment during the subpass.
    pub subpass_layout: ImageLayout,
}

/// One framebuffer: the image view it binds, its size and layer count.
#[derive(Clone, Copy, Debug, PartialEq, Eq, Structural)]
pub struct FramebufferDesc {
    pub view_index: usize,
    pub width: u32,
    pub height: u32,
    pub layers: u32,
}

pub open spec fn render_pass_spec(color_format: i32) -> RenderPassDesc {
    RenderPassDesc {
        color_format,
        load_op: LoadOp::Clear,
        store_op: StoreOp::Store,
        stencil_load_op: LoadOp::DontCare,
        stencil_store_op: StoreOp::DontCare,
        initial_layout: ImageLayout::Undefined,
        final_layout: ImageLayout::PresentSource,
        subpass_layout: ImageLayout::ColorAttachment,
    }
}

pub open spec fn framebuffer_spec(view_index: int, extent: Extent2D) -> FramebufferDesc {
    FramebufferDesc { view_index: view_index as usize, width: extent.width, height: extent.height, layers: 1 }
}

/// A pass that clears the chain image, keeps what was drawn, ignores
/// stencil, and leaves the image ready for presentation. No depth attachment.
pub fn render_pass_description(color_format: i32) -> (r: RenderPassDesc)
    ensures
        r == render_pass_spec(color_format),
{
    RenderPassDesc {
        color_format,
        load_op: LoadOp::Clear,
        store_op: StoreOp::Store,
        stencil_load_op: LoadOp::DontCare,
        stencil_store_op: StoreOp::DontCare,
        initial_layout: ImageLayout::Undefined,
        final_layout: ImageLayout::PresentSource,
        subpass_layout: ImageLayout::ColorAttachment,
    }
}

/// One framebuffer per image view, in the views' order, each the size of
/// the chain with one layer.
pub fn framebuffer_descriptions(view_count: usize, extent: Extent2D) -> (r: Vec<FramebufferDesc>)
    ensures
        r@.len() == view_count,
        forall|i: int| 0 <= i < view_count ==> #[trigger] r@[i] == framebuffer_spec(i, extent),
{
    let mut r: Vec<FramebufferDesc> = Vec::new();
    let mut i: usize = 0;
    while i < view_count
        invariant
            0 <= i <= view_count,
            r@.len() == i,
            forall|j: int| 0 <= j < i ==> #[trigger] r@[j] == framebuffer_spec(j, extent),
        decreases view_count - i,
    {
        r.push(FramebufferDesc { view_index: i, width: extent.width, height: extent.height, layers: 1 });
        i = i + 1;
    }
    r
}

} // verus!
