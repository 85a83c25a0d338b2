//! Framebuffer attachments and clear masks of render passes.

use vstd::prelude::*;
use crate::gl;

verus! {

/// The buffer bits a clear covers: color, depth and stencil as requested.
pub open spec fn clear_mask_spec(color: bool, depth: bool, stencil: bool) -> u32 {
    ((if color { gl::COLOR_BUFFER_BIT } else { 0 }) + (if depth { gl::DEPTH_BUFFER_BIT } else { 0 })
        + (if stencil { gl::STENCIL_BUFFER_BIT } else { 0 })) as u32
}

/// The mask passed to `glClear` for a pass action that clears the color
/// buffer, the depth buffer and the stencil buffer as requested; a zero mask
/// means no clear is issued.
pub fn clear_mask(color: bool, depth: bool, stencil: bool) -> (r: u32)
    ensures
        r == clear_mask_spec(color, depth, stencil),
        r == 0 <==> !color && !depth && !stencil,
{
    let mut bits: u32 = 0;
    if color {
        bits = bits | gl::COLOR_BUFFER_BIT;
    }
    if depth {
        let before = bits;
        bits = bits | gl::DEPTH_BUFFER_BIT;
        assert(before == 0 || before == 0x4000u32 ==> (before | 0x100u32) == before + 0x100u32)
            by (bit_vector);
    }
    if stencil {
        let before = bits;
        bits = bits | gl::STENCIL_BUFFER_BIT;
        assert(before == 0 || before == 0x4000u32 || before == 0x100u32 || before == 0x4100u32
            ==> (before | 0x400u32) == before + 0x400u32) by (bit_vector);
    }
    assert(0u32 | 0x4000u32 == 0x4000u32) by (bit_vector);
    bits
}

/// The color attachment points of a framebuffer with `n` color targets.
pub fn color_attachment_points(n: usize) -> (r: Vec<u32>)
    requires
        n <= u32::MAX - gl::COLOR_ATTACHMENT0,
    ensures
        r@.len() == n,
        forall|i: int| 0 <= i < n ==> #[trigger] r@[i] == gl::COLOR_ATTACHMENT0 + i,
{
    let mut attachments: Vec<u32> = Vec::new();
    let mut i: usize = 0;
    while i < n
        invariant
            i <= n,
            n <= u32::MAX - gl::COLOR_ATTACHMENT0,
            attachments@.len() == i,
            forall|k: int| 0 <= k < i ==> #[trigger] attachments@[k] == gl::COLOR_ATTACHMENT0 + k,
        decreases n - i,
    {
        attachments.push(gl::COLOR_ATTACHMENT0 + i as u32);
        i = i + 1;
    }
    attachments
}

/// How the framebuffer of a render pass is set up: where each color target
/// is attached, where the depth target is attached, if there is one, and
/// whether the color attachments are passed to `glDrawBuffers`.
#[derive(Debug, Clone, PartialEq, Eq)]
pub struct FramebufferPlan {
    pub color_attachments: Vec<u32>,
    pub depth_attachment: Option<u32>,
    pub set_draw_buffers: bool,
}

/// The framebuffer setup of a render pass with `n_color` color targets and,
/// if `has_depth`, a depth target. A pass without any target is refused
/// (`None`). The color targets go to consecutive color attachment points,
/// the depth target to the depth attachment point, and the draw buffers are
/// set only when there is more than one color target.
pub fn render_pass_plan(n_color: usize, has_depth: bool) -> (r: Option<FramebufferPlan>)
    requires
        n_color <= u32::MAX - gl::COLOR_ATTACHMENT0,
    ensures
        r is None <==> n_color == 0 && !has_depth,
        r matches Some(plan) ==> {
            &&& plan.color_attachments@.len() == n_color
            &&& forall|i: int| 0 <= i < n_color ==> #[trigger] plan.color_attachments@[i]
                == gl::COLOR_ATTACHMENT0 + i
            &&& plan.depth_attachment == (if has_depth { Some(gl::DEPTH_ATTACHMENT) } else { None })
            &&& plan.set_draw_buffers == (n_color > 1)
        },
{
    if n_color == 0 && !has_depth {
        return None;
    }
    let color_attachments = color_attachment_points(n_color);
    let depth_attachment = if has_depth { Some(gl::DEPTH_ATTACHMENT) } else { None };
    Some(FramebufferPlan { color_attachments, depth_attachment, set_draw_buffers: n_color > 1 })
}

} // verus!
