//! The presentation surface: the back buffers, the viewport and scissor
//! rectangle derived from the surface size, and how a frame is presented.

use crate::d3dx12::Format;
use vstd::prelude::*;

verus! {

/// Number of back buffers of the swap chain, and of frame slots of the
/// renderer's frame manager.
pub const FRAME_COUNT: usize = 2;

/// Vertical blanks to wait for on presentation: presentation is locked to
/// the display's refresh.
pub const SYNC_INTERVAL: u32 = 1;

/// How the swap chain replaces the presented image.
#[derive(Clone, Copy, Debug, PartialEq, Eq, Structural)]
pub enum SwapEffect {
    FlipDiscard,
}

/// What the back buffers are used for.
#[derive(Clone, Copy, Debug, PartialEq, Eq, Structural)]
pub enum BufferUsage {
    RenderTargetOutput,
}

/// The area of the surface that is drawn to, in pixels. It covers the whole
/// depth range.
#[derive(Clone, Copy, Debug, PartialEq, Eq, Structural)]
pub struct Viewport {
    pub top_left_x: u32,
    pub top_left_y: u32,
    pub width: u32,
    pub height: u32,
}

/// A rectangle of pixels: left and top inclusive, right and bottom exclusive.
#[derive(Clone, Copy, Debug, PartialEq, Eq, Structural)]
pub struct Rect {
    pub left: i32,
    pub top: i32,
    pub right: i32,
    pub bottom: i32,
}

/// The parameters a swap chain is created with.
#[derive(Clone, Copy, Debug, PartialEq, Eq, Structural)]
pub struct SwapChainDesc {
    pub buffer_count: u32,
    pub width: u32,
    pub height: u32,
    pub format: Format,
    pub buffer_usage: BufferUsage,
    pub swap_effect: SwapEffect,
    pub sample_count: u32,
}

/// The parameters of a presentation.
#[derive(Clone, Copy, Debug, PartialEq, Eq, Structural)]
pub struct Present {
    pub sync_interval: u32,
    pub flags: u32,
}

/// The parameters of the swap chain for a surface of the given size: one
/// back buffer per frame slot, single sampled, discarded after presentation.
pub fn make_swap_chain(width: u32, height: u32) -> (desc: SwapChainDesc)
    ensures
        desc == (SwapChainDesc {
            buffer_count: FRAME_COUNT as u32,
            width,
            height,
            format: Format::R8G8B8A8Unorm,
            buffer_usage: BufferUsage::RenderTargetOutput,
            swap_effect: SwapEffect::FlipDiscard,
            sample_count: 1,
        }),
{
    SwapChainDesc {
        buffer_count: FRAME_COUNT as u32,
        width,
        height,
        format: Format::R8G8B8A8Unorm,
        buffer_usage: BufferUsage::RenderTargetOutput,
        swap_effect: SwapEffect::FlipDiscard,
        sample_count: 1,
    }
}

/// The presentation surface. Viewport and scissor rectangle are derived from
/// the surface size once and do not change.
pub struct SwapChain {
    viewport: Viewport,
    scissor_rect: Rect,
}

/// The swap chain as contracts see it.
pub struct SwapChainView {
    pub viewport: Viewport,
    pub scissor_rect: Rect,
}

impl SwapChainView {
    /// The swap chain of a surface of the given size: viewport and scissor
    /// rectangle cover all of it.
    pub open spec fn of_size(width: u32, height: u32) -> SwapChainView {
        SwapChainView {
            viewport: Viewport { top_left_x: 0, top_left_y: 0, width, height },
            scissor_rect: Rect { left: 0, top: 0, right: width as i32, bottom: height as i32 },
        }
    }
}

impl View for SwapChain {
    type V = SwapChainView;

    closed spec fn view(&self) -> SwapChainView {
        SwapChainView { viewport: self.viewport, scissor_rect: self.scissor_rect }
    }
}

impl SwapChain {
    /// The swap chain of a surface of `width` by `height` pixels.
    pub fn new(width: u32, height: u32) -> (swap_chain: SwapChain)
        requires
            width <= i32::MAX,
            height <= i32::MAX,
        ensures
            swap_chain@ == SwapChainView::of_size(width, height),
    {
        SwapChain {
            viewport: Viewport { top_left_x: 0, top_left_y: 0, width, height },
            scissor_rect: Rect { left: 0, top: 0, right: width as i32, bottom: height as i32 },
        }
    }

    /// The viewport and the scissor rectangle to set on a command list that
    /// draws to the surface.
    pub fn set_viewports_and_scissors(&self) -> (state: (Viewport, Rect))
        ensures
            state.0 == self@.viewport,
            state.1 == self@.scissor_rect,
    {
        (self.viewport, self.scissor_rect)
    }

    /// The viewport.
    pub fn get_viewport(&self) -> (viewport: &Viewport)
        ensures
            *viewport == self@.viewport,
    {
        &self.viewport
    }

    /// The back buffer to render to. The device owns the choice: the caller
    /// asks it for its current back buffer index anew for every frame and
    /// passes it in; nothing is remembered across a presentation.
    pub fn get_render_target(&self, back_buffer_index: u32) -> (target: usize)
        requires
            back_buffer_index < FRAME_COUNT,
        ensures
            target == back_buffer_index,
    {
        back_buffer_index as usize
    }

    /// The position, in the heap of render target views, of the view of the
    /// back buffer to render to.
    pub fn get_rtv_handle(&self, back_buffer_index: u32) -> (descriptor: usize)
        requires
            back_buffer_index < FRAME_COUNT,
        ensures
            descriptor == back_buffer_index,
    {
        back_buffer_index as usize
    }

    /// How the rendered image is presented: at the next vertical blank, with
    /// no flags.
    pub fn present(&self) -> (present: Present)
        ensures
            present == (Present { sync_interval: SYNC_INTERVAL, flags: 0 }),
    {
        Present { sync_interval: SYNC_INTERVAL, flags: 0 }
    }
}

} // verus!
