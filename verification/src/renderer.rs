//! Frame pipelining: the frame slots, the manager that cycles through them,
//! and the presentation surface.

pub mod frame;
pub mod frame_manager;
pub mod points;
pub mod protocol;
pub mod swap_chain;

pub use frame::CommandList;
pub use frame::Frame;
pub use frame::FrameView;
pub use frame_manager::FrameManager;
pub use frame_manager::FrameManagerView;
pub use frame_manager::FrameStart;
pub use protocol::FrameOp;
pub use swap_chain::make_swap_chain;
pub use swap_chain::Present;
pub use swap_chain::Rect;
pub use swap_chain::SwapChain;
pub use swap_chain::SwapChainView;
pub use swap_chain::Viewport;
pub use swap_chain::FRAME_COUNT;

use vstd::prelude::*;

verus! {

/// The renderer's state on the host: the presentation surface and the frame
/// manager. The frame manager is gone once the renderer was shut down.
pub struct Renderer {
    swap_chain: SwapChain,
    frame_manager: Option<FrameManager>,
}

/// The renderer as contracts see it.
pub struct RendererView {
    pub swap_chain: SwapChainView,
    pub frame_manager: Option<FrameManagerView>,
}

impl RendererView {
    /// The renderer's invariant: that of its frame manager.
    pub open spec fn wf(self) -> bool {
        self.frame_manager is Some ==> self.frame_manager->0.wf()
    }

    /// Whether the renderer can run frames: it was not shut down.
    pub open spec fn running(self) -> bool {
        self.frame_manager is Some
    }

    /// Whether a frame is being recorded.
    pub open spec fn started(self) -> bool {
        self.frame_manager is Some && self.frame_manager->0.started()
    }
}

impl View for Renderer {
    type V = RendererView;

    closed spec fn view(&self) -> RendererView {
        RendererView {
            swap_chain: self.swap_chain@,
            frame_manager: match self.frame_manager {
                Some(manager) => Some(manager@),
                None => None,
            },
        }
    }
}

impl Renderer {
    /// The renderer's invariant. `new` establishes it and every method keeps
    /// it.
    pub open spec fn wf(&self) -> bool {
        self@.wf()
    }

    /// A renderer for a surface of `width` by `height` pixels, with
    /// `FRAME_COUNT` frame slots, none of which has started.
    pub fn new(width: u32, height: u32) -> (renderer: Renderer)
        requires
            width <= i32::MAX,
            height <= i32::MAX,
        ensures
            renderer.wf(),
            renderer@.swap_chain == SwapChainView::of_size(width, height),
            renderer@.frame_manager == Some(FrameManagerView::initial(FRAME_COUNT)),
    {
        Renderer { swap_chain: SwapChain::new(width, height), frame_manager: Some(FrameManager::new(FRAME_COUNT)) }
    }

    /// Whether the renderer can run frames: it was not shut down.
    pub fn is_running(&self) -> (running: bool)
        ensures
            running == self@.running(),
    {
        self.frame_manager.is_some()
    }

    /// Whether a frame is being recorded.
    pub fn is_started(&self) -> (started: bool)
        requires
            self.wf(),
        ensures
            started == self@.started(),
    {
        match &self.frame_manager {
            Some(manager) => manager.is_started(),
            None => false,
        }
    }

    /// The fence value that the next submission signals, while the renderer
    /// runs.
    pub fn next_fence_value(&self) -> (value: Option<u64>)
        ensures
            value is Some <==> self@.running(),
            value is Some ==> value->0 == self@.frame_manager->0.next_fence_value,
    {
        match &self.frame_manager {
            Some(manager) => Some(manager.next_fence_value()),
            None => None,
        }
    }

    /// Tries to start the next frame; see `FrameManager::start_new_frame`.
    pub fn start_new_frame(&mut self, completed: u64) -> (start: FrameStart)
        requires
            old(self).wf(),
            old(self)@.running(),
            !old(self)@.started(),
        ensures
            final(self).wf(),
            final(self)@.swap_chain == old(self)@.swap_chain,
            final(self)@.frame_manager == Some(
                old(self)@.frame_manager->0.start_attempted(completed as nat),
            ),
            start is Blocked <==> old(self)@.frame_manager->0.blocked_on(completed as nat) is Some,
            start is Blocked ==> Some(start->fence_value as nat) == old(self)@.frame_manager->0.blocked_on(
                completed as nat,
            ),
            start is Ready ==> start->slot == old(self)@.frame_manager->0.next_index(),
            start is Ready <==> old(self)@.frame_manager->0.outstanding(completed as nat)
                < old(self)@.frame_manager->0.frames.len(),
    {
        let mut manager = self.frame_manager.take().unwrap();
        let start = manager.start_new_frame(completed);
        self.frame_manager = Some(manager);
        start
    }

    /// Ends the active frame and returns the fence value for the queue to
    /// signal; see `FrameManager::end_frame`.
    pub fn end_frame(&mut self) -> (signal: u64)
        requires
            old(self).wf(),
            old(self)@.started(),
            old(self)@.frame_manager->0.next_fence_value < u64::MAX,
        ensures
            final(self).wf(),
            final(self)@.swap_chain == old(self)@.swap_chain,
            final(self)@.frame_manager == Some(old(self)@.frame_manager->0.ended()),
            signal == old(self)@.frame_manager->0.next_fence_value,
    {
        let mut manager = self.frame_manager.take().unwrap();
        let signal = manager.end_frame();
        self.frame_manager = Some(manager);
        signal
    }

    /// Hands out a command list of the active frame. The caller binds the
    /// renderer's descriptor heap to it before anything else is recorded.
    pub fn new_command_list(&mut self) -> (list: CommandList)
        requires
            old(self).wf(),
            old(self)@.started(),
        ensures
            final(self).wf(),
            final(self)@.swap_chain == old(self)@.swap_chain,
            final(self)@.frame_manager == Some(old(self)@.frame_manager->0.acquired()),
            list == old(self)@.frame_manager->0.frames[old(self)@.frame_manager->0.frame_index as int].next_list(),
    {
        let mut manager = self.frame_manager.take().unwrap();
        let list = manager.new_command_list();
        self.frame_manager = Some(manager);
        list
    }

    /// The viewport and the scissor rectangle to set on a command list that
    /// draws to the surface.
    pub fn set_viewports_and_scissors(&self) -> (state: (Viewport, Rect))
        ensures
            state.0 == self@.swap_chain.viewport,
            state.1 == self@.swap_chain.scissor_rect,
    {
        self.swap_chain.set_viewports_and_scissors()
    }

    /// The viewport.
    pub fn get_viewport(&self) -> (viewport: &Viewport)
        ensures
            *viewport == self@.swap_chain.viewport,
    {
        self.swap_chain.get_viewport()
    }

    /// The back buffer to render to, given the device's current back buffer
    /// index.
    pub fn get_render_target(&self, back_buffer_index: u32) -> (target: usize)
        requires
            back_buffer_index < FRAME_COUNT,
        ensures
            target == back_buffer_index,
    {
        self.swap_chain.get_render_target(back_buffer_index)
    }

    /// The position of the current back buffer's view in the heap of render
    /// target views.
    pub fn get_rtv_handle(&self, back_buffer_index: u32) -> (descriptor: usize)
        requires
            back_buffer_index < FRAME_COUNT,
        ensures
            descriptor == back_buffer_index,
    {
        self.swap_chain.get_rtv_handle(back_buffer_index)
    }

    /// How the rendered image is presented.
    pub fn present(&self) -> (present: Present)
        ensures
            present == (Present { sync_interval: swap_chain::SYNC_INTERVAL, flags: 0 }),
    {
        self.swap_chain.present()
    }

    /// Shuts the renderer down: the frame manager is given up, and the
    /// result holds the fence values that the caller has to wait for before
    /// it releases any device resource, so that no work in flight refers to
    /// freed memory. Shutting down again asks for no wait.
    pub fn shutdown(&mut self, completed: u64) -> (waits: Vec<u64>)
        ensures
            final(self)@.swap_chain == old(self)@.swap_chain,
            final(self)@.frame_manager is None,
            waits@.map_values(|v: u64| v as nat) == (match old(self)@.frame_manager {
                Some(manager) => manager.pending(completed as nat),
                None => Seq::empty(),
            }),
    {
        match self.frame_manager.take() {
            Some(manager) => manager.shutdown(completed),
            None => {
                let waits: Vec<u64> = Vec::new();
                assert(waits@.map_values(|v: u64| v as nat) =~= Seq::<nat>::empty());
                waits
            },
        }
    }
}

} // verus!
