//! Frame pacing and double-buffered simulation state for a GPU particle
//! simulation.
//!
//! The library holds the decisions of the engine and none of the device
//! handles: which frame slot records next and what it has to wait for, which
//! command list a slot hands out, what is staged for upload on a tick and
//! which commands are recorded for it. The program around it performs the
//! device calls in the order given and reports back what the device
//! signalled.
//!
//! - [`renderer`]: the frame slots and their manager, the presentation
//!   surface, and the draw of the simulation's vertices.
//! - [`particle_life`]: the simulation state, its memory layout and the
//!   update of each tick.
//! - [`d3dx12`]: descriptions of device resources with their defaults.
//! - [`imgui_manager`]: routing of window events between the debug overlay
//!   and the application.

pub mod d3dx12;
pub mod imgui_manager;
pub mod particle_life;
pub mod renderer;
