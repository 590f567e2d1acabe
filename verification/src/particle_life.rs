//! The particle simulation's state on the host: the global constants, the
//! interaction rules, the particles of a reset, and the double-buffered
//! update that stages them and records the compute pass.

pub mod commands;
pub mod layout;
pub mod particle;
pub mod rules;
pub mod world;

pub use commands::Buffer;
pub use commands::BufferDesc;
pub use commands::Command;
pub use particle::Particle;
pub use particle::ParticleKind;
pub use rules::Rule;
pub use rules::Rules;
pub use world::ShaderGlobalConstants;
pub use world::Tick;
pub use world::World;
pub use world::WorldView;
