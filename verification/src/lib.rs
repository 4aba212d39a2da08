//! Verified core of a small real-time 3D scene engine.
//!
//! The crate keeps the bookkeeping that a frame depends on: which entities
//! exist and which physics body each one follows, how a mesh is laid out in
//! device memory, which pipeline and buffer slots a draw uses, and which
//! camera gestures are currently allowed. Scalars that end up in device
//! memory are carried as 32-bit words holding IEEE-754 single-precision bit
//! patterns; the crate never computes with them.

pub mod game;
pub mod mesh;
pub mod movement;
pub mod physics;
pub mod renderer;
pub mod scalar;
pub mod scene;
pub mod start;
pub mod viewport;

pub use game::Game;
pub use mesh::{Geometry, Material, Mesh};
pub use movement::Movement;
pub use renderer::{Color, Renderer};
pub use scene::Scene;
pub use viewport::Viewport;
