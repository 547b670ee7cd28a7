//! An immediate-mode user-interface layout engine: application code rebuilds
//! a declarative element tree each frame; the engine measures it, lays it out
//! and emits a backend-agnostic list of draw commands for a renderer.

pub mod color;
pub mod draw;
pub mod element;
pub mod geometry;
pub mod image;
pub mod instance;
pub mod laws;
pub mod layout;
pub mod num;
