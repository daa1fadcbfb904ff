//! A small real-time rendering engine: a backend-agnostic graphics layer that
//! records every GPU call it makes, and an application runtime that drives an
//! ordered stack of layers through create, event, update and destroy hooks.

pub mod vertexlayout;
pub mod gpu;
pub mod buffers;
pub mod shader;
pub mod texture;
pub mod state;
pub mod renderable;
pub mod framebuffer;
pub mod renderer;
pub mod event;
pub mod window;
pub mod layer;
pub mod application;
