//! Core logic of an animated star-sprite renderer.
//!
//! The library holds the parts of the renderer that are plain computation:
//! the star outline and its index pattern, the vertex- and instance-buffer
//! layouts, the randomized per-instance parameters, the time uniform, and
//! the decisions the window event loop takes. The GPU and windowing calls
//! themselves live outside the library.

pub mod events;
pub mod frame;
pub mod instance;
pub mod layout;
pub mod time_uniform;
pub mod vertex;
