//! Decision core of a windowed rendering scaffold.
//!
//! The library holds the logic of a minimal animation loop: a handler state
//! machine that reacts to lifecycle events (activation, resize, redraw
//! request, close request) by prescribing actions for the surrounding event
//! loop, and the pixel-format negotiation policy that picks a configuration
//! by its multisample count. The surrounding loop (windowing, OpenGL context
//! and surface work) lives outside the library and merely carries out the
//! prescribed actions.

pub mod config;
pub mod handler;
