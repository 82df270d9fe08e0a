//! A typed resource-binding layer for GPU pipelines.
//!
//! The crate decides, on plain values, everything that has to be right before
//! a draw or a dispatch is recorded: which resource may sit in which slot of a
//! bind group, which bytes of a region a slice or a write covers, how an image
//! is laid out for upload, and which bind groups a pipeline accepts.  What it
//! returns are descriptions that a backend can carry out one for one.

pub mod bind_group;
pub mod buffer;
pub mod controls;
pub mod frames;
pub mod grid;
pub mod layout;
pub mod pipeline;
pub mod pixels;
pub mod region;
pub mod resource;
pub mod scheme;
pub mod shader;
pub mod source_text;
pub mod texture;
pub mod texture2d;
pub mod vertex;
