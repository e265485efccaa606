//! Verified core of a small real-time renderer: image descriptions and
//! mipmap pyramids, the commands that bring an image onto the GPU, a render
//! graph of named passes over named image attachments, and the engine that
//! paces frames against a bounded number of frames in flight.
//!
//! Nothing here talks to a GPU. Every function maps plain values to plain
//! values (descriptions, commands, decisions) and states what it returns;
//! the caller performs the commands and reports what the device answered.

pub mod error;
pub mod types;
pub mod mip;
pub mod transition;
pub mod command;
pub mod description;
pub mod image;
pub mod names;
pub mod rendergraph;
pub mod frame;
pub mod device;
pub mod cube;
