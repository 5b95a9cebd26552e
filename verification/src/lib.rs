//! Verified core of a retro console room simulator: signal and power routing
//! between wall outlets, power strips, consoles and a CRT television, the
//! device state machines, controller mapping, the libretro input and video
//! conversion rules, and the on-screen bitmap font renderer.
use vstd::prelude::*;

pub mod signals;
pub mod sockets;
pub mod text;
pub mod registry;
pub mod devices;
pub mod cables;
pub mod graph;
pub mod mains;
pub mod screen;
pub mod osd;
pub mod framebuffer;
pub mod media;
pub mod room;
pub mod libretro;
pub mod worker;
pub mod interaction;
pub mod desktop;
pub mod cli;
pub mod noise;
pub mod sound;

verus! {
} // verus!
