//! Decision logic of a minimal Vulkan bootstrap: which validation layers and
//! device extensions count as supported, which queue families are selected,
//! which physical device, surface format, present mode and swapchain shape
//! are chosen, and how window events drive the main loop.
//!
//! The functions here work on plain values (byte strings, integers, small
//! records); the surrounding program performs the actual driver and window
//! calls and hands their results in.

pub mod config;
pub mod debug_log;
pub mod device;
pub mod events;
pub mod names;
pub mod queues;
pub mod swapchain;
