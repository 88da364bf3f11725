//! Ember: the decisions of a small 3D engine, with their proofs.
//!
//! The engine draws a scene of entities with Vulkan. Everything that talks
//! to the window or to the device lives outside this library; the library
//! decides. Its centre is the frame protocol of the `render_manager`: told
//! what the device reported, it says what is to be done next, keeps the
//! swapchain with its framebuffers and viewport together, and hands the
//! completion of each frame on to the next. Around it stand the recording
//! of a frame's commands, the cache of the pipelines of the draw systems,
//! the meshes and their one-time upload, and the small systems of input,
//! terrain and user interface.
//!
//! Numbers that the device reads as single-precision floats (coordinates,
//! colours) are carried as their 32-bit words and never computed with.

pub mod application;
pub mod device;
pub mod frame;
pub mod frame_laws;
pub mod geometry;
pub mod geometry_init;
pub mod handles;
pub mod input;
pub mod pipeline;
pub mod recording;
pub mod render_manager;
pub mod renderable;
pub mod scene;
pub mod swapchain;
pub mod terrain;
pub mod ui;
