//! A small verified library behind a graphics-API warm-up program: it builds
//! the application metadata for instance creation, models the instance's
//! create/destroy lifecycle, and decides how a window event loop reacts to
//! each incoming event (close, Escape, redraw) until it must exit.

pub mod events;
pub mod instance;
pub mod platforms;
pub mod version;
pub mod vulkan_app;
