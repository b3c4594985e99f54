//! The chrome panel of an embedding browser shell: the decisions that sit
//! between an immediate-mode toolbar and the content views it frames.
//!
//! The host draws the widgets and talks to the window system; this library
//! decides what each interaction means. Lengths are integers: pointer
//! positions and the toolbar height count fractions of a device-independent
//! unit, in a resolution of the host's choosing, and content rectangles
//! count device pixels.
pub mod geometry;
pub mod webview;
pub mod events;
pub mod tabs;
pub mod toolbar;
pub mod blit;
pub mod panel;
pub mod laws;
