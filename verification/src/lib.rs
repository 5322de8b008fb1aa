//! Native-side decisions of a desktop sticky-note application.
//!
//! The application shows one window that behaves like a widget on the desktop
//! wallpaper: it stays out of the taskbar, never takes input focus and lies
//! below every ordinary window. A tray icon shows and hides it.
//!
//! This crate decides; it touches no window. Each operation takes what the
//! host has read from the window as plain values and returns the requests that
//! the host is to carry out, in order. The modules `window` and `tray` also
//! hold a model of what those requests do to a window, and the operations
//! state their effect over that model.

pub mod bootstrap;
pub mod pinning;
pub mod platform;
pub mod tray;
pub mod win32;
pub mod window;
