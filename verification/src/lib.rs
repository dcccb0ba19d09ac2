//! Verified logic of a baseview backend for the Xilem UI framework.
//!
//! A plugin host owns the main thread and the event loop, so the window only
//! ever reacts: the host's windowing layer calls in with an event, a resize, a
//! poll or a draw request, and the backend answers. What follows from an event, a
//! resize, a frame, a signal or a message stands in this crate as functions over
//! plain values, each with a contract; windows, the GPU, the widget tree and the
//! async runtime are driven from outside, by code that performs the actions
//! decided here. That code also settles what this crate takes as given: whether
//! two presses are near each other, how sizes are rounded to pixels, in which
//! order a poll empties signals and messages, and which widget gets the focus when
//! no other has it.
//!
//! - [`event`]: translation of window-system events into pointer events
//! - [`handler`]: the per-window state, resizing and the frame cycle
//! - [`signal`]: the widget tree's pending signals and what is done about them
//! - [`driver`]: the reactive cycle of application state and view tree
//! - [`render`]: set-up, resizing and painting of the GPU surface
//! - [`app`]: the builder that collects what a window is opened with
//!
//! Coordinates, sizes and scale factors are values of a type parameter `C`. The
//! crate carries them and compares them; arithmetic on them happens outside.

pub mod app;
pub mod clock;
pub mod driver;
pub mod event;
pub mod geometry;
pub mod handler;
pub mod input;
pub mod render;
pub mod signal;
