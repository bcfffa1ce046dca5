//! Moving and resizing any window by holding a modifier key and dragging the
//! mouse over it, with a snap preview at the screen edges, opacity by the
//! wheel and always-on-top by the middle button.
//!
//! This library is the engine: it decides, for every input event and every
//! answer of the platform, what happens next. It performs no platform call
//! itself. The program around it installs the input hooks, runs the threads
//! and carries the decisions out.
//!
//! - [`config`]: the settings.
//! - [`hook`]: the hook layer, its modifier bitmask and its verdicts.
//! - [`queue`]: the order in which queued events are handled.
//! - [`worker`]: the state machine of grabs.
//! - [`grab`]: the geometry of moving and resizing.
//! - [`snap`]: snap zones.
//! - [`overlay`]: the snap preview.
//! - [`window_manager`]: decisions about windows.
//! - [`commands`]: the entry points of the settings layer.
//! - [`geometry`], [`text`]: points, rectangles and names.

pub mod commands;
pub mod config;
pub mod geometry;
pub mod grab;
pub mod hook;
pub mod overlay;
pub mod queue;
pub mod snap;
pub mod text;
pub mod window_manager;
pub mod worker;
