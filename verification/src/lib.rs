//! A pointer that never rests: the rules by which a background agent nudges
//! the mouse pointer at fixed intervals so that the session never looks idle.
//!
//! The crate holds the decisions only. [`pattern`] says in which direction
//! the pointer goes next, [`position`] where that takes it, [`config`] what
//! the agent was asked to do, and [`control`] in which order the pointer
//! device is queried, moved, clicked and left alone. [`text`] writes numbers
//! out for the messages. Talking to the device, sleeping and logging are the
//! caller's part.

pub mod config;
pub mod control;
pub mod pattern;
pub mod position;
pub mod text;
