//! Polling of kernel input devices without ever blocking: the rules by which
//! devices are selected, set up, polled and their events turned into text.

pub mod classify;
pub mod decimal;
pub mod dispatch;
pub mod event;
pub mod names;
pub mod registry;
pub mod source;
