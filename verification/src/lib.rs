//! Control logic for a hardware controller that drives a patch runner over OSC:
//! MIDI messages to and from the device, the menu state machines, the
//! bookkeeping of instances, parameters and views, and the commands that
//! the menus emit.
use vstd::prelude::*;

pub mod commands;
pub mod config;
pub mod context;
pub mod controller;
pub mod dispatch;
pub mod display;
pub mod events;
pub mod host;
pub mod incoming;
pub mod input;
pub mod instances;
pub mod json;
pub mod laws;
pub mod machines;
pub mod midi;
pub mod names;
pub mod nav;
pub mod osc;
pub mod popup;
pub mod screen;
pub mod text;
pub mod userview;
pub mod view;
pub mod views;

verus! {

} // verus!
