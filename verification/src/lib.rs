//! A USB HID gadget that presents a Linux host as a Nintendo Switch Pro
//! Controller: the controller state, its input report, the report descriptor,
//! and the lifecycle of the configfs gadget that carries them.

pub mod button;
pub mod state;
pub mod report;
pub mod error;
pub mod text;
pub mod action;
pub mod plan;
pub mod descriptor;
pub mod gadget;
pub mod lifecycle;
pub mod modules;
pub mod transport;
pub mod script;
pub mod command;
pub mod session;
