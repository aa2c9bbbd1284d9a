//! Command bridge between an interactive front end and a USB oscilloscope /
//! waveform generator: the command vocabulary, the device worker's dispatch,
//! the caller's configuration snapshot and bring-up procedure, and the
//! integer side of waveform display and numeric text entry.

pub mod command;
pub mod message;
pub mod params;
pub mod scope;
pub mod snapshot;
pub mod state;
pub mod text;
pub mod usize_formatter;
pub mod worker;
