//! Decision logic of a motion-triggered camera notifier.
//!
//! A motion sensor raises an edge, a still image is captured by an external
//! utility, and the image is relayed to a notification endpoint. This crate
//! holds every rule of that cycle as verified code over plain values: the
//! name of the image file, the command line of the capture utility, the
//! choice between the image notification and its text fallbacks, and the
//! loop that ties them together. The program around it performs the actual
//! sensor reads, process spawns and network calls.

pub mod capture;
pub mod config;
pub mod detection;
pub mod error;
pub mod notify;
pub mod text;
pub mod timestamp;

pub use crate::capture::get_options;
pub use crate::error::CatCamError;
