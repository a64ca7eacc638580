//! The core of a peer-to-peer voice calling application: call state, audio framing, device
//! choice, tickets, identity, and the decisions of the window.
//!
//! The surrounding program does the input and output. It hands plain values to this library and
//! performs the actions that come back.
pub mod audio;
pub mod call;
pub mod call_effects;
pub mod call_laws;
pub mod capture;
pub mod endpoint;
pub mod error;
pub mod frames;
pub mod function_laws;
pub mod gui;
pub mod gui_laws;
pub mod playback;
pub mod qr;
pub mod ring;
pub mod text;
pub mod ticket;
pub mod transport;

pub use call::{CallCommand, CallEvent, CallState, CoreConfig};
pub use error::VoiceError;
