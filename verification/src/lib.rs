//! Live audio features from a remote extraction service.
//!
//! A client streams microphone audio to the service and gets frames of audio
//! descriptors back. This crate holds the rules of that exchange and the
//! state derived from it: the handshake that opens a session, the messages
//! on the wire, the bounded queue between the receiving and the consuming
//! side, and the smoothed snapshot that a consumer reads once per tick.
//!
//! The crate does no input or output and no floating-point arithmetic.
//! Numbers travel as IEEE-754 bit patterns, and the caller supplies the
//! transport, the audio device and the blending arithmetic.

pub mod audio;
pub mod descriptor;
pub mod frame;
pub mod json;
pub mod ring;
pub mod session;
pub mod wire;
