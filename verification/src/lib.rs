//! A gateway that exposes camera devices as remotely controllable resources.
//!
//! Clients send command envelopes naming a device and an operation; the
//! gateway runs the operation against the device and answers with a response
//! envelope that carries the same transaction identifier. A started capture
//! is answered with one response per frame until it is stopped.
//!
//! The library decides and computes; it neither waits nor sends. A caller
//! hands it the text of a message ([`gateway::receive`]), runs the command
//! against the device while holding that device alone
//! ([`dispatch::cmd_process`], [`dispatch::capture_step`]), and sends what
//! comes back ([`codec::encode_response`]).

pub mod codec;
pub mod decimal;
pub mod dispatch;
pub mod envelope;
pub mod gateway;
pub mod interface;
pub mod json;
pub mod mock;
pub mod registry;
pub mod svb_camera;
