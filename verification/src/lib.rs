//! Slipstream: the decision logic of a streaming chat-completion proxy.
//!
//! A chat request is translated into one invocation of an inference backend,
//! and the chunks that the backend streams back are turned, one by one, into
//! the events sent to the caller. Everything here works on plain values; the
//! sockets, the backend client and the task scheduling live with the caller.

pub mod endpoint;
pub mod error;
pub mod invocation;
pub mod relay;
pub mod request;
pub mod text;
pub mod theorems;
