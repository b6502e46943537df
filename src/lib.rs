//! Synthesizes fake keyboard and mouse input against a display server.
//!
//! The library decides; a driver performs. `Session` is a state machine that
//! names each native call to make next (`Command`) and takes its result back
//! (`Reply`), so that every decision of an invocation is verified here while
//! the native calls themselves stay with the driver.
pub mod input;
pub mod request;
pub mod session;
