//! Interaction logic of the Phyzzy soft-body viewer: which object the
//! pointer is over, which one is selected, which mass is being dragged,
//! and which requests the viewer sends to the physics model as a result.
//!
//! Every geometric test (is the pointer within a mass's radius?) is made
//! by the caller, which hands the library one `bool` per mass; the library
//! decides what follows from those answers.

pub mod pointer;
pub mod command;
pub mod phyzzy_runner;
pub mod phyzzy_viewport;
pub mod phyzzy_interact;
pub mod phyzzy_io;
