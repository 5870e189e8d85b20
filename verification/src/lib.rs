//! The decisions of a streaming video decode pipeline.
//!
//! A container reader, a codec and a pixel converter do the heavy work, and a
//! sink takes the result. This crate decides what each of them is asked to do
//! next and what its answer means: which packets reach the decoder, when
//! frames are asked for, what a corrupt packet costs, when the stream has
//! ended, and which bytes are written under which name.
//!
//! The caller performs each [`pipeline::Command`] and reports back with an
//! [`pipeline::Event`]:
//!
//! ```text
//! let (mut pipeline, mut command) = Pipeline::new();
//! let mut file = None;
//! while !pipeline.is_stopped() {
//!     let event = perform(command, file.take());
//!     (command, file) = pipeline.step(event);
//! }
//! ```
//!
//! Everything here works on plain values, so that every rule of the protocol
//! is stated in a contract and proved. The module [`trace`] holds what is true
//! of whole runs.

pub mod codec;
pub mod frame;
pub mod decoder;
pub mod converter;
pub mod failure;
pub mod ppm;
pub mod pipeline;
pub mod trace;
