//! Decoding of `multipart/form-data` bodies into form fields.
//!
//! The parts of a body arrive one after the other, each as a head and a run
//! of chunks, and some are nested sequences of parts. A [`Decoder`] decides
//! what is done with each: a part with a file name is spooled to temporary
//! storage, a part with a name alone is gathered in memory, a part without a
//! name is passed over, and a part that is no form data ends the output. The
//! decoder pulls nothing and stores nothing itself: it is told what happened,
//! and says what is to happen next.

/// Byte buffers.
pub mod buffer;
/// The decoder and what it exchanges with its driver.
pub mod decoder;
/// Content dispositions and the routes they lead to.
pub mod disposition;
/// Errors and their HTTP answers.
pub mod error;
/// Fields and their bodies.
pub mod field;
/// Runs of events, and what holds of them.
pub mod trace;

pub use crate::decoder::{Action, Decoder, Event};
pub use crate::disposition::Disposition;
pub use crate::error::{Error, ErrorKind, ErrorResponse};
pub use crate::field::{Field, FormData, PartHead};
