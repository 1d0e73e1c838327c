//! Tasks and projects of a remote task-management service, with the JSON wire
//! format that the service reads and writes.
//!
//! What the service sends (the read model) and what it accepts (the write
//! model) differ. A task is read with everything the service knows of it. It is
//! written with the five fields that a client sets and with its due date in one
//! form only: the exact time where there is one, else the day, else the
//! description in free text; a task without a due date is written without any
//! due key.
//!
//! - [`model`] holds the records, their accessors and their codec, and the laws
//!   of the codec.
//! - [`wire`] reads and builds the members of a wire object.
//! - [`json`] is the JSON document that both work on; `serde_json` parses and
//!   prints it.
//! - [`error`] names the keys of the wire format and the failures.

pub mod error;
pub mod json;
pub mod model;
pub mod wire;
