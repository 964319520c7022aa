//! duklog — an amateur-radio contact logger for POTA activations and
//! Field Day / Winter Field Day contests.
//!
//! The crate is organised bottom-up: the domain model and its validators,
//! the ADIF text formatter, the JSONL storage codec, and the interactive
//! screen state machines that an outer terminal shell drives.

pub mod adif;
pub mod json;
pub mod model;
pub mod storage;
pub mod text;
pub mod time;
pub mod tui;
