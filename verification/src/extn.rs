//! Core classes of the runtime that are written in the host language.

pub mod matchdata;
pub mod regexp;
