//! A small password keeper: random password generation over a fixed
//! character pool, the line format of the flat-file store, and the
//! decisions of the retrieval flow.

pub mod charset;
pub mod cli;
pub mod error;
pub mod generator;
pub mod record;
pub mod selector;
pub mod store;
pub mod text;
