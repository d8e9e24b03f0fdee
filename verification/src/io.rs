//! Input and output types

pub mod buffer;
pub mod input;
pub mod output;
