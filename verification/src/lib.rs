//! Typed, ownership-safe marshaling layer for the RKNN neural-network
//! accelerator runtime.
//!
//! Everything here works on plain values: flag sets, error codes, tensor
//! attributes, typed buffer views, input/output descriptors and tensors.
//! The calls into the vendor runtime themselves are made by the caller, which
//! hands the raw results to the functions of this crate.

/// Native constants and fixed-layout records of the runtime protocol
pub mod sys;

/// Facts about bit sets
pub mod bits;

/// Flags for loading a model
pub mod api;

/// Decimal rendering used by the textual forms
pub mod text;

/// Error type
pub mod error;

/// Query types
pub mod query;

/// The session with the runtime
pub mod rknn;

/// Input and output types
pub mod io;

/// Tensor types
pub mod tensor;

/// Utility functions
pub mod utils;

/// Markers for flattening images
pub mod markers;

/// Flattening images into tensors
pub mod implementation;

pub use error::Error;
