//! Request-batch processing for a text-classification and embedding service.
//!
//! A batch of raw texts is validated, normalised and handed item by item to
//! a model; every item yields a payload of its own, so that one item's
//! failure never aborts its siblings.  The model is any callable over plain
//! values; probabilities, thresholds and vector components travel as the bit
//! patterns of single-precision numbers.

pub mod error;
pub mod decimal;
pub mod chars;
pub mod text;
pub mod label;
pub mod config;
pub mod payload;
pub mod classify;
pub mod embed;
pub mod batch;
pub mod summary;
pub mod response;
pub mod address;
pub mod laws;

pub use crate::classify::{predict_one, predict_one_safe};
pub use crate::config::ServerConfig;
pub use crate::error::PredictError;
