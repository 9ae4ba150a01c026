//! Token lifecycle rules and single-table storage encoding for an NFT issuing service.
//!
//! The crate holds the decisions of the service as verified functions on plain
//! values: the error taxonomy, cursor pagination, key and attribute encoding of
//! the stored entities, and the step functions of the mint, sell, transfer and
//! reconciliation flows. Network and storage calls are made by the caller.

pub mod application;
pub mod aws;
pub mod ddb;
pub mod domain;
pub mod errors;
pub mod ethereum;
pub mod graph;
pub mod internal_api;
pub mod ipfs;
pub mod open_sea;
pub mod pagination;
pub mod text;

use vstd::prelude::*;

verus! {

/// The result of an operation of the service.
pub type AppResult<T> = Result<T, errors::AppError>;

} // verus!
