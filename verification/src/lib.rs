//! Core logic of a scheduled CCTV snapshot service: content-addressed
//! capture keys, bounded retry, pagination merging, index encoding and
//! HTTP routing, each with a verified contract.

pub mod digest;
pub mod fetch;
pub mod index;
pub mod keys;
pub mod lister;
pub mod pipeline;
pub mod registry;
pub mod respond;
pub mod retry;
