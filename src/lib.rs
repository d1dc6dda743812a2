//! The interpretation layer of a proxy that answers with the timestamp of the
//! current block of a blockchain, read from a block-explorer API.
pub mod numeric;
pub mod failure;
pub mod envelope;
pub mod upstream;
pub mod config;
