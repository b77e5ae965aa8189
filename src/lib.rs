//! Typed marshalling layer for a Fuel blockchain indexing service: query
//! normalization into the canonical wire form, address validation for the
//! log preset query, decoding of wire records into typed records, and the
//! backoff schedule used while polling the chain height.

pub mod address;
pub mod codec;
pub mod logs;
pub mod query;
pub mod response;
pub mod retry;
