//! Composes scalar aggregate queries (COUNT, SUM, MIN, MAX, AVG) over an
//! already-built selection, and decodes the single value they return.
pub mod aggregate;
pub mod aggregator;
pub mod decode;
pub mod query;
