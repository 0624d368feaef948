//! An in-memory record of one TCP segment: the header fields, the raw option
//! and padding bytes, and the payload, together with the two endpoint
//! addresses.
//!
//! The record is a plain value. It is built from all of its fields at once,
//! read through one accessor per field, and changed through one consuming
//! mutator per field. Nothing is validated, encoded or decoded here.

pub mod address;
pub mod model;
pub mod tcp;

pub use address::Ipv4Address;
pub use model::{Field, FieldValue, TcpView};
pub use tcp::TCP;
