//! A verified, read-only query engine for the MaxMind DB binary format.
//!
//! Given the raw bytes of a database and an IP address (as network-order
//! octets), the reader walks the binary search tree, resolves the matched
//! record in the data section and decodes it into a [`value::Value`] tree,
//! together with the length of the matched network prefix.

pub mod error;

pub mod geoip2;

pub mod locator;

pub mod metadata;

pub mod reader;

pub mod decoder;

pub mod value;

pub use error::MaxMindDBError;
pub use metadata::Metadata;
pub use reader::Reader;
pub use value::Value;
