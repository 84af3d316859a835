//! A single extended grapheme cluster as a small, copyable, hashable value.
//!
//! A cluster is held as its UTF-8 bytes in an inline array whose length is
//! the variant it occupies. Equality and hashing go by those bytes alone.

pub mod bytes;
pub mod cluster;
pub mod equality;
pub mod error;
pub mod segment;
pub mod text;

pub use bytes::GCBytes;
pub use cluster::GraphemeCluster;
pub use error::ClusterError;
