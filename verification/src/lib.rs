//! A null-aware, row-wise column evaluation engine for hash digests and
//! geospatial cell codes.
//!
//! Columns are ordered sequences of typed slots that may be missing. The
//! engine decides how many inputs each operation takes, how missing values
//! propagate (or abort the call) per operation family, how numeric subtypes
//! are widened before computation, and how composite geometry columns are
//! split into and reassembled from named sub-columns. The scalar codecs
//! themselves (digests, geohash and H3 cell codes, name-based identifiers)
//! are outside collaborators called one value at a time.

pub mod coerce;
pub mod error;
pub mod eval;
pub mod expressions;
pub mod geohashers;
pub mod geometry;
pub mod h3;
pub mod murmurhash_hashers;
pub mod series;
pub mod sha_hashers;
pub mod uuid_hashers;
pub mod xxhash_hashers;

pub use error::{EngineError, ErrSpec, Operand};
pub use series::{Field, Series};
