//! The fixed capacities of the responder and the bytes that delimit a request line.

use vstd::prelude::*;

verus! {

/// The most bytes of a request line that are ever kept.
pub const REQUEST_CAP: usize = 65536;

/// The most bytes of a method that are kept.
pub const METHOD_LIMIT: usize = 7;

/// The most bytes of a protocol version that are kept.
pub const VERSION_LIMIT: usize = 8;

/// The most bytes of a path that are kept: what a full request line leaves
/// once the method, the version and the two separators are taken off.
pub const PATH_LIMIT: usize = REQUEST_CAP - METHOD_LIMIT - VERSION_LIMIT - 2;

/// The number of bytes asked of the connection in one read.
pub const CHUNK_LEN: usize = 16;

/// The size that holds the wire form of every status of the catalog.
pub const RESPONSE_CAP: usize = 64;

/// The space that separates the fields of a request line.
pub const SP: u8 = 0x20;

/// The slash that every path begins with.
pub const SLASH: u8 = 0x2F;

/// The carriage return that ends a request line.
pub const CR: u8 = 0x0D;

/// The line feed that follows a carriage return on the wire.
pub const LF: u8 = 0x0A;

} // verus!
