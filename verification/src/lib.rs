//! Destination resolution and link planning for a symbolic-link tool.
//!
//! Paths are byte strings in POSIX syntax. The crate touches no file system:
//! it says where a link goes and which steps make it, and leaves carrying the
//! steps out to its caller.

pub mod errors;
pub mod identity;
pub mod link;
pub mod path;
pub mod resolve;

pub use crate::identity::PathExt;
pub use crate::resolve::expand_destination;
