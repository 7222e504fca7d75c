//! The runtime environment that a Typst compilation asks for its files and
//! dates, and the formatter of what the compiler reports.
//!
//! Nothing here reads a disk or a network, or decompresses an archive. Where
//! a file has to be read or a package has to be downloaded, decompressed and
//! extracted, the library says so step by step, and the caller does it:
//!
//! - [`world`] holds the environment of one compilation and resolves files
//!   against the overlay of seeded files, the project root and the packages;
//! - [`fetch`] decides how a package gets into the local cache, with one retry
//!   of the download and the removal of what a malformed archive left behind;
//! - [`files`] holds file identifiers, cached files and the cache;
//! - [`diag`] formats diagnostics with line, column and a caret under the
//!   source line;
//! - [`package`], [`date`], [`retry`] and [`text`] hold what these are built
//!   of.

pub mod date;
pub mod diag;
pub mod fetch;
pub mod files;
pub mod package;
pub mod retry;
pub mod text;
pub mod world;
