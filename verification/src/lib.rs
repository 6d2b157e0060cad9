//! A minimal process-wide logging facility.
//!
//! A [`logger::Logger`] owns six one-way configuration flags, an optional
//! base path, and a record of whether a log file is open.  Callers set
//! flags, call [`logger::Logger::enable`] once, and then hand each message
//! to [`logger::Logger::log`], which routes it to a terminal line, a file
//! line, or both, each optionally prefixed with a timestamp.
//!
//! The library computes every line and every file path; the actual file
//! and terminal writes are left to the host application, which receives
//! the lines as plain strings.

pub mod digits;
pub mod logger;
pub mod logpath;
pub mod timestamp;
