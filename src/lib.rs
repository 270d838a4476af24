//! Memory-safe wrappers around POSIX-like and Linux system calls: the part of
//! them that computes.
//!
//! The library turns the many string types that stand for a path into the
//! NUL-terminated bytes the kernel reads, lays socket addresses out in the
//! kernel's format and reads them back, narrows 64-bit times for older calls,
//! and decides whether a `/proc` directory can be trusted. Every function here
//! is verified against its contract; the two that call std's UTF-8 routines
//! say what they rely on.

pub mod conv;
mod io;
pub mod fd;
pub mod fs;
pub mod net;
pub mod path;
pub mod process;
pub mod procfs;
pub mod time;

pub use io::{Errno, Result};
