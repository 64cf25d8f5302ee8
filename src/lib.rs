//! Decision logic of a non-blocking TCP socket handle.
//!
//! The operating system calls themselves are made by the caller; this crate
//! decides what their raw outcomes mean: which failures are errors and of what
//! kind, when a "would block" report is a normal outcome, in what order a
//! composite option is written, and how a selector's registrations evolve.
use vstd::prelude::*;

pub mod error;
pub mod options;
pub mod interest;
pub mod registry;
pub mod addr;

verus! {

/// Which side of a connection `shutdown` closes.
#[derive(Clone, Copy, Debug, PartialEq, Eq, Structural)]
pub enum Shutdown {
    Read,
    Write,
    Both,
}

} // verus!
