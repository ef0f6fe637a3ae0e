//! A find-and-replace library: a pattern (regular expression or literal
//! string) plus a small flag language is compiled into a matcher, and every
//! match in a byte buffer is substituted with a replacement template.
//!
//! The library is organised around three pure steps — compiling flags,
//! preparing the replacement template, and substituting over bytes — plus
//! the decision logic for rewriting a file in place and for choosing an
//! execution strategy. All file and terminal I/O is left to the caller,
//! which hands the library plain values and carries out the plans it
//! returns.

pub mod driver;
pub mod flags;
pub mod matcher;
pub mod mutator;
pub mod replacer;
pub mod template;

use vstd::prelude::*;

verus! {

/// Why a run cannot proceed.
#[derive(Clone, Copy, PartialEq, Eq, Structural, Debug)]
pub enum RunError {
    /// The pattern, with its flag configuration, does not compile into a
    /// matcher. Fatal: reported before any file is touched.
    InvalidPattern,
    /// A target file has no parent directory, so no sibling temporary file
    /// can be created next to it.
    InvalidPath,
}

} // verus!
