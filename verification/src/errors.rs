//! The error taxonomy of the cipher. Every kind is surfaced to the caller;
//! no recovery is attempted internally.

use vstd::prelude::*;

verus! {

/// Reasons a cipher operation is refused or aborted.
#[derive(Debug, Clone, Copy, PartialEq, Eq, Structural)]
pub enum CipherErrors {
    /// The input source is missing or unopenable.
    InputFile,
    /// The key source is missing or unopenable.
    KeyFile,
    /// The key source exceeds 16 bytes.
    KeyTooLong,
    /// The output destination already exists; it is never overwritten.
    OutputPathExists,
}

} // verus!
