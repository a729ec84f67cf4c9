//! The typed failures of file and tag operations.

use crate::text::first_terminator;
use vstd::prelude::*;

verus! {

/// A text that cannot travel to the engine: it holds a terminator byte.
///
/// Carries the refused bytes and the place of their first terminator.
#[derive(Debug, PartialEq, Eq)]
pub struct NulError {
    position: usize,
    bytes: Vec<u8>,
}

impl NulError {
    #[verifier::type_invariant]
    spec fn well_formed(&self) -> bool {
        first_terminator(self.bytes@, self.position as int)
    }

    /// Where the first terminator stands in the refused bytes.
    pub closed spec fn position(&self) -> usize {
        self.position
    }

    /// The bytes that were refused.
    pub closed spec fn refused(&self) -> Seq<u8> {
        self.bytes@
    }

    /// Records that `bytes` were refused for the terminator at `position`.
    pub(crate) fn new(position: usize, bytes: Vec<u8>) -> (e: NulError)
        requires
            first_terminator(bytes@, position as int),
        ensures
            e.position() == position,
            e.refused() == bytes@,
    {
        NulError { position, bytes }
    }

    /// Where the first terminator stands in the refused bytes.
    pub fn nul_position(&self) -> (at: usize)
        ensures
            at == self.position(),
            first_terminator(self.refused(), at as int),
    {
        proof {
            use_type_invariant(self);
        }
        self.position
    }

    /// Hands back the bytes that were refused.
    pub fn into_vec(self) -> (bytes: Vec<u8>)
        ensures
            bytes@ == self.refused(),
            first_terminator(bytes@, self.position() as int),
    {
        proof {
            use_type_invariant(&self);
        }
        self.bytes
    }
}

/// Why a file operation failed.
#[derive(Debug, PartialEq, Eq)]
pub enum FileError {
    /// The engine returned no file resource.
    OpenFailure,
    /// The engine reported that it could not persist the file.
    SaveFailure,
    /// The path has no representation as text.
    PathAsString,
    /// The path's text holds a terminator byte.
    NullPathString(NulError),
    /// The engine opened the file but found no usable tag structure in it.
    InvalidTagFile,
}

} // verus!
