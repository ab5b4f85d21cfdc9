//! The error reported when bytes do not make a public key.

use vstd::prelude::*;

use crate::curve::CurveKind;

verus! {

/// What went wrong.
#[derive(Clone, Copy, Debug, PartialEq, Eq, Structural)]
pub enum ErrorKind {
    /// The bytes are not a public key of the curve: wrong length or bad tag.
    KeyInvalid,
    /// The encoded text could not be decoded with the chosen scheme.
    EncodingInvalid,
}

/// An error, with the curve it concerns and the length of the rejected input.
#[derive(Clone, Copy, Debug, PartialEq, Eq, Structural)]
pub struct Error {
    pub kind: ErrorKind,
    pub curve: CurveKind,
    pub length: usize,
}

impl Error {
    /// The `KeyInvalid` error for an input of `length` bytes on `curve`.
    pub open spec fn key_invalid(curve: CurveKind, length: usize) -> Error {
        Error { kind: ErrorKind::KeyInvalid, curve, length }
    }

    /// The `EncodingInvalid` error for an encoded input of `length` bytes.
    pub open spec fn encoding_invalid(curve: CurveKind, length: usize) -> Error {
        Error { kind: ErrorKind::EncodingInvalid, curve, length }
    }
}

} // verus!
