//! Errors of the codec. Every error names its kind and carries the raw text
//! that caused it.

use vstd::prelude::*;
use crate::text::{append_str, string_of};

verus! {

#[derive(Clone, Copy, Debug, PartialEq, Eq, Structural)]
pub enum ErrorKind {
    MalformedField,
    LengthMismatch,
    UnknownFieldName,
    UnknownEnumerationToken,
    InvalidScalar,
    InvalidComposite,
    InvalidLocatorLength,
    InvalidLocatorCharacter,
    UnexpectedEof,
    /// The input source failed while it was being read.
    ReadFailed,
}

#[derive(Clone, Debug)]
pub struct AdifError {
    pub kind: ErrorKind,
    /// The offending raw text.
    pub raw: String,
}

/// `r` is the executable counterpart of the modelled outcome `m`: the same
/// value on success, an error of the same kind on failure.
pub open spec fn agrees<T: View>(r: Result<T, AdifError>, m: Result<T::V, ErrorKind>) -> bool {
    match r {
        Ok(v) => m == Ok::<T::V, ErrorKind>(v@),
        Err(e) => m == Err::<T::V, ErrorKind>(e.kind),
    }
}

impl ErrorKind {
    pub open spec fn spec_name(self) -> Seq<char> {
        match self {
            ErrorKind::MalformedField => "MalformedField"@,
            ErrorKind::LengthMismatch => "LengthMismatch"@,
            ErrorKind::UnknownFieldName => "UnknownFieldName"@,
            ErrorKind::UnknownEnumerationToken => "UnknownEnumerationToken"@,
            ErrorKind::InvalidScalar => "InvalidScalar"@,
            ErrorKind::InvalidComposite => "InvalidComposite"@,
            ErrorKind::InvalidLocatorLength => "InvalidLocatorLength"@,
            ErrorKind::InvalidLocatorCharacter => "InvalidLocatorCharacter"@,
            ErrorKind::UnexpectedEof => "UnexpectedEof"@,
            ErrorKind::ReadFailed => "ReadFailed"@,
        }
    }

    pub fn name(&self) -> (r: &'static str)
        ensures
            r@ == self.spec_name(),
    {
        match self {
            ErrorKind::MalformedField => "MalformedField",
            ErrorKind::LengthMismatch => "LengthMismatch",
            ErrorKind::UnknownFieldName => "UnknownFieldName",
            ErrorKind::UnknownEnumerationToken => "UnknownEnumerationToken",
            ErrorKind::InvalidScalar => "InvalidScalar",
            ErrorKind::InvalidComposite => "InvalidComposite",
            ErrorKind::InvalidLocatorLength => "InvalidLocatorLength",
            ErrorKind::InvalidLocatorCharacter => "InvalidLocatorCharacter",
            ErrorKind::UnexpectedEof => "UnexpectedEof",
            ErrorKind::ReadFailed => "ReadFailed",
        }
    }
}

impl AdifError {
    pub fn new(kind: ErrorKind, raw: &[char]) -> (r: AdifError)
        ensures
            r.kind == kind,
            r.raw@ == raw@,
    {
        AdifError { kind, raw: string_of(raw) }
    }

    /// A human-readable description: the kind, then the offending text.
    pub fn message(&self) -> (r: String)
        ensures
            r@ == self.kind.spec_name() + ": "@ + self.raw@,
    {
        let mut out: Vec<char> = Vec::new();
        append_str(&mut out, self.kind.name());
        append_str(&mut out, ": ");
        append_str(&mut out, self.raw.as_str());
        assert(out@ =~= self.kind.spec_name() + ": "@ + self.raw@);
        string_of(&out)
    }
}

} // verus!
