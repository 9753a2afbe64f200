//! The error type of every operation of the codec.
use vstd::prelude::*;

verus! {

/// What went wrong while encoding or decoding.
#[derive(Debug)]
pub enum Error {
    /// Raised by the serialization framework through its `custom` hook: when, and the message.
    Serde(SerdeWhen, String),
    /// A failure outside the format itself: its kind and a description.
    Other(OtherKind, String),
    /// A well-formed header that the codec does not handle (indefinite lengths, tags).
    Unsupported(u8),
    /// A header whose meaning the format leaves unassigned.
    Unassigned(u8),
    /// A header that does not fit the type that the caller asked for, and what was expected.
    Unexpected(u8, &'static str),
    /// A condition too singular to have a variant of its own.
    Message(&'static str),
}

/// When an error of the serialization framework was raised.
#[derive(Debug, Clone, Copy, PartialEq, Eq)]
pub enum SerdeWhen {
    Serialization,
    Deserialization,
}

/// The kind of a failure outside the format.
#[derive(Debug, Clone, Copy, PartialEq, Eq)]
pub enum OtherKind {
    /// The underlying source or sink failed.
    Io,
    /// A text string does not hold valid UTF-8.
    Utf8,
    /// A decoded number does not fit the type that must hold it.
    Numerical,
}

} // verus!
