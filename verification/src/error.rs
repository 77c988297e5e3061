//! The failure kinds of decoding and encoding.

use vstd::prelude::*;

verus! {

/// The result of a decode.
pub type DecodeResult<T> = Result<T, DecodeError>;

/// The result of an encode.
pub type EncodeResult<T> = Result<T, EncodeError>;

/// Why a decode stopped.
#[derive(Debug, Clone, PartialEq, Eq)]
pub enum DecodeError {
    /// A read asked for more bytes than the buffer still holds; `index` is
    /// the cursor position at which that read began.
    EndOfBuffer { index: usize },
    /// A length computation left the range of `usize`.
    AddOverflow,
    /// A structural problem, described in words.
    Message(String),
    /// Bytes could not be taken as a fixed-size array.
    SliceError,
    /// A NUL-terminated string was malformed.
    NulError,
    /// Bytes that should be text are not UTF-8.
    Utf8Error,
}

/// The mathematical content of a [`DecodeError`].
pub enum DecodeFault {
    EndOfBuffer { index: int },
    AddOverflow,
    Message(Seq<char>),
    SliceError,
    NulError,
    Utf8Error,
}

impl View for DecodeError {
    type V = DecodeFault;

    open spec fn view(&self) -> DecodeFault {
        match *self {
            DecodeError::EndOfBuffer { index } => DecodeFault::EndOfBuffer { index: index as int },
            DecodeError::AddOverflow => DecodeFault::AddOverflow,
            DecodeError::Message(s) => DecodeFault::Message(s@),
            DecodeError::SliceError => DecodeFault::SliceError,
            DecodeError::NulError => DecodeFault::NulError,
            DecodeError::Utf8Error => DecodeFault::Utf8Error,
        }
    }
}

/// The text carried by the failure of a bad magic cookie.
pub open spec fn bad_magic_text() -> Seq<char> {
    "bad magic"@
}

/// The text carried by the failure of a length that does not fit the value
/// it announces.
pub open spec fn invalid_length_text() -> Seq<char> {
    "invalid length"@
}

/// The fault of a bad magic cookie.
pub open spec fn bad_magic() -> DecodeFault {
    DecodeFault::Message(bad_magic_text())
}

/// The fault of a length that does not fit the value it announces.
pub open spec fn invalid_length() -> DecodeFault {
    DecodeFault::Message(invalid_length_text())
}

impl DecodeError {
    /// The failure reported for a magic cookie other than `63 82 53 63`.
    pub fn bad_magic() -> (e: DecodeError)
        ensures
            e@ == bad_magic(),
    {
        DecodeError::Message("bad magic".to_owned())
    }

    /// The failure reported for a length that does not fit the value it
    /// announces.
    pub fn invalid_length() -> (e: DecodeError)
        ensures
            e@ == invalid_length(),
    {
        DecodeError::Message("invalid length".to_owned())
    }
}

/// Why an encode stopped.
#[derive(Debug, Clone, PartialEq, Eq)]
pub enum EncodeError {
    /// A length did not fit the field or the integer that has to hold it.
    AddOverflow,
    /// A problem described in words.
    Message(String),
}

} // verus!
