//! The closed set of CIP status codes shared by every component.

use vstd::prelude::*;

verus! {

/// A single-byte CIP general status code. `Success` (wire value `0x00`)
/// denotes success; every other variant denotes one specific failure kind.
/// A wire byte outside the known table is carried unchanged in `Other`.
#[derive(Clone, Copy, Debug, PartialEq, Eq, Structural)]
pub enum ErrorCode {
    Success,
    UnsupportedCommand,
    InsufficientMemory,
    IncorrectData,
    PathSegmentError,
    PathDestinationUnknown,
    AttributeNotSettable,
    ReplyDataTooLarge,
    NotEnoughData,
    AttributeNotSupported,
    TooMuchData,
    ObjectDoesNotExist,
    InvalidParameter,
    MessageFormatError,
    AttributeNotGettable,
    InvalidSession,
    UnsupportedVersion,
    Other(u8),
}

impl ErrorCode {
    /// The wire byte that stands for this status code.
    pub open spec fn spec_code(self) -> u8 {
        match self {
            ErrorCode::Success => 0x00,
            ErrorCode::UnsupportedCommand => 0x01,
            ErrorCode::InsufficientMemory => 0x02,
            ErrorCode::IncorrectData => 0x03,
            ErrorCode::PathSegmentError => 0x04,
            ErrorCode::PathDestinationUnknown => 0x05,
            ErrorCode::AttributeNotSettable => 0x0e,
            ErrorCode::ReplyDataTooLarge => 0x11,
            ErrorCode::NotEnoughData => 0x13,
            ErrorCode::AttributeNotSupported => 0x14,
            ErrorCode::TooMuchData => 0x15,
            ErrorCode::ObjectDoesNotExist => 0x16,
            ErrorCode::InvalidParameter => 0x20,
            ErrorCode::MessageFormatError => 0x24,
            ErrorCode::AttributeNotGettable => 0x2c,
            ErrorCode::InvalidSession => 0x64,
            ErrorCode::UnsupportedVersion => 0x69,
            ErrorCode::Other(c) => c,
        }
    }

    /// The status code that a wire byte denotes; bytes in the known table
    /// map to their named variant, all others are kept in `Other`.
    pub open spec fn spec_from_code(code: u8) -> ErrorCode {
        if code == 0x00 {
            ErrorCode::Success
        } else if code == 0x01 {
            ErrorCode::UnsupportedCommand
        } else if code == 0x02 {
            ErrorCode::InsufficientMemory
        } else if code == 0x03 {
            ErrorCode::IncorrectData
        } else if code == 0x04 {
            ErrorCode::PathSegmentError
        } else if code == 0x05 {
            ErrorCode::PathDestinationUnknown
        } else if code == 0x0e {
            ErrorCode::AttributeNotSettable
        } else if code == 0x11 {
            ErrorCode::ReplyDataTooLarge
        } else if code == 0x13 {
            ErrorCode::NotEnoughData
        } else if code == 0x14 {
            ErrorCode::AttributeNotSupported
        } else if code == 0x15 {
            ErrorCode::TooMuchData
        } else if code == 0x16 {
            ErrorCode::ObjectDoesNotExist
        } else if code == 0x20 {
            ErrorCode::InvalidParameter
        } else if code == 0x24 {
            ErrorCode::MessageFormatError
        } else if code == 0x2c {
            ErrorCode::AttributeNotGettable
        } else if code == 0x64 {
            ErrorCode::InvalidSession
        } else if code == 0x69 {
            ErrorCode::UnsupportedVersion
        } else {
            ErrorCode::Other(code)
        }
    }

    /// The raw single-byte value carried on the wire.
    pub fn code(&self) -> (r: u8)
        ensures
            r == self.spec_code(),
    {
        match *self {
            ErrorCode::Success => 0x00,
            ErrorCode::UnsupportedCommand => 0x01,
            ErrorCode::InsufficientMemory => 0x02,
            ErrorCode::IncorrectData => 0x03,
            ErrorCode::PathSegmentError => 0x04,
            ErrorCode::PathDestinationUnknown => 0x05,
            ErrorCode::AttributeNotSettable => 0x0e,
            ErrorCode::ReplyDataTooLarge => 0x11,
            ErrorCode::NotEnoughData => 0x13,
            ErrorCode::AttributeNotSupported => 0x14,
            ErrorCode::TooMuchData => 0x15,
            ErrorCode::ObjectDoesNotExist => 0x16,
            ErrorCode::InvalidParameter => 0x20,
            ErrorCode::MessageFormatError => 0x24,
            ErrorCode::AttributeNotGettable => 0x2c,
            ErrorCode::InvalidSession => 0x64,
            ErrorCode::UnsupportedVersion => 0x69,
            ErrorCode::Other(c) => c,
        }
    }

    /// Builds the status code denoted by the given wire byte.
    pub fn from_code(code: u8) -> (r: ErrorCode)
        ensures
            r == ErrorCode::spec_from_code(code),
    {
        if code == 0x00 {
            ErrorCode::Success
        } else if code == 0x01 {
            ErrorCode::UnsupportedCommand
        } else if code == 0x02 {
            ErrorCode::InsufficientMemory
        } else if code == 0x03 {
            ErrorCode::IncorrectData
        } else if code == 0x04 {
            ErrorCode::PathSegmentError
        } else if code == 0x05 {
            ErrorCode::PathDestinationUnknown
        } else if code == 0x0e {
            ErrorCode::AttributeNotSettable
        } else if code == 0x11 {
            ErrorCode::ReplyDataTooLarge
        } else if code == 0x13 {
            ErrorCode::NotEnoughData
        } else if code == 0x14 {
            ErrorCode::AttributeNotSupported
        } else if code == 0x15 {
            ErrorCode::TooMuchData
        } else if code == 0x16 {
            ErrorCode::ObjectDoesNotExist
        } else if code == 0x20 {
            ErrorCode::InvalidParameter
        } else if code == 0x24 {
            ErrorCode::MessageFormatError
        } else if code == 0x2c {
            ErrorCode::AttributeNotGettable
        } else if code == 0x64 {
            ErrorCode::InvalidSession
        } else if code == 0x69 {
            ErrorCode::UnsupportedVersion
        } else {
            ErrorCode::Other(code)
        }
    }
}

/// Reading a status byte back from the wire restores the byte exactly:
/// the named variants carry their table value and `Other` keeps the rest.
pub proof fn lemma_error_code_round_trip(code: u8)
    ensures
        ErrorCode::spec_from_code(code).spec_code() == code,
{
}

} // verus!
