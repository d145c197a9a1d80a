//! Status codes that firmware operations return, and the fatal conditions of
//! the boot phase.

use vstd::prelude::*;

verus! {

/// The bit that marks a status code as an error. Codes without it, other than
/// zero, are warnings.
pub const ERROR_BIT: u64 = 0x8000_0000_0000_0000;

/// A named firmware status.
#[derive(Clone, Copy, Debug, PartialEq, Eq, Structural)]
pub enum EfiStatus {
    Success,
    LoadError,
    InvalidParameter,
    Unsupported,
    BadBufferSize,
    BufferTooSmall,
    NotReady,
    DeviceError,
    WriteProtected,
    OutOfResources,
    VolumeCorrupted,
    VolumeFull,
    NoMedia,
    MediaChanged,
    NotFound,
    AccessDenied,
    NoResponse,
    NoMapping,
    Timeout,
    NotStarted,
    AlreadyStarted,
    Aborted,
    IcmpError,
    TftpError,
    ProtocolError,
    IncompatibleVersion,
    SecurityViolation,
    CrcError,
    EndOfMedia,
    EndOfFile,
    InvalidLanguage,
    CompromisedData,
    IpAddressConflict,
    HttpError,
    WarnUnknownGlyph,
    WarnDeleteFailure,
    WarnWriteFailure,
    WarnBufferTooSmall,
    WarnStaleData,
    WarnFileSystem,
    WarnResetRequired,
}

/// What a raw status code means.
#[derive(Clone, Copy, Debug, PartialEq, Eq, Structural)]
pub enum StatusDescription {
    /// The operation succeeded.
    Success,
    /// The operation finished with the named warning.
    Warning(EfiStatus),
    /// The operation failed with the named error.
    Error(EfiStatus),
    /// The code is not in the table of known codes.
    Unrecognized,
}

/// A condition that ends the boot phase. None of them is recovered from.
#[derive(Clone, Copy, Debug, PartialEq, Eq, Structural)]
pub enum Fatal {
    /// The system table was needed before it was captured.
    TableNotCaptured,
    /// Firmware returned this code, which is not success.
    Firmware(u64),
    /// Firmware reports more memory regions than the fixed buffer holds.
    BufferTooSmall,
    /// Firmware reported a descriptor stride shorter than a descriptor.
    BadDescriptorSize,
    /// The exit handshake was started a second time.
    AlreadyTransitioned,
    /// An exit status arrived while no exit was under way.
    NotExiting,
}

impl EfiStatus {
    /// The code that firmware uses for this status.
    pub open spec fn spec_code(self) -> u64 {
        match self {
            EfiStatus::Success => 0,
            EfiStatus::LoadError => 0x8000_0000_0000_0001,
            EfiStatus::InvalidParameter => 0x8000_0000_0000_0002,
            EfiStatus::Unsupported => 0x8000_0000_0000_0003,
            EfiStatus::BadBufferSize => 0x8000_0000_0000_0004,
            EfiStatus::BufferTooSmall => 0x8000_0000_0000_0005,
            EfiStatus::NotReady => 0x8000_0000_0000_0006,
            EfiStatus::DeviceError => 0x8000_0000_0000_0007,
            EfiStatus::WriteProtected => 0x8000_0000_0000_0008,
            EfiStatus::OutOfResources => 0x8000_0000_0000_0009,
            EfiStatus::VolumeCorrupted => 0x8000_0000_0000_000A,
            EfiStatus::VolumeFull => 0x8000_0000_0000_000B,
            EfiStatus::NoMedia => 0x8000_0000_0000_000C,
            EfiStatus::MediaChanged => 0x8000_0000_0000_000D,
            EfiStatus::NotFound => 0x8000_0000_0000_000E,
            EfiStatus::AccessDenied => 0x8000_0000_0000_000F,
            EfiStatus::NoResponse => 0x8000_0000_0000_0010,
            EfiStatus::NoMapping => 0x8000_0000_0000_0011,
            EfiStatus::Timeout => 0x8000_0000_0000_0012,
            EfiStatus::NotStarted => 0x8000_0000_0000_0013,
            EfiStatus::AlreadyStarted => 0x8000_0000_0000_0014,
            EfiStatus::Aborted => 0x8000_0000_0000_0015,
            EfiStatus::IcmpError => 0x8000_0000_0000_0016,
            EfiStatus::TftpError => 0x8000_0000_0000_0017,
            EfiStatus::ProtocolError => 0x8000_0000_0000_0018,
            EfiStatus::IncompatibleVersion => 0x8000_0000_0000_0019,
            EfiStatus::SecurityViolation => 0x8000_0000_0000_001A,
            EfiStatus::CrcError => 0x8000_0000_0000_001B,
            EfiStatus::EndOfMedia => 0x8000_0000_0000_001C,
            EfiStatus::EndOfFile => 0x8000_0000_0000_001F,
            EfiStatus::InvalidLanguage => 0x8000_0000_0000_0020,
            EfiStatus::CompromisedData => 0x8000_0000_0000_0021,
            EfiStatus::IpAddressConflict => 0x8000_0000_0000_0022,
            EfiStatus::HttpError => 0x8000_0000_0000_0023,
            EfiStatus::WarnUnknownGlyph => 1,
            EfiStatus::WarnDeleteFailure => 2,
            EfiStatus::WarnWriteFailure => 3,
            EfiStatus::WarnBufferTooSmall => 4,
            EfiStatus::WarnStaleData => 5,
            EfiStatus::WarnFileSystem => 6,
            EfiStatus::WarnResetRequired => 7,
        }
    }

    /// Whether the status is an error: its code carries the error bit.
    pub open spec fn spec_is_error(self) -> bool {
        self.spec_code() >= ERROR_BIT
    }

    /// Whether the status is a warning: not success, and no error bit.
    pub open spec fn spec_is_warning(self) -> bool {
        0 < self.spec_code() < ERROR_BIT
    }

    /// The code that firmware uses for this status.
    #[verifier::when_used_as_spec(spec_code)]
    pub fn code(self) -> (c: u64)
        ensures
            c == self.spec_code(),
    {
        match self {
            EfiStatus::Success => 0,
            EfiStatus::LoadError => 0x8000_0000_0000_0001,
            EfiStatus::InvalidParameter => 0x8000_0000_0000_0002,
            EfiStatus::Unsupported => 0x8000_0000_0000_0003,
            EfiStatus::BadBufferSize => 0x8000_0000_0000_0004,
            EfiStatus::BufferTooSmall => 0x8000_0000_0000_0005,
            EfiStatus::NotReady => 0x8000_0000_0000_0006,
            EfiStatus::DeviceError => 0x8000_0000_0000_0007,
            EfiStatus::WriteProtected => 0x8000_0000_0000_0008,
            EfiStatus::OutOfResources => 0x8000_0000_0000_0009,
            EfiStatus::VolumeCorrupted => 0x8000_0000_0000_000A,
            EfiStatus::VolumeFull => 0x8000_0000_0000_000B,
            EfiStatus::NoMedia => 0x8000_0000_0000_000C,
            EfiStatus::MediaChanged => 0x8000_0000_0000_000D,
            EfiStatus::NotFound => 0x8000_0000_0000_000E,
            EfiStatus::AccessDenied => 0x8000_0000_0000_000F,
            EfiStatus::NoResponse => 0x8000_0000_0000_0010,
            EfiStatus::NoMapping => 0x8000_0000_0000_0011,
            EfiStatus::Timeout => 0x8000_0000_0000_0012,
            EfiStatus::NotStarted => 0x8000_0000_0000_0013,
            EfiStatus::AlreadyStarted => 0x8000_0000_0000_0014,
            EfiStatus::Aborted => 0x8000_0000_0000_0015,
            EfiStatus::IcmpError => 0x8000_0000_0000_0016,
            EfiStatus::TftpError => 0x8000_0000_0000_0017,
            EfiStatus::ProtocolError => 0x8000_0000_0000_0018,
            EfiStatus::IncompatibleVersion => 0x8000_0000_0000_0019,
            EfiStatus::SecurityViolation => 0x8000_0000_0000_001A,
            EfiStatus::CrcError => 0x8000_0000_0000_001B,
            EfiStatus::EndOfMedia => 0x8000_0000_0000_001C,
            EfiStatus::EndOfFile => 0x8000_0000_0000_001F,
            EfiStatus::InvalidLanguage => 0x8000_0000_0000_0020,
            EfiStatus::CompromisedData => 0x8000_0000_0000_0021,
            EfiStatus::IpAddressConflict => 0x8000_0000_0000_0022,
            EfiStatus::HttpError => 0x8000_0000_0000_0023,
            EfiStatus::WarnUnknownGlyph => 1,
            EfiStatus::WarnDeleteFailure => 2,
            EfiStatus::WarnWriteFailure => 3,
            EfiStatus::WarnBufferTooSmall => 4,
            EfiStatus::WarnStaleData => 5,
            EfiStatus::WarnFileSystem => 6,
            EfiStatus::WarnResetRequired => 7,
        }
    }

    /// The status that a code names, if it names one: the inverse of the
    /// table of codes.
    pub open spec fn of_code(code: u64) -> Option<EfiStatus> {
        match code {
            0 => Some(EfiStatus::Success),
            0x8000_0000_0000_0001 => Some(EfiStatus::LoadError),
            0x8000_0000_0000_0002 => Some(EfiStatus::InvalidParameter),
            0x8000_0000_0000_0003 => Some(EfiStatus::Unsupported),
            0x8000_0000_0000_0004 => Some(EfiStatus::BadBufferSize),
            0x8000_0000_0000_0005 => Some(EfiStatus::BufferTooSmall),
            0x8000_0000_0000_0006 => Some(EfiStatus::NotReady),
            0x8000_0000_0000_0007 => Some(EfiStatus::DeviceError),
            0x8000_0000_0000_0008 => Some(EfiStatus::WriteProtected),
            0x8000_0000_0000_0009 => Some(EfiStatus::OutOfResources),
            0x8000_0000_0000_000A => Some(EfiStatus::VolumeCorrupted),
            0x8000_0000_0000_000B => Some(EfiStatus::VolumeFull),
            0x8000_0000_0000_000C => Some(EfiStatus::NoMedia),
            0x8000_0000_0000_000D => Some(EfiStatus::MediaChanged),
            0x8000_0000_0000_000E => Some(EfiStatus::NotFound),
            0x8000_0000_0000_000F => Some(EfiStatus::AccessDenied),
            0x8000_0000_0000_0010 => Some(EfiStatus::NoResponse),
            0x8000_0000_0000_0011 => Some(EfiStatus::NoMapping),
            0x8000_0000_0000_0012 => Some(EfiStatus::Timeout),
            0x8000_0000_0000_0013 => Some(EfiStatus::NotStarted),
            0x8000_0000_0000_0014 => Some(EfiStatus::AlreadyStarted),
            0x8000_0000_0000_0015 => Some(EfiStatus::Aborted),
            0x8000_0000_0000_0016 => Some(EfiStatus::IcmpError),
            0x8000_0000_0000_0017 => Some(EfiStatus::TftpError),
            0x8000_0000_0000_0018 => Some(EfiStatus::ProtocolError),
            0x8000_0000_0000_0019 => Some(EfiStatus::IncompatibleVersion),
            0x8000_0000_0000_001A => Some(EfiStatus::SecurityViolation),
            0x8000_0000_0000_001B => Some(EfiStatus::CrcError),
            0x8000_0000_0000_001C => Some(EfiStatus::EndOfMedia),
            0x8000_0000_0000_001F => Some(EfiStatus::EndOfFile),
            0x8000_0000_0000_0020 => Some(EfiStatus::InvalidLanguage),
            0x8000_0000_0000_0021 => Some(EfiStatus::CompromisedData),
            0x8000_0000_0000_0022 => Some(EfiStatus::IpAddressConflict),
            0x8000_0000_0000_0023 => Some(EfiStatus::HttpError),
            1 => Some(EfiStatus::WarnUnknownGlyph),
            2 => Some(EfiStatus::WarnDeleteFailure),
            3 => Some(EfiStatus::WarnWriteFailure),
            4 => Some(EfiStatus::WarnBufferTooSmall),
            5 => Some(EfiStatus::WarnStaleData),
            6 => Some(EfiStatus::WarnFileSystem),
            7 => Some(EfiStatus::WarnResetRequired),
            _ => None,
        }
    }

    /// The status that a code names, if it names one. Codes are compared for
    /// exact equality.
    pub fn from_code(code: u64) -> (status: Option<EfiStatus>)
        ensures
            status == EfiStatus::of_code(code),
            match status {
                Some(s) => s.spec_code() == code,
                None => forall|s: EfiStatus| s.spec_code() != code,
            },
    {
        match code {
            0 => Some(EfiStatus::Success),
            0x8000_0000_0000_0001 => Some(EfiStatus::LoadError),
            0x8000_0000_0000_0002 => Some(EfiStatus::InvalidParameter),
            0x8000_0000_0000_0003 => Some(EfiStatus::Unsupported),
            0x8000_0000_0000_0004 => Some(EfiStatus::BadBufferSize),
            0x8000_0000_0000_0005 => Some(EfiStatus::BufferTooSmall),
            0x8000_0000_0000_0006 => Some(EfiStatus::NotReady),
            0x8000_0000_0000_0007 => Some(EfiStatus::DeviceError),
            0x8000_0000_0000_0008 => Some(EfiStatus::WriteProtected),
            0x8000_0000_0000_0009 => Some(EfiStatus::OutOfResources),
            0x8000_0000_0000_000A => Some(EfiStatus::VolumeCorrupted),
            0x8000_0000_0000_000B => Some(EfiStatus::VolumeFull),
            0x8000_0000_0000_000C => Some(EfiStatus::NoMedia),
            0x8000_0000_0000_000D => Some(EfiStatus::MediaChanged),
            0x8000_0000_0000_000E => Some(EfiStatus::NotFound),
            0x8000_0000_0000_000F => Some(EfiStatus::AccessDenied),
            0x8000_0000_0000_0010 => Some(EfiStatus::NoResponse),
            0x8000_0000_0000_0011 => Some(EfiStatus::NoMapping),
            0x8000_0000_0000_0012 => Some(EfiStatus::Timeout),
            0x8000_0000_0000_0013 => Some(EfiStatus::NotStarted),
            0x8000_0000_0000_0014 => Some(EfiStatus::AlreadyStarted),
            0x8000_0000_0000_0015 => Some(EfiStatus::Aborted),
            0x8000_0000_0000_0016 => Some(EfiStatus::IcmpError),
            0x8000_0000_0000_0017 => Some(EfiStatus::TftpError),
            0x8000_0000_0000_0018 => Some(EfiStatus::ProtocolError),
            0x8000_0000_0000_0019 => Some(EfiStatus::IncompatibleVersion),
            0x8000_0000_0000_001A => Some(EfiStatus::SecurityViolation),
            0x8000_0000_0000_001B => Some(EfiStatus::CrcError),
            0x8000_0000_0000_001C => Some(EfiStatus::EndOfMedia),
            0x8000_0000_0000_001F => Some(EfiStatus::EndOfFile),
            0x8000_0000_0000_0020 => Some(EfiStatus::InvalidLanguage),
            0x8000_0000_0000_0021 => Some(EfiStatus::CompromisedData),
            0x8000_0000_0000_0022 => Some(EfiStatus::IpAddressConflict),
            0x8000_0000_0000_0023 => Some(EfiStatus::HttpError),
            1 => Some(EfiStatus::WarnUnknownGlyph),
            2 => Some(EfiStatus::WarnDeleteFailure),
            3 => Some(EfiStatus::WarnWriteFailure),
            4 => Some(EfiStatus::WarnBufferTooSmall),
            5 => Some(EfiStatus::WarnStaleData),
            6 => Some(EfiStatus::WarnFileSystem),
            7 => Some(EfiStatus::WarnResetRequired),
            _ => None,
        }
    }

    /// Whether the status is an error.
    #[verifier::when_used_as_spec(spec_is_error)]
    pub fn is_error(self) -> (b: bool)
        ensures
            b == self.spec_is_error(),
    {
        self.code() >= ERROR_BIT
    }

    /// Whether the status is a warning.
    #[verifier::when_used_as_spec(spec_is_warning)]
    pub fn is_warning(self) -> (b: bool)
        ensures
            b == self.spec_is_warning(),
    {
        let c: u64 = self.code();
        0 < c && c < ERROR_BIT
    }
}

/// What a code means: success, a known warning, a known error, or none of
/// them. Errors carry the error bit, warnings do not.
pub open spec fn status_description(code: u64) -> StatusDescription {
    match EfiStatus::of_code(code) {
        None => StatusDescription::Unrecognized,
        Some(s) => if code == 0 {
            StatusDescription::Success
        } else if code >= ERROR_BIT {
            StatusDescription::Error(s)
        } else {
            StatusDescription::Warning(s)
        },
    }
}

/// Describes a raw status code by exact comparison against the table of
/// known codes.
pub fn describe_status(code: u64) -> (d: StatusDescription)
    ensures
        d == status_description(code),
        match d {
            StatusDescription::Success => code == 0,
            StatusDescription::Warning(s) => s.spec_code() == code && s.spec_is_warning(),
            StatusDescription::Error(s) => s.spec_code() == code && s.spec_is_error(),
            StatusDescription::Unrecognized => forall|s: EfiStatus| s.spec_code() != code,
        },
{
    match EfiStatus::from_code(code) {
        None => StatusDescription::Unrecognized,
        Some(s) => {
            if code == 0 {
                StatusDescription::Success
            } else if code >= ERROR_BIT {
                StatusDescription::Error(s)
            } else {
                StatusDescription::Warning(s)
            }
        },
    }
}

/// No two statuses share a code.
pub proof fn codes_do_not_alias(a: EfiStatus, b: EfiStatus)
    requires
        a.spec_code() == b.spec_code(),
    ensures
        a == b,
{
}

/// Looking a status up by its own code finds that status, and a code that
/// names a status is the code of that status.
pub proof fn code_lookup_is_inverse(s: EfiStatus, code: u64)
    ensures
        EfiStatus::of_code(s.spec_code()) == Some(s),
        EfiStatus::of_code(code) == Some(s) ==> s.spec_code() == code,
        status_description(s.spec_code()) == if s == EfiStatus::Success {
            StatusDescription::Success
        } else if s.spec_is_error() {
            StatusDescription::Error(s)
        } else {
            StatusDescription::Warning(s)
        },
{
}

} // verus!
