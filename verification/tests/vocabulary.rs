use uefi_boot::memory::{classify_memory, EfiMemoryType, MEMORY_TYPE_CODES};
use uefi_boot::status::{describe_status, EfiStatus, StatusDescription, ERROR_BIT};

fn all_memory_types() -> Vec<EfiMemoryType> {
    vec![
        EfiMemoryType::ReservedMemoryType,
        EfiMemoryType::LoaderCode,
        EfiMemoryType::LoaderData,
        EfiMemoryType::BootServicesCode,
        EfiMemoryType::BootServicesData,
        EfiMemoryType::RuntimeServicesCode,
        EfiMemoryType::RuntimeServicesData,
        EfiMemoryType::ConventionalMemory,
        EfiMemoryType::UnusableMemory,
        EfiMemoryType::ACPIReclaimMemory,
        EfiMemoryType::ACPIMemoryNVS,
        EfiMemoryType::MemoryMappedIO,
        EfiMemoryType::MemoryMappedIOPortSpace,
        EfiMemoryType::PalCode,
        EfiMemoryType::PersistentMemory,
        EfiMemoryType::MaxMemoryType,
    ]
}

fn all_statuses() -> Vec<(EfiStatus, u64)> {
    let e = 1u64 << 63;
    vec![
        (EfiStatus::Success, 0),
        (EfiStatus::LoadError, e | 1),
        (EfiStatus::InvalidParameter, e | 2),
        (EfiStatus::Unsupported, e | 3),
        (EfiStatus::BadBufferSize, e | 4),
        (EfiStatus::BufferTooSmall, e | 5),
        (EfiStatus::NotReady, e | 6),
        (EfiStatus::DeviceError, e | 7),
        (EfiStatus::WriteProtected, e | 8),
        (EfiStatus::OutOfResources, e | 9),
        (EfiStatus::VolumeCorrupted, e | 10),
        (EfiStatus::VolumeFull, e | 11),
        (EfiStatus::NoMedia, e | 12),
        (EfiStatus::MediaChanged, e | 13),
        (EfiStatus::NotFound, e | 14),
        (EfiStatus::AccessDenied, e | 15),
        (EfiStatus::NoResponse, e | 16),
        (EfiStatus::NoMapping, e | 17),
        (EfiStatus::Timeout, e | 18),
        (EfiStatus::NotStarted, e | 19),
        (EfiStatus::AlreadyStarted, e | 20),
        (EfiStatus::Aborted, e | 21),
        (EfiStatus::IcmpError, e | 22),
        (EfiStatus::TftpError, e | 23),
        (EfiStatus::ProtocolError, e | 24),
        (EfiStatus::IncompatibleVersion, e | 25),
        (EfiStatus::SecurityViolation, e | 26),
        (EfiStatus::CrcError, e | 27),
        (EfiStatus::EndOfMedia, e | 28),
        (EfiStatus::EndOfFile, e | 31),
        (EfiStatus::InvalidLanguage, e | 32),
        (EfiStatus::CompromisedData, e | 33),
        (EfiStatus::IpAddressConflict, e | 34),
        (EfiStatus::HttpError, e | 35),
        (EfiStatus::WarnUnknownGlyph, 1),
        (EfiStatus::WarnDeleteFailure, 2),
        (EfiStatus::WarnWriteFailure, 3),
        (EfiStatus::WarnBufferTooSmall, 4),
        (EfiStatus::WarnStaleData, 5),
        (EfiStatus::WarnFileSystem, 6),
        (EfiStatus::WarnResetRequired, 7),
    ]
}

#[test]
fn known_codes_classify_in_table_order() {
    let types = all_memory_types();
    assert_eq!(types.len(), MEMORY_TYPE_CODES as usize);
    for (code, class) in types.iter().enumerate() {
        assert_eq!(classify_memory(code as u32), *class);
        assert_eq!(EfiMemoryType::from(code as u32), *class);
    }
}

#[test]
fn unknown_codes_classify_as_invalid() {
    for code in [16u32, 17, 100, 0x7fff_ffff, 0x8000_0000, u32::MAX] {
        assert_eq!(classify_memory(code), EfiMemoryType::Invalid);
        assert_eq!(EfiMemoryType::from(code), EfiMemoryType::Invalid);
    }
}

#[test]
fn code_seven_is_conventional_memory_on_every_call() {
    for _ in 0..3 {
        let class = classify_memory(7);
        assert_eq!(class, EfiMemoryType::ConventionalMemory);
        assert_eq!(class.code(), Some(7));
    }
    let class: EfiMemoryType = 7u32.into();
    assert_eq!(class, EfiMemoryType::ConventionalMemory);
}

#[test]
fn memory_type_codes_round_trip() {
    for class in all_memory_types() {
        let code = class.code().unwrap();
        assert_eq!(classify_memory(code), class);
    }
    for code in 0..MEMORY_TYPE_CODES {
        assert_eq!(classify_memory(code).code(), Some(code));
    }
    assert_eq!(EfiMemoryType::Invalid.code(), None);
}

#[test]
fn status_codes_are_the_firmware_codes() {
    assert_eq!(ERROR_BIT, 1u64 << 63);
    for (status, code) in all_statuses() {
        assert_eq!(status.code(), code);
        assert_eq!(EfiStatus::from_code(code), Some(status));
    }
    assert_eq!(EfiStatus::BufferTooSmall.code(), 0x8000_0000_0000_0005);
    assert_eq!(EfiStatus::HttpError.code(), 0x8000_0000_0000_0023);
}

#[test]
fn no_two_status_codes_alias() {
    let all = all_statuses();
    for (i, (a, _)) in all.iter().enumerate() {
        for (j, (b, _)) in all.iter().enumerate() {
            assert_eq!(a.code() == b.code(), i == j);
        }
    }
}

#[test]
fn unknown_status_codes_name_nothing() {
    let e = 1u64 << 63;
    for code in [8u64, 100, e, e | 29, e | 30, e | 36, u64::MAX, 1 << 31] {
        assert_eq!(EfiStatus::from_code(code), None);
        assert_eq!(describe_status(code), StatusDescription::Unrecognized);
    }
}

#[test]
fn describe_status_tells_success_warning_and_error() {
    assert_eq!(describe_status(0), StatusDescription::Success);
    assert_eq!(describe_status(4), StatusDescription::Warning(EfiStatus::WarnBufferTooSmall));
    assert_eq!(
        describe_status((1u64 << 63) | 2),
        StatusDescription::Error(EfiStatus::InvalidParameter)
    );
    for (status, code) in all_statuses() {
        let expected = if code == 0 {
            StatusDescription::Success
        } else if code >> 63 == 1 {
            StatusDescription::Error(status)
        } else {
            StatusDescription::Warning(status)
        };
        assert_eq!(describe_status(code), expected);
    }
}

#[test]
fn errors_carry_the_high_bit_and_warnings_do_not() {
    for (status, code) in all_statuses() {
        assert_eq!(status.is_error(), code >> 63 == 1);
        assert_eq!(status.is_warning(), code != 0 && code >> 63 == 0);
    }
    assert!(!EfiStatus::Success.is_error());
    assert!(!EfiStatus::Success.is_warning());
}
