//! Memory types and the descriptor of one memory region, as firmware lays
//! it out.

use vstd::prelude::*;

verus! {

/// The classification of a memory region.
#[derive(Clone, Copy, Debug, PartialEq, Eq, Structural)]
pub enum EfiMemoryType {
    ReservedMemoryType,
    LoaderCode,
    LoaderData,
    BootServicesCode,
    BootServicesData,
    RuntimeServicesCode,
    RuntimeServicesData,
    ConventionalMemory,
    UnusableMemory,
    ACPIReclaimMemory,
    ACPIMemoryNVS,
    MemoryMappedIO,
    MemoryMappedIOPortSpace,
    PalCode,
    PersistentMemory,
    MaxMemoryType,
    /// A code that this library does not know.
    Invalid,
}

/// The number of codes that name a memory type: the codes below it are
/// known, all others are not.
pub const MEMORY_TYPE_CODES: u32 = 16;

/// The memory type that a firmware code names; `Invalid` for a code that
/// names none.
pub open spec fn memory_class(code: u32) -> EfiMemoryType {
    match code {
        0 => EfiMemoryType::ReservedMemoryType,
        1 => EfiMemoryType::LoaderCode,
        2 => EfiMemoryType::LoaderData,
        3 => EfiMemoryType::BootServicesCode,
        4 => EfiMemoryType::BootServicesData,
        5 => EfiMemoryType::RuntimeServicesCode,
        6 => EfiMemoryType::RuntimeServicesData,
        7 => EfiMemoryType::ConventionalMemory,
        8 => EfiMemoryType::UnusableMemory,
        9 => EfiMemoryType::ACPIReclaimMemory,
        10 => EfiMemoryType::ACPIMemoryNVS,
        11 => EfiMemoryType::MemoryMappedIO,
        12 => EfiMemoryType::MemoryMappedIOPortSpace,
        13 => EfiMemoryType::PalCode,
        14 => EfiMemoryType::PersistentMemory,
        15 => EfiMemoryType::MaxMemoryType,
        _ => EfiMemoryType::Invalid,
    }
}

impl EfiMemoryType {
    /// The firmware code of this memory type; `Invalid` has none.
    pub open spec fn spec_code(self) -> Option<u32> {
        match self {
            EfiMemoryType::ReservedMemoryType => Some(0),
            EfiMemoryType::LoaderCode => Some(1),
            EfiMemoryType::LoaderData => Some(2),
            EfiMemoryType::BootServicesCode => Some(3),
            EfiMemoryType::BootServicesData => Some(4),
            EfiMemoryType::RuntimeServicesCode => Some(5),
            EfiMemoryType::RuntimeServicesData => Some(6),
            EfiMemoryType::ConventionalMemory => Some(7),
            EfiMemoryType::UnusableMemory => Some(8),
            EfiMemoryType::ACPIReclaimMemory => Some(9),
            EfiMemoryType::ACPIMemoryNVS => Some(10),
            EfiMemoryType::MemoryMappedIO => Some(11),
            EfiMemoryType::MemoryMappedIOPortSpace => Some(12),
            EfiMemoryType::PalCode => Some(13),
            EfiMemoryType::PersistentMemory => Some(14),
            EfiMemoryType::MaxMemoryType => Some(15),
            EfiMemoryType::Invalid => None,
        }
    }

    /// The firmware code of this memory type; `Invalid` has none.
    #[verifier::when_used_as_spec(spec_code)]
    pub fn code(self) -> (c: Option<u32>)
        ensures
            c == self.spec_code(),
    {
        match self {
            EfiMemoryType::ReservedMemoryType => Some(0),
            EfiMemoryType::LoaderCode => Some(1),
            EfiMemoryType::LoaderData => Some(2),
            EfiMemoryType::BootServicesCode => Some(3),
            EfiMemoryType::BootServicesData => Some(4),
            EfiMemoryType::RuntimeServicesCode => Some(5),
            EfiMemoryType::RuntimeServicesData => Some(6),
            EfiMemoryType::ConventionalMemory => Some(7),
            EfiMemoryType::UnusableMemory => Some(8),
            EfiMemoryType::ACPIReclaimMemory => Some(9),
            EfiMemoryType::ACPIMemoryNVS => Some(10),
            EfiMemoryType::MemoryMappedIO => Some(11),
            EfiMemoryType::MemoryMappedIOPortSpace => Some(12),
            EfiMemoryType::PalCode => Some(13),
            EfiMemoryType::PersistentMemory => Some(14),
            EfiMemoryType::MaxMemoryType => Some(15),
            EfiMemoryType::Invalid => None,
        }
    }
}

impl From<u32> for EfiMemoryType {
    fn from(val: u32) -> (class: EfiMemoryType) {
        match val {
            0 => EfiMemoryType::ReservedMemoryType,
            1 => EfiMemoryType::LoaderCode,
            2 => EfiMemoryType::LoaderData,
            3 => EfiMemoryType::BootServicesCode,
            4 => EfiMemoryType::BootServicesData,
            5 => EfiMemoryType::RuntimeServicesCode,
            6 => EfiMemoryType::RuntimeServicesData,
            7 => EfiMemoryType::ConventionalMemory,
            8 => EfiMemoryType::UnusableMemory,
            9 => EfiMemoryType::ACPIReclaimMemory,
            10 => EfiMemoryType::ACPIMemoryNVS,
            11 => EfiMemoryType::MemoryMappedIO,
            12 => EfiMemoryType::MemoryMappedIOPortSpace,
            13 => EfiMemoryType::PalCode,
            14 => EfiMemoryType::PersistentMemory,
            15 => EfiMemoryType::MaxMemoryType,
            _ => EfiMemoryType::Invalid,
        }
    }
}

impl vstd::std_specs::convert::FromSpecImpl<u32> for EfiMemoryType {
    open spec fn obeys_from_spec() -> bool {
        true
    }

    open spec fn from_spec(val: u32) -> EfiMemoryType {
        memory_class(val)
    }
}

/// Classifies a firmware memory-type code. Total: a code that names no type
/// gives `Invalid`.
pub fn classify_memory(code: u32) -> (class: EfiMemoryType)
    ensures
        class == memory_class(code),
        class == EfiMemoryType::Invalid <==> code >= MEMORY_TYPE_CODES,
{
    EfiMemoryType::from(code)
}

/// The number of bytes that the fields of one descriptor take in firmware's
/// layout. Firmware may place descriptors further apart than this.
pub const DESCRIPTOR_BYTES: usize = 40;

/// One contiguous memory region as firmware reports it.
#[derive(Clone, Copy, Debug, PartialEq, Eq, Structural)]
pub struct EfiMemoryDescriptor {
    /// The raw code of the region's memory type.
    pub typ: u32,
    /// The physical address of the region's first byte.
    pub physical_start: u64,
    /// The virtual address of the region's first byte.
    pub virtual_start: u64,
    /// The number of pages in the region.
    pub number_of_pages: u64,
    /// The region's attribute bits.
    pub attribute: u64,
}

/// The 32-bit value whose little-endian bytes start at `at`.
pub open spec fn le_u32(bytes: Seq<u8>, at: int) -> u32 {
    (bytes[at] as int + 0x100 * (bytes[at + 1] as int) + 0x1_0000 * (bytes[at + 2] as int)
        + 0x100_0000 * (bytes[at + 3] as int)) as u32
}

/// The 64-bit value whose little-endian bytes start at `at`.
pub open spec fn le_u64(bytes: Seq<u8>, at: int) -> u64 {
    (le_u32(bytes, at) as int + 0x1_0000_0000 * (le_u32(bytes, at + 4) as int)) as u64
}

/// The descriptor whose bytes start at `at`: the type code at offset 0, then,
/// after four bytes of padding, the physical start, the virtual start, the
/// page count and the attributes, eight bytes each.
pub open spec fn descriptor_at(bytes: Seq<u8>, at: int) -> EfiMemoryDescriptor {
    EfiMemoryDescriptor {
        typ: le_u32(bytes, at),
        physical_start: le_u64(bytes, at + 8),
        virtual_start: le_u64(bytes, at + 16),
        number_of_pages: le_u64(bytes, at + 24),
        attribute: le_u64(bytes, at + 32),
    }
}

fn read_u32(bytes: &[u8], at: usize) -> (v: u32)
    requires
        at + 4 <= bytes@.len() <= usize::MAX,
    ensures
        v == le_u32(bytes@, at as int),
{
    let b0: u32 = bytes[at] as u32;
    let b1: u32 = bytes[at + 1] as u32;
    let b2: u32 = bytes[at + 2] as u32;
    let b3: u32 = bytes[at + 3] as u32;
    b0 + 0x100 * b1 + 0x1_0000 * b2 + 0x100_0000 * b3
}

fn read_u64(bytes: &[u8], at: usize) -> (v: u64)
    requires
        at + 8 <= bytes@.len() <= usize::MAX,
    ensures
        v == le_u64(bytes@, at as int),
{
    let low: u64 = read_u32(bytes, at) as u64;
    let high: u64 = read_u32(bytes, at + 4) as u64;
    low + 0x1_0000_0000 * high
}

impl EfiMemoryDescriptor {
    /// A descriptor with every field zero.
    pub fn new() -> (d: EfiMemoryDescriptor)
        ensures
            d == (EfiMemoryDescriptor {
                typ: 0,
                physical_start: 0,
                virtual_start: 0,
                number_of_pages: 0,
                attribute: 0,
            }),
    {
        EfiMemoryDescriptor {
            typ: 0,
            physical_start: 0,
            virtual_start: 0,
            number_of_pages: 0,
            attribute: 0,
        }
    }

    /// The region's memory type: the class of its raw type code.
    pub open spec fn spec_memory_type(&self) -> EfiMemoryType {
        memory_class(self.typ)
    }

    /// The region's memory type.
    #[verifier::when_used_as_spec(spec_memory_type)]
    pub fn memory_type(&self) -> (class: EfiMemoryType)
        ensures
            class == self.spec_memory_type(),
    {
        classify_memory(self.typ)
    }

    /// Decodes the descriptor whose bytes start at `offset`, if the bytes
    /// reach that far.
    pub fn from_bytes(bytes: &[u8], offset: usize) -> (d: Option<EfiMemoryDescriptor>)
        ensures
            d is Some <==> offset + DESCRIPTOR_BYTES <= bytes@.len(),
            d is Some ==> d.unwrap() == descriptor_at(bytes@, offset as int),
    {
        if bytes.len() < DESCRIPTOR_BYTES || offset > bytes.len() - DESCRIPTOR_BYTES {
            return None;
        }
        Some(
            EfiMemoryDescriptor {
                typ: read_u32(bytes, offset),
                physical_start: read_u64(bytes, offset + 8),
                virtual_start: read_u64(bytes, offset + 16),
                number_of_pages: read_u64(bytes, offset + 24),
                attribute: read_u64(bytes, offset + 32),
            },
        )
    }
}

impl Default for EfiMemoryDescriptor {
    fn default() -> (d: EfiMemoryDescriptor)
        ensures
            d == (EfiMemoryDescriptor {
                typ: 0,
                physical_start: 0,
                virtual_start: 0,
                number_of_pages: 0,
                attribute: 0,
            }),
    {
        EfiMemoryDescriptor::new()
    }
}

/// The four bytes of a 32-bit value, lowest first.
pub open spec fn u32_le_bytes(v: u32) -> Seq<u8> {
    seq![
        (v as int % 0x100) as u8,
        (v as int / 0x100 % 0x100) as u8,
        (v as int / 0x1_0000 % 0x100) as u8,
        (v as int / 0x100_0000) as u8,
    ]
}

/// The eight bytes of a 64-bit value, lowest first.
pub open spec fn u64_le_bytes(v: u64) -> Seq<u8> {
    u32_le_bytes((v as int % 0x1_0000_0000) as u32) + u32_le_bytes(
        (v as int / 0x1_0000_0000) as u32,
    )
}

/// The bytes of a descriptor in firmware's layout, with zeros for the padding
/// behind the type code.
pub open spec fn descriptor_bytes(d: EfiMemoryDescriptor) -> Seq<u8> {
    u32_le_bytes(d.typ) + seq![0u8, 0u8, 0u8, 0u8] + u64_le_bytes(d.physical_start) + u64_le_bytes(
        d.virtual_start,
    ) + u64_le_bytes(d.number_of_pages) + u64_le_bytes(d.attribute)
}

/// Reading a 32-bit value where its bytes lie gives the value.
pub proof fn read_finds_u32(bytes: Seq<u8>, at: int, v: u32)
    requires
        0 <= at,
        at + 4 <= bytes.len(),
        bytes.subrange(at, at + 4) == u32_le_bytes(v),
    ensures
        le_u32(bytes, at) == v,
{
    let part = bytes.subrange(at, at + 4);
    assert(part[0] == bytes[at] && part[1] == bytes[at + 1] && part[2] == bytes[at + 2] && part[3]
        == bytes[at + 3]);
}

/// Reading a 64-bit value where its bytes lie gives the value.
pub proof fn read_finds_u64(bytes: Seq<u8>, at: int, v: u64)
    requires
        0 <= at,
        at + 8 <= bytes.len(),
        bytes.subrange(at, at + 8) == u64_le_bytes(v),
    ensures
        le_u64(bytes, at) == v,
{
    let part = bytes.subrange(at, at + 8);
    let low = (v as int % 0x1_0000_0000) as u32;
    let high = (v as int / 0x1_0000_0000) as u32;
    assert(bytes.subrange(at, at + 4) =~= part.subrange(0, 4));
    assert(bytes.subrange(at + 4, at + 8) =~= part.subrange(4, 8));
    assert(part.subrange(0, 4) =~= u32_le_bytes(low));
    assert(part.subrange(4, 8) =~= u32_le_bytes(high));
    read_finds_u32(bytes, at, low);
    read_finds_u32(bytes, at + 4, high);
}

/// Decoding the bytes of a descriptor, wherever they lie in a buffer, gives
/// the descriptor back, field for field.
pub proof fn decoding_finds_descriptor(bytes: Seq<u8>, at: int, d: EfiMemoryDescriptor)
    requires
        0 <= at,
        at + DESCRIPTOR_BYTES <= bytes.len(),
        bytes.subrange(at, at + DESCRIPTOR_BYTES) == descriptor_bytes(d),
    ensures
        descriptor_at(bytes, at) == d,
{
    let part = bytes.subrange(at, at + DESCRIPTOR_BYTES);
    assert(bytes.subrange(at, at + 4) =~= part.subrange(0, 4));
    assert(bytes.subrange(at + 8, at + 16) =~= part.subrange(8, 16));
    assert(bytes.subrange(at + 16, at + 24) =~= part.subrange(16, 24));
    assert(bytes.subrange(at + 24, at + 32) =~= part.subrange(24, 32));
    assert(bytes.subrange(at + 32, at + 40) =~= part.subrange(32, 40));
    assert(part.subrange(0, 4) =~= u32_le_bytes(d.typ));
    assert(part.subrange(8, 16) =~= u64_le_bytes(d.physical_start));
    assert(part.subrange(16, 24) =~= u64_le_bytes(d.virtual_start));
    assert(part.subrange(24, 32) =~= u64_le_bytes(d.number_of_pages));
    assert(part.subrange(32, 40) =~= u64_le_bytes(d.attribute));
    read_finds_u32(bytes, at, d.typ);
    read_finds_u64(bytes, at + 8, d.physical_start);
    read_finds_u64(bytes, at + 16, d.virtual_start);
    read_finds_u64(bytes, at + 24, d.number_of_pages);
    read_finds_u64(bytes, at + 32, d.attribute);
}

/// A code outside the known ones is classified as `Invalid`, and only such a
/// code is.
pub proof fn unknown_codes_are_invalid(code: u32)
    ensures
        memory_class(code) == EfiMemoryType::Invalid <==> code >= MEMORY_TYPE_CODES,
{
}

/// A known code is found again in the type that it names.
pub proof fn classify_keeps_code(code: u32)
    requires
        code < MEMORY_TYPE_CODES,
    ensures
        memory_class(code).spec_code() == Some(code),
{
}

/// A memory type other than `Invalid` is the class of its own code.
pub proof fn code_names_its_type(class: EfiMemoryType)
    requires
        class != EfiMemoryType::Invalid,
    ensures
        class.spec_code() is Some,
        memory_class(class.spec_code().unwrap()) == class,
{
}

} // verus!
