//! The line of text that reports one memory region on the console.

use vstd::prelude::*;
use vstd::string::StringExecFns;
use crate::memory::{memory_class, EfiMemoryDescriptor, EfiMemoryType};

verus! {

/// The name of a memory type, as it is written in reports.
pub open spec fn memory_type_name(class: EfiMemoryType) -> Seq<char> {
    match class {
        EfiMemoryType::ReservedMemoryType => "ReservedMemoryType"@,
        EfiMemoryType::LoaderCode => "LoaderCode"@,
        EfiMemoryType::LoaderData => "LoaderData"@,
        EfiMemoryType::BootServicesCode => "BootServicesCode"@,
        EfiMemoryType::BootServicesData => "BootServicesData"@,
        EfiMemoryType::RuntimeServicesCode => "RuntimeServicesCode"@,
        EfiMemoryType::RuntimeServicesData => "RuntimeServicesData"@,
        EfiMemoryType::ConventionalMemory => "ConventionalMemory"@,
        EfiMemoryType::UnusableMemory => "UnusableMemory"@,
        EfiMemoryType::ACPIReclaimMemory => "ACPIReclaimMemory"@,
        EfiMemoryType::ACPIMemoryNVS => "ACPIMemoryNVS"@,
        EfiMemoryType::MemoryMappedIO => "MemoryMappedIO"@,
        EfiMemoryType::MemoryMappedIOPortSpace => "MemoryMappedIOPortSpace"@,
        EfiMemoryType::PalCode => "PalCode"@,
        EfiMemoryType::PersistentMemory => "PersistentMemory"@,
        EfiMemoryType::MaxMemoryType => "MaxMemoryType"@,
        EfiMemoryType::Invalid => "Invalid"@,
    }
}

/// The character of a decimal digit.
pub open spec fn digit_char(d: nat) -> char {
    if d == 0 {
        '0'
    } else if d == 1 {
        '1'
    } else if d == 2 {
        '2'
    } else if d == 3 {
        '3'
    } else if d == 4 {
        '4'
    } else if d == 5 {
        '5'
    } else if d == 6 {
        '6'
    } else if d == 7 {
        '7'
    } else if d == 8 {
        '8'
    } else {
        '9'
    }
}

/// A number in decimal, without leading zeros.
pub open spec fn decimal(n: nat) -> Seq<char>
    decreases n,
{
    if n < 10 {
        seq![digit_char(n)]
    } else {
        decimal(n / 10).push(digit_char(n % 10))
    }
}

/// The report of a region: the name of its memory type, its physical start,
/// its virtual start and its page count, with a comma and a space between
/// them and a line feed at the end.
pub open spec fn region_report(d: EfiMemoryDescriptor) -> Seq<char> {
    memory_type_name(memory_class(d.typ)) + ", "@ + decimal(d.physical_start as nat) + ", "@
        + decimal(d.virtual_start as nat) + ", "@ + decimal(d.number_of_pages as nat) + "\n"@
}

fn digit_text(d: u64) -> (text: &'static str)
    requires
        d < 10,
    ensures
        text@ == seq![digit_char(d as nat)],
{
    proof {
        reveal_strlit("0");
        reveal_strlit("1");
        reveal_strlit("2");
        reveal_strlit("3");
        reveal_strlit("4");
        reveal_strlit("5");
        reveal_strlit("6");
        reveal_strlit("7");
        reveal_strlit("8");
        reveal_strlit("9");
    }
    let text = match d {
        0 => "0",
        1 => "1",
        2 => "2",
        3 => "3",
        4 => "4",
        5 => "5",
        6 => "6",
        7 => "7",
        8 => "8",
        _ => "9",
    };
    assert(text@ =~= seq![digit_char(d as nat)]);
    text
}

/// Appends a number in decimal to a text.
pub fn append_decimal(text: &mut String, n: u64)
    ensures
        final(text)@ == old(text)@ + decimal(n as nat),
    decreases n,
{
    if n >= 10 {
        append_decimal(text, n / 10);
    }
    text.append(digit_text(n % 10));
    assert(text@ =~= old(text)@ + decimal(n as nat));
}

impl EfiMemoryType {
    /// The name of the memory type.
    pub fn name(self) -> (name: &'static str)
        ensures
            name@ == memory_type_name(self),
    {
        match self {
            EfiMemoryType::ReservedMemoryType => "ReservedMemoryType",
            EfiMemoryType::LoaderCode => "LoaderCode",
            EfiMemoryType::LoaderData => "LoaderData",
            EfiMemoryType::BootServicesCode => "BootServicesCode",
            EfiMemoryType::BootServicesData => "BootServicesData",
            EfiMemoryType::RuntimeServicesCode => "RuntimeServicesCode",
            EfiMemoryType::RuntimeServicesData => "RuntimeServicesData",
            EfiMemoryType::ConventionalMemory => "ConventionalMemory",
            EfiMemoryType::UnusableMemory => "UnusableMemory",
            EfiMemoryType::ACPIReclaimMemory => "ACPIReclaimMemory",
            EfiMemoryType::ACPIMemoryNVS => "ACPIMemoryNVS",
            EfiMemoryType::MemoryMappedIO => "MemoryMappedIO",
            EfiMemoryType::MemoryMappedIOPortSpace => "MemoryMappedIOPortSpace",
            EfiMemoryType::PalCode => "PalCode",
            EfiMemoryType::PersistentMemory => "PersistentMemory",
            EfiMemoryType::MaxMemoryType => "MaxMemoryType",
            EfiMemoryType::Invalid => "Invalid",
        }
    }
}

impl EfiMemoryDescriptor {
    /// The line that reports this region on the console.
    pub fn report_line(&self) -> (line: String)
        ensures
            line@ == region_report(*self),
    {
        let mut line = String::from_str(self.memory_type().name());
        line.append(", ");
        append_decimal(&mut line, self.physical_start);
        line.append(", ");
        append_decimal(&mut line, self.virtual_start);
        line.append(", ");
        append_decimal(&mut line, self.number_of_pages);
        line.append("\n");
        line
    }
}

} // verus!
