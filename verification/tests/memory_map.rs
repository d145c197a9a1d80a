use uefi_boot::memory::{EfiMemoryDescriptor, EfiMemoryType, DESCRIPTOR_BYTES};
use uefi_boot::memory_map::{
    get_memory_map, memory_map_request, MemoryMapReply, MemoryMapRequest, MEMORY_MAP_BYTES,
    MEMORY_MAP_CAPACITY,
};
use uefi_boot::registry::TableRegistry;
use uefi_boot::status::{EfiStatus, Fatal};

fn descriptor(n: u64) -> EfiMemoryDescriptor {
    EfiMemoryDescriptor {
        typ: (n % 20) as u32,
        physical_start: 0x1000 * n + 0x0102_0304_0506_0708,
        virtual_start: 0xffff_8000_0000_0000 + n,
        number_of_pages: n * n + 1,
        attribute: 0x8000_0000_0000_000f ^ n,
    }
}

fn write_descriptor(buffer: &mut [u8], at: usize, d: &EfiMemoryDescriptor) {
    buffer[at..at + 4].copy_from_slice(&d.typ.to_le_bytes());
    buffer[at + 8..at + 16].copy_from_slice(&d.physical_start.to_le_bytes());
    buffer[at + 16..at + 24].copy_from_slice(&d.virtual_start.to_le_bytes());
    buffer[at + 24..at + 32].copy_from_slice(&d.number_of_pages.to_le_bytes());
    buffer[at + 32..at + 40].copy_from_slice(&d.attribute.to_le_bytes());
}

/// A firmware that holds `regions` and answers a query into a buffer of
/// `capacity` bytes as the real one does.
fn firmware_query(
    regions: &[EfiMemoryDescriptor],
    stride: usize,
    key: usize,
    capacity: usize,
) -> (MemoryMapReply, Vec<u8>) {
    let mut buffer = vec![0xAAu8; capacity];
    let needed = regions.len() * stride;
    if needed > capacity {
        let reply = MemoryMapReply {
            status: EfiStatus::BufferTooSmall.code(),
            size: needed,
            key: 0,
            descriptor_size: stride,
            descriptor_version: 1,
        };
        return (reply, buffer);
    }
    for (i, d) in regions.iter().enumerate() {
        write_descriptor(&mut buffer, i * stride, d);
    }
    let reply = MemoryMapReply {
        status: 0,
        size: needed,
        key,
        descriptor_size: stride,
        descriptor_version: 1,
    };
    (reply, buffer)
}

fn regions(n: usize) -> Vec<EfiMemoryDescriptor> {
    (0..n as u64).map(descriptor).collect()
}

#[test]
fn constants_agree() {
    assert_eq!(DESCRIPTOR_BYTES, 40);
    assert_eq!(MEMORY_MAP_CAPACITY, 64);
    assert_eq!(MEMORY_MAP_BYTES, MEMORY_MAP_CAPACITY * DESCRIPTOR_BYTES);
}

#[test]
fn request_needs_a_captured_table() {
    let mut registry = TableRegistry::new();
    assert_eq!(memory_map_request(&registry), Err(Fatal::TableNotCaptured));
    registry.capture(0x5000);
    assert_eq!(
        memory_map_request(&registry),
        Ok(MemoryMapRequest { table: 0x5000, buffer_size: 2560 })
    );
}

#[test]
fn snapshot_holds_the_reported_descriptors_in_order() {
    for n in [0usize, 1, 3, 17, 63, 64] {
        let reported = regions(n);
        let (reply, buffer) = firmware_query(&reported, 40, 0x1234, MEMORY_MAP_BYTES);
        let snapshot = get_memory_map(&reply, &buffer).unwrap();
        assert_eq!(snapshot.len(), n);
        assert_eq!(snapshot.descriptors, reported);
        assert_eq!(snapshot.key, 0x1234);
        assert_eq!(snapshot.size, n * 40);
        assert_eq!(snapshot.descriptor_size, 40);
        assert_eq!(snapshot.descriptor_version, 1);
        for i in 0..n {
            assert_eq!(snapshot.get(i), Some(reported[i]));
        }
        assert_eq!(snapshot.get(n), None);
    }
}

#[test]
fn snapshot_walks_the_buffer_by_the_reported_stride() {
    let reported = regions(5);
    let (reply, buffer) = firmware_query(&reported, 48, 9, MEMORY_MAP_BYTES);
    let snapshot = get_memory_map(&reply, &buffer).unwrap();
    assert_eq!(snapshot.descriptors, reported);
    assert_eq!(snapshot.descriptor_size, 48);
    assert_eq!(snapshot.size, 240);
}

#[test]
fn bytes_behind_the_last_whole_stride_are_left_out() {
    let reported = regions(2);
    let (mut reply, buffer) = firmware_query(&reported, 48, 9, MEMORY_MAP_BYTES);
    reply.size = 100;
    let snapshot = get_memory_map(&reply, &buffer).unwrap();
    assert_eq!(snapshot.descriptors, reported);
}

#[test]
fn too_many_regions_are_a_capacity_failure() {
    for n in [65usize, 66, 200] {
        let reported = regions(n);
        let (reply, buffer) = firmware_query(&reported, 40, 7, MEMORY_MAP_BYTES);
        assert_eq!(get_memory_map(&reply, &buffer).unwrap_err(), Fatal::BufferTooSmall);
    }
}

#[test]
fn a_size_beyond_the_buffer_is_a_capacity_failure() {
    let buffer = vec![0u8; MEMORY_MAP_BYTES];
    let reply = MemoryMapReply {
        status: 0,
        size: MEMORY_MAP_BYTES + 40,
        key: 1,
        descriptor_size: 40,
        descriptor_version: 1,
    };
    assert_eq!(get_memory_map(&reply, &buffer).unwrap_err(), Fatal::BufferTooSmall);
    let large = vec![0u8; 65 * 40];
    let reply = MemoryMapReply {
        status: 0,
        size: 65 * 40,
        key: 1,
        descriptor_size: 40,
        descriptor_version: 1,
    };
    assert_eq!(get_memory_map(&reply, &large).unwrap_err(), Fatal::BufferTooSmall);
}

#[test]
fn a_failed_query_is_fatal_with_its_status() {
    let buffer = vec![0u8; MEMORY_MAP_BYTES];
    for status in [
        EfiStatus::InvalidParameter.code(),
        EfiStatus::Unsupported.code(),
        EfiStatus::WarnStaleData.code(),
        0x1234_5678,
    ] {
        let reply =
            MemoryMapReply { status, size: 80, key: 1, descriptor_size: 40, descriptor_version: 1 };
        assert_eq!(get_memory_map(&reply, &buffer).unwrap_err(), Fatal::Firmware(status));
    }
}

#[test]
fn a_stride_shorter_than_a_descriptor_is_fatal() {
    let buffer = vec![0u8; MEMORY_MAP_BYTES];
    for stride in [0usize, 1, 39] {
        let reply = MemoryMapReply {
            status: 0,
            size: 80,
            key: 1,
            descriptor_size: stride,
            descriptor_version: 1,
        };
        assert_eq!(get_memory_map(&reply, &buffer).unwrap_err(), Fatal::BadDescriptorSize);
    }
}

#[test]
fn descriptor_decodes_little_endian_fields() {
    let mut bytes = vec![0u8; 48];
    let raw: [u8; 40] = [
        0x07, 0x00, 0x00, 0x00, 0xEE, 0xEE, 0xEE, 0xEE, // type 7, padding
        0x00, 0x10, 0x00, 0x00, 0x00, 0x00, 0x00, 0x00, // physical 0x1000
        0x08, 0x07, 0x06, 0x05, 0x04, 0x03, 0x02, 0x01, // virtual
        0x00, 0x01, 0x00, 0x00, 0x00, 0x00, 0x00, 0x00, // 256 pages
        0x0F, 0x00, 0x00, 0x00, 0x00, 0x00, 0x00, 0x80, // attributes
    ];
    bytes[8..48].copy_from_slice(&raw);
    let d = EfiMemoryDescriptor::from_bytes(&bytes, 8).unwrap();
    assert_eq!(d.typ, 7);
    assert_eq!(d.physical_start, 0x1000);
    assert_eq!(d.virtual_start, 0x0102_0304_0506_0708);
    assert_eq!(d.number_of_pages, 256);
    assert_eq!(d.attribute, 0x8000_0000_0000_000F);
    assert_eq!(d.memory_type(), EfiMemoryType::ConventionalMemory);
}

#[test]
fn descriptor_needs_all_its_bytes() {
    let bytes = vec![0u8; 48];
    assert!(EfiMemoryDescriptor::from_bytes(&bytes, 8).is_some());
    assert_eq!(EfiMemoryDescriptor::from_bytes(&bytes, 9), None);
    assert_eq!(EfiMemoryDescriptor::from_bytes(&bytes, usize::MAX), None);
    assert_eq!(EfiMemoryDescriptor::from_bytes(&bytes[..39], 0), None);
    assert_eq!(EfiMemoryDescriptor::from_bytes(&[], 0), None);
}

#[test]
fn descriptor_decodes_extreme_values() {
    let d = EfiMemoryDescriptor {
        typ: u32::MAX,
        physical_start: u64::MAX,
        virtual_start: 0,
        number_of_pages: 1 << 63,
        attribute: 0x00ff_00ff_00ff_00ff,
    };
    let mut bytes = vec![0u8; 40];
    write_descriptor(&mut bytes, 0, &d);
    assert_eq!(EfiMemoryDescriptor::from_bytes(&bytes, 0), Some(d));
    assert_eq!(d.memory_type(), EfiMemoryType::Invalid);
}

#[test]
fn default_descriptor_is_all_zero() {
    let d = EfiMemoryDescriptor::default();
    assert_eq!(d, EfiMemoryDescriptor::new());
    assert_eq!(
        d,
        EfiMemoryDescriptor {
            typ: 0,
            physical_start: 0,
            virtual_start: 0,
            number_of_pages: 0,
            attribute: 0
        }
    );
    assert_eq!(d.memory_type(), EfiMemoryType::ReservedMemoryType);
}
