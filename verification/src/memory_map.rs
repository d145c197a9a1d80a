//! Reading the memory map that firmware wrote into a fixed buffer.

use vstd::prelude::*;
use crate::memory::{
    decoding_finds_descriptor, descriptor_at, descriptor_bytes, EfiMemoryDescriptor,
    DESCRIPTOR_BYTES,
};
use crate::registry::TableRegistry;
use crate::status::{EfiStatus, Fatal};

verus! {

/// The number of descriptors that a snapshot can hold.
pub const MEMORY_MAP_CAPACITY: usize = 64;

/// The size in bytes of the buffer that is offered to firmware: room for
/// `MEMORY_MAP_CAPACITY` descriptors of `DESCRIPTOR_BYTES` bytes.
pub const MEMORY_MAP_BYTES: usize = 2560;

/// What to ask of firmware's memory-map operation.
#[derive(Clone, Copy, Debug, PartialEq, Eq, Structural)]
pub struct MemoryMapRequest {
    /// The address of the system table to call through.
    pub table: usize,
    /// The size in bytes of the buffer to offer.
    pub buffer_size: usize,
}

/// What firmware's memory-map operation handed back, beside the buffer it
/// filled.
#[derive(Clone, Copy, Debug, PartialEq, Eq, Structural)]
pub struct MemoryMapReply {
    /// The status code of the call.
    pub status: u64,
    /// The number of bytes of the buffer that hold the map.
    pub size: usize,
    /// The key of this map.
    pub key: usize,
    /// The distance in bytes from one descriptor to the next.
    pub descriptor_size: usize,
    /// The version of the descriptor format.
    pub descriptor_version: u32,
}

/// The memory map of one query.
#[derive(Debug)]
pub struct MemoryMapSnapshot {
    /// The regions, in the order in which firmware reported them.
    pub descriptors: Vec<EfiMemoryDescriptor>,
    /// The number of bytes of the buffer that held the map.
    pub size: usize,
    /// The distance in bytes from one descriptor to the next in the buffer.
    pub descriptor_size: usize,
    /// The version of the descriptor format.
    pub descriptor_version: u32,
    /// The key that ties this map to the exit handshake.
    pub key: usize,
}

impl View for MemoryMapSnapshot {
    type V = Seq<EfiMemoryDescriptor>;

    open spec fn view(&self) -> Seq<EfiMemoryDescriptor> {
        self.descriptors@
    }
}

impl MemoryMapSnapshot {
    /// A snapshot holds no more descriptors than its capacity, and as many as
    /// fit into its size at its stride.
    pub open spec fn well_formed(&self) -> bool {
        &&& self.descriptor_size >= DESCRIPTOR_BYTES
        &&& self@.len() == self.size / self.descriptor_size
        &&& self@.len() <= MEMORY_MAP_CAPACITY
    }

    /// The snapshot that a reply and the buffer's bytes give.
    pub open spec fn holds(&self, reply: MemoryMapReply, buffer: Seq<u8>) -> bool {
        &&& self@ == map_descriptors(reply, buffer)
        &&& self.size == reply.size
        &&& self.descriptor_size == reply.descriptor_size
        &&& self.descriptor_version == reply.descriptor_version
        &&& self.key == reply.key
    }

    /// The number of regions.
    pub fn len(&self) -> (n: usize)
        ensures
            n == self@.len(),
    {
        self.descriptors.len()
    }

    /// The region at `index`, if there is one.
    pub fn get(&self, index: usize) -> (d: Option<EfiMemoryDescriptor>)
        ensures
            d == if index < self@.len() {
                Some(self@[index as int])
            } else {
                None
            },
    {
        if index < self.descriptors.len() {
            Some(self.descriptors[index])
        } else {
            None
        }
    }
}

/// The number of descriptors in a reply: as many strides as fit into the
/// bytes that firmware filled.
pub open spec fn map_count(reply: MemoryMapReply) -> nat {
    (reply.size as int / reply.descriptor_size as int) as nat
}

/// Why a reply gives no snapshot, if it gives none: firmware did not succeed,
/// the stride is shorter than a descriptor, or the map does not fit.
pub open spec fn map_rejection(reply: MemoryMapReply, buffer_len: nat) -> Option<Fatal> {
    if reply.status == EfiStatus::BufferTooSmall.spec_code() {
        Some(Fatal::BufferTooSmall)
    } else if reply.status != 0 {
        Some(Fatal::Firmware(reply.status))
    } else if reply.descriptor_size < DESCRIPTOR_BYTES {
        Some(Fatal::BadDescriptorSize)
    } else if reply.size > buffer_len || map_count(reply) > MEMORY_MAP_CAPACITY {
        Some(Fatal::BufferTooSmall)
    } else {
        None
    }
}

/// The descriptors of a reply: the one at index `i` starts `i` strides into
/// the buffer.
pub open spec fn map_descriptors(reply: MemoryMapReply, buffer: Seq<u8>) -> Seq<
    EfiMemoryDescriptor,
> {
    Seq::new(map_count(reply), |i: int| descriptor_at(buffer, i * reply.descriptor_size))
}

/// The query to make of firmware, or the fatal condition that the system
/// table was not captured.
pub fn memory_map_request(registry: &TableRegistry) -> (request: Result<MemoryMapRequest, Fatal>)
    ensures
        request == match registry.current_spec() {
            Ok(table) => Ok(MemoryMapRequest { table, buffer_size: MEMORY_MAP_BYTES }),
            Err(e) => Err(e),
        },
{
    match registry.current() {
        Ok(table) => Ok(MemoryMapRequest { table, buffer_size: MEMORY_MAP_BYTES }),
        Err(e) => Err(e),
    }
}

/// Turns what firmware's memory-map operation returned into a snapshot.
///
/// Any status but success is fatal, and so is a map that the buffer or the
/// snapshot's capacity cannot hold: nothing partial is produced. Otherwise
/// the buffer is walked in strides of the reported descriptor size, and the
/// snapshot carries the reply's key unchanged.
pub fn get_memory_map(reply: &MemoryMapReply, buffer: &[u8]) -> (result: Result<
    MemoryMapSnapshot,
    Fatal,
>)
    ensures
        match result {
            Ok(snapshot) => {
                &&& map_rejection(*reply, buffer@.len()) is None
                &&& snapshot.holds(*reply, buffer@)
                &&& snapshot.well_formed()
            },
            Err(e) => map_rejection(*reply, buffer@.len()) == Some(e),
        },
{
    if reply.status == EfiStatus::BufferTooSmall.code() {
        return Err(Fatal::BufferTooSmall);
    }
    if reply.status != 0 {
        return Err(Fatal::Firmware(reply.status));
    }
    let stride: usize = reply.descriptor_size;
    if stride < DESCRIPTOR_BYTES {
        return Err(Fatal::BadDescriptorSize);
    }
    let count: usize = reply.size / stride;
    if reply.size > buffer.len() || count > MEMORY_MAP_CAPACITY {
        return Err(Fatal::BufferTooSmall);
    }
    assert(count * stride <= reply.size) by (nonlinear_arith)
        requires
            count == reply.size / stride,
            stride > 0,
    ;
    let mut descriptors: Vec<EfiMemoryDescriptor> = Vec::new();
    let mut index: usize = 0;
    let mut offset: usize = 0;
    while index < count
        invariant
            index <= count,
            offset == index * stride,
            count * stride <= reply.size <= buffer@.len(),
            stride >= DESCRIPTOR_BYTES,
            descriptors@.len() == index,
            forall|j: int|
                0 <= j < index ==> descriptors@[j] == descriptor_at(buffer@, j * stride),
        decreases count - index,
    {
        assert((index + 1) * stride <= count * stride) by (nonlinear_arith)
            requires
                index < count,
        ;
        assert((index + 1) * stride == index * stride + stride) by (nonlinear_arith);
        match EfiMemoryDescriptor::from_bytes(buffer, offset) {
            Some(d) => {
                descriptors.push(d);
            },
            None => {
                assert(false);
            },
        }
        index += 1;
        offset += stride;
    }
    assert(descriptors@ =~= map_descriptors(*reply, buffer@));
    Ok(
        MemoryMapSnapshot {
            descriptors,
            size: reply.size,
            descriptor_size: stride,
            descriptor_version: reply.descriptor_version,
            key: reply.key,
        },
    )
}

/// When firmware succeeds and reports no more descriptors than the snapshot
/// holds, the snapshot has exactly the reported descriptors, in the reported
/// order, each field as firmware wrote it.
pub proof fn snapshot_keeps_reported_descriptors(
    reply: MemoryMapReply,
    buffer: Seq<u8>,
    reported: Seq<EfiMemoryDescriptor>,
)
    requires
        reply.status == 0,
        reply.descriptor_size >= DESCRIPTOR_BYTES,
        reported.len() <= MEMORY_MAP_CAPACITY,
        reply.size == reported.len() * reply.descriptor_size,
        reply.size <= buffer.len(),
        forall|i: int|
            0 <= i < reported.len() ==> buffer.subrange(
                i * reply.descriptor_size,
                i * reply.descriptor_size + DESCRIPTOR_BYTES,
            ) == descriptor_bytes(#[trigger] reported[i]),
    ensures
        map_rejection(reply, buffer.len()) is None,
        map_descriptors(reply, buffer) == reported,
{
    let stride = reply.descriptor_size as int;
    let n = reported.len() as int;
    assert((n * stride) / stride == n) by (nonlinear_arith)
        requires
            stride > 0,
    ;
    assert forall|i: int| 0 <= i < n implies descriptor_at(buffer, i * stride) == reported[i] by {
        assert(i * stride + stride <= n * stride) by (nonlinear_arith)
            requires
                0 <= i < n,
                stride > 0,
        ;
        assert(0 <= i * stride) by (nonlinear_arith)
            requires
                0 <= i,
                stride > 0,
        ;
        decoding_finds_descriptor(buffer, i * stride, reported[i]);
    }
    assert(map_descriptors(reply, buffer) =~= reported);
}

/// When firmware reports more descriptors than the snapshot holds, whether by
/// its status or by the size it gives, the reply is rejected as too large for
/// the buffer.
pub proof fn overfull_map_is_rejected(reply: MemoryMapReply, buffer_len: nat)
    requires
        reply.status == 0 || reply.status == EfiStatus::BufferTooSmall.spec_code(),
        reply.descriptor_size >= DESCRIPTOR_BYTES,
        reply.status == 0 ==> map_count(reply) > MEMORY_MAP_CAPACITY,
    ensures
        map_rejection(reply, buffer_len) == Some(Fatal::BufferTooSmall),
{
}

/// The buffer offered to firmware holds the snapshot's capacity of
/// descriptors, and no reply that fits it exceeds that capacity.
pub proof fn buffer_matches_capacity(reply: MemoryMapReply)
    requires
        reply.descriptor_size >= DESCRIPTOR_BYTES,
        reply.size <= MEMORY_MAP_BYTES,
    ensures
        MEMORY_MAP_BYTES == MEMORY_MAP_CAPACITY * DESCRIPTOR_BYTES,
        map_count(reply) <= MEMORY_MAP_CAPACITY,
{
    let stride = reply.descriptor_size as int;
    let size = reply.size as int;
    assert(size / stride <= 64) by (nonlinear_arith)
        requires
            stride >= 40,
            0 <= size <= 2560,
    ;
}

} // verus!
