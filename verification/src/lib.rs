//! Early-boot bridge between UEFI firmware and a freestanding program.
//!
//! The library holds the decisions of the boot phase: the single-assignment
//! registry of the firmware's system table, the vocabulary of status codes and
//! memory types, the decoding of a memory map that firmware wrote and the
//! report of its regions, the one-shot exit handshake, and the encoding and
//! chunking of console text. The firmware calls
//! themselves are made by the embedding program, which hands the library what
//! firmware returned.

pub mod console;
pub mod handshake;
pub mod memory;
pub mod memory_map;
pub mod print;
pub mod registry;
pub mod report;
pub mod status;
