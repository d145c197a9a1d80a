//! The one-shot handshake that takes the machine over from firmware.

use vstd::prelude::*;
use crate::registry::TableRegistry;
use crate::status::Fatal;

verus! {

/// The handle by which firmware knows the running image.
#[derive(Clone, Copy, Debug, PartialEq, Eq, Structural)]
pub struct EfiHandle(pub usize);

/// Who owns the machine. The phases only move forward: from `FirmwareOwned`
/// to `Exiting`, and from there to `ProgramOwned` or to `Failed`.
#[derive(Clone, Copy, Debug, PartialEq, Eq, Structural)]
pub enum BootPhase {
    /// Firmware owns memory and devices; its services can be called.
    FirmwareOwned,
    /// The exit call is under way.
    Exiting,
    /// The program owns the machine. Firmware's boot services are gone.
    ProgramOwned,
    /// The exit call failed. Nothing can be done after that.
    Failed,
}

/// What to ask of firmware's exit operation.
#[derive(Clone, Copy, Debug, PartialEq, Eq, Structural)]
pub struct ExitRequest {
    /// The address of the system table to call through.
    pub table: usize,
    /// The handle of the running image.
    pub handle: EfiHandle,
    /// The key of the memory map, as the snapshot gave it.
    pub key: usize,
}

/// The phase and the result after an exit is asked for in `phase`.
///
/// Only `FirmwareOwned` may start an exit. The request carries the handle and
/// the key unchanged.
pub open spec fn exit_begin(
    phase: BootPhase,
    table: Result<usize, Fatal>,
    handle: EfiHandle,
    key: usize,
) -> (BootPhase, Result<ExitRequest, Fatal>) {
    if phase != BootPhase::FirmwareOwned {
        (phase, Err(Fatal::AlreadyTransitioned))
    } else {
        match table {
            Ok(table) => (BootPhase::Exiting, Ok(ExitRequest { table, handle, key })),
            Err(e) => (phase, Err(e)),
        }
    }
}

/// The phase and the result after firmware answered the exit call with
/// `status`.
pub open spec fn exit_finish(phase: BootPhase, status: u64) -> (BootPhase, Result<(), Fatal>) {
    if phase != BootPhase::Exiting {
        (phase, Err(Fatal::NotExiting))
    } else if status == 0 {
        (BootPhase::ProgramOwned, Ok(()))
    } else {
        (BootPhase::Failed, Err(Fatal::Firmware(status)))
    }
}

/// The state of the exit handshake.
#[derive(Debug)]
pub struct ExitHandshake {
    phase: BootPhase,
}

impl ExitHandshake {
    /// The phase that the handshake is in.
    pub closed spec fn spec_phase(&self) -> BootPhase {
        self.phase
    }

    /// A handshake that has not begun: firmware owns the machine.
    pub fn new() -> (handshake: ExitHandshake)
        ensures
            handshake.spec_phase() == BootPhase::FirmwareOwned,
    {
        ExitHandshake { phase: BootPhase::FirmwareOwned }
    }

    /// The phase that the handshake is in.
    #[verifier::when_used_as_spec(spec_phase)]
    pub fn phase(&self) -> (phase: BootPhase)
        ensures
            phase == self.spec_phase(),
    {
        self.phase
    }

    /// Starts the exit: gives the call to make of firmware, with the handle
    /// and the key unchanged, and moves to `Exiting`. In any phase but
    /// `FirmwareOwned`, and without a captured table, nothing changes and the
    /// fatal condition is returned.
    pub fn begin(&mut self, registry: &TableRegistry, handle: EfiHandle, key: usize) -> (result:
        Result<ExitRequest, Fatal>)
        ensures
            (final(self).spec_phase(), result) == exit_begin(
                old(self).spec_phase(),
                registry.current_spec(),
                handle,
                key,
            ),
    {
        match self.phase {
            BootPhase::FirmwareOwned => {},
            _ => {
                return Err(Fatal::AlreadyTransitioned);
            },
        }
        match registry.current() {
            Ok(table) => {
                self.phase = BootPhase::Exiting;
                Ok(ExitRequest { table, handle, key })
            },
            Err(e) => Err(e),
        }
    }

    /// Takes firmware's answer to the exit call: success moves to
    /// `ProgramOwned`, any other status to `Failed` with that status as the
    /// fatal condition. Outside `Exiting` nothing changes.
    pub fn finish(&mut self, status: u64) -> (result: Result<(), Fatal>)
        ensures
            (final(self).spec_phase(), result) == exit_finish(old(self).spec_phase(), status),
    {
        match self.phase {
            BootPhase::Exiting => {},
            _ => {
                return Err(Fatal::NotExiting);
            },
        }
        if status == 0 {
            self.phase = BootPhase::ProgramOwned;
            Ok(())
        } else {
            self.phase = BootPhase::Failed;
            Err(Fatal::Firmware(status))
        }
    }
}

/// Starts the exit from firmware's ownership with the image's handle and the
/// key of the latest memory map.
pub fn exit_boot(
    handshake: &mut ExitHandshake,
    registry: &TableRegistry,
    handle: EfiHandle,
    key: usize,
) -> (result: Result<ExitRequest, Fatal>)
    ensures
        (final(handshake).spec_phase(), result) == exit_begin(
            old(handshake).spec_phase(),
            registry.current_spec(),
            handle,
            key,
        ),
{
    handshake.begin(registry, handle, key)
}

/// With a firmware that lets the exit succeed for the key `fresh` and for no
/// other, a handshake begun with `key` ends in `ProgramOwned` if `key` is
/// `fresh`, and otherwise in `Failed` with firmware's status as the fatal
/// condition. Either way firmware is handed `key` itself.
pub proof fn exit_succeeds_for_the_fresh_key_only(
    table: usize,
    handle: EfiHandle,
    fresh: usize,
    key: usize,
    status: u64,
)
    requires
        status == 0 <==> key == fresh,
    ensures
        exit_begin(BootPhase::FirmwareOwned, Ok(table), handle, key) == (
            BootPhase::Exiting,
            Ok::<ExitRequest, Fatal>(ExitRequest { table, handle, key }),
        ),
        key == fresh ==> exit_finish(BootPhase::Exiting, status) == (
            BootPhase::ProgramOwned,
            Ok::<(), Fatal>(()),
        ),
        key != fresh ==> exit_finish(BootPhase::Exiting, status) == (
            BootPhase::Failed,
            Err::<(), Fatal>(Fatal::Firmware(status)),
        ),
{
}

/// The handshake never goes back: once it has left `FirmwareOwned`, no exit
/// can be started, and once it has ended, no answer of firmware changes it.
pub proof fn phases_only_move_forward(
    phase: BootPhase,
    table: Result<usize, Fatal>,
    handle: EfiHandle,
    key: usize,
    status: u64,
)
    ensures
        phase != BootPhase::FirmwareOwned ==> exit_begin(phase, table, handle, key) == (
            phase,
            Err::<ExitRequest, Fatal>(Fatal::AlreadyTransitioned),
        ),
        phase == BootPhase::ProgramOwned || phase == BootPhase::Failed ==> exit_finish(
            phase,
            status,
        ).0 == phase,
        exit_finish(phase, status).0 != BootPhase::FirmwareOwned || phase
            == BootPhase::FirmwareOwned,
        exit_finish(phase, status).0 != BootPhase::Exiting || phase == BootPhase::Exiting,
{
}

} // verus!
