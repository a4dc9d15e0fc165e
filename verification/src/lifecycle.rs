//! Boot-session lifecycle: device validation and the run-loop decisions.
//!
//! A boot session validates the devices, rebuilds the mapping table and the
//! info block, and then loops: reset every device, start every device
//! controller, wait for a control message, halt every controller, and
//! either loop again (reboot) or leave the loop (halt).  The waiting, the
//! threads and the callbacks belong to the unverified host shell; what is
//! decided — which descriptor sets are valid, and what each control message
//! means for the loop — is verified here.

use vstd::prelude::*;

use crate::device::Device;
use crate::errors::Error;

verus! {

/// A message on the motherboard's control channel.
#[derive(Clone, Copy, PartialEq, Eq, Structural, Debug)]
pub enum MotherboardInterrupt {
    /// Leave the run loop and shut the machine down.
    Halt,
    /// Halt every device controller, then run another boot iteration.
    Reboot,
}

/// What the run loop does after the control wait returns.
#[derive(Clone, Copy, PartialEq, Eq, Structural, Debug)]
pub enum RunDecision {
    /// Reset the devices and start their controllers again.
    Again,
    /// Leave the run loop and clean up.
    Exit,
}

/// The first validation failure of `devices`, if any: per device, a
/// declared memory mapping without both memory callbacks is reported
/// before a `boot` callback without `halt`.
pub open spec fn validation_error(devices: Seq<Device>) -> Option<Error>
    decreases devices.len(),
{
    if devices.len() == 0 {
        None
    } else if !devices[0].mapping_complete() {
        Some(Error::MemoryMappingIncomplete)
    } else if !devices[0].halt_complete() {
        Some(Error::MissingHalt)
    } else {
        validation_error(devices.drop_first())
    }
}

/// Validation can only report the two descriptor errors.
pub proof fn lemma_validation_error_kinds(devices: Seq<Device>)
    ensures
        validation_error(devices) is Some ==> validation_error(devices) == Some(
            Error::MemoryMappingIncomplete,
        ) || validation_error(devices) == Some(Error::MissingHalt),
    decreases devices.len(),
{
    if devices.len() > 0 {
        lemma_validation_error_kinds(devices.drop_first());
    }
}

/// Checks every device for the two descriptor invariants: a mapping device
/// must supply both memory callbacks, and a bootable device must supply
/// `halt`.  Returns the first failure, in device order; no failure means
/// every device is ready to boot.
pub fn validate_devices(devices: &Vec<Device>) -> (found: Option<Error>)
    ensures
        found == validation_error(devices@),
        found is None <==> forall|j: int|
            0 <= j < devices@.len() ==> (#[trigger] devices@[j]).boot_ready(),
{
    let mut i: usize = 0;
    proof {
        assert(devices@.skip(0) =~= devices@);
    }
    while i < devices.len()
        invariant
            i <= devices@.len(),
            validation_error(devices@) == validation_error(devices@.skip(i as int)),
            forall|j: int| 0 <= j < i ==> (#[trigger] devices@[j]).boot_ready(),
        decreases devices@.len() - i,
    {
        proof {
            assert(devices@.skip(i as int)[0] == devices@[i as int]);
            assert(devices@.skip(i as int).drop_first() =~= devices@.skip(i + 1));
        }
        let device = devices[i];
        if device.maps_memory() && !(device.has_load_bytes && device.has_write_bytes) {
            return Some(Error::MemoryMappingIncomplete);
        }
        if device.has_boot && !device.has_halt {
            return Some(Error::MissingHalt);
        }
        i = i + 1;
    }
    proof {
        assert(devices@.skip(devices@.len() as int) =~= Seq::<Device>::empty());
    }
    None
}

/// Decides the run loop's next step from what the control wait produced:
/// a reboot message runs another iteration; a halt message — or a closed
/// channel, reported as `None` — leaves the loop.
pub fn run_decision(message: Option<MotherboardInterrupt>) -> (decision: RunDecision)
    ensures
        decision == (match message {
            Some(MotherboardInterrupt::Reboot) => RunDecision::Again,
            _ => RunDecision::Exit,
        }),
        (decision is Exit) <==> (message is None || message == Some(MotherboardInterrupt::Halt)),
{
    match message {
        Some(MotherboardInterrupt::Reboot) => RunDecision::Again,
        _ => RunDecision::Exit,
    }
}

} // verus!
