//! Startup decisions around device selection.
//!
//! Discovery and the interactive prompt belong to the binary; the rule for
//! what to do with the number of discovered devices is decided here.

use vstd::prelude::*;

use crate::errors::PipelineError;

verus! {

/// How to pick among the discovered MIDI input devices.
#[derive(Clone, Copy, PartialEq, Eq, Structural, Debug)]
pub enum DeviceChoice {
    /// Exactly one device was found: take it without asking.
    AutoFirst,
    /// Several devices were found: ask the user to pick one.
    Prompt,
}

/// Decide how device selection proceeds from the number of discovered
/// devices: none is a fatal startup error, one is taken silently, and more
/// than one goes to an interactive prompt.
pub fn choose_device_mode(device_count: usize) -> (r: Result<DeviceChoice, PipelineError>)
    ensures
        device_count == 0 ==> (r matches Err(e) && e is NoDevices),
        device_count == 1 ==> r == Ok::<DeviceChoice, PipelineError>(DeviceChoice::AutoFirst),
        device_count > 1 ==> r == Ok::<DeviceChoice, PipelineError>(DeviceChoice::Prompt),
{
    if device_count == 0 {
        Err(PipelineError::NoDevices)
    } else if device_count == 1 {
        Ok(DeviceChoice::AutoFirst)
    } else {
        Ok(DeviceChoice::Prompt)
    }
}

} // verus!
