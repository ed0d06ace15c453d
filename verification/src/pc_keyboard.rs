//! The PC keyboard controller device.

use vstd::prelude::*;
use crate::device::{Device, DeviceID, PollRequest};
use crate::kernel::PlatformEvent;
use crate::ringbuffer::{push_model, RingBufferData};

verus! {

/// The event announcing the statically known keyboard controller.
pub open spec fn keyboard_connected_event() -> PlatformEvent {
    PlatformEvent::DeviceConnected(DeviceID::PCKeyboard, Device::PCKeyboard(PCKeyboard))
}

/// The keyboard controller needs no bus scan: announce it outright by
/// queueing its connection event for the next drain.
pub fn discover(queue: &mut RingBufferData<PlatformEvent>)
    requires
        old(queue).well_formed(),
    ensures
        final(queue).well_formed(),
        final(queue).cap() == old(queue).cap(),
        final(queue)@ == push_model(old(queue)@, old(queue).cap(), keyboard_connected_event()),
{
    queue.push(PlatformEvent::DeviceConnected(
        DeviceID::PCKeyboard,
        Device::PCKeyboard(PCKeyboard::new()),
    ));
}

/// The PC keyboard controller: pollable, no optional capability.
#[derive(Clone, Copy, Debug, PartialEq, Eq, Structural)]
pub struct PCKeyboard;

impl PCKeyboard {
    pub fn new() -> (r: Self)
        ensures
            r == PCKeyboard,
    {
        PCKeyboard
    }

    /// One unit of keyboard work: have the shim read a scancode.
    pub fn poll(&mut self) -> (r: PollRequest)
        ensures
            *final(self) == *old(self),
            r == PollRequest::ReadKeyboardScancode,
    {
        PollRequest::ReadKeyboardScancode
    }
}

} // verus!
