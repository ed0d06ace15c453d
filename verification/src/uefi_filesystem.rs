//! The boot filesystem reached through firmware calls.

use vstd::prelude::*;
use crate::device::{Device, DeviceID, PollRequest};
use crate::kernel::PlatformEvent;
use crate::ringbuffer::{push_model, RingBufferData};

verus! {

/// The event announcing the statically known boot filesystem.
pub open spec fn filesystem_connected_event() -> PlatformEvent {
    PlatformEvent::DeviceConnected(
        DeviceID::UEFIFilesystem,
        Device::UEFIFilesystem(UEFIFilesystem),
    )
}

/// The boot filesystem needs no bus scan either: announce it outright by
/// queueing its connection event for the next drain.
pub fn discover(queue: &mut RingBufferData<PlatformEvent>)
    requires
        old(queue).well_formed(),
    ensures
        final(queue).well_formed(),
        final(queue).cap() == old(queue).cap(),
        final(queue)@ == push_model(old(queue)@, old(queue).cap(), filesystem_connected_event()),
{
    queue.push(PlatformEvent::DeviceConnected(
        DeviceID::UEFIFilesystem,
        Device::UEFIFilesystem(UEFIFilesystem::new()),
    ));
}

/// The boot filesystem device.  The firmware handle itself lives in the
/// platform shim, which answers `list` and `read` against it; the kernel's
/// logic only needs to know that the device is there and satisfies the
/// filesystem capability.
#[derive(Clone, Copy, Debug, PartialEq, Eq, Structural)]
pub struct UEFIFilesystem;

impl UEFIFilesystem {
    pub fn new() -> (r: Self)
        ensures
            r == UEFIFilesystem,
    {
        UEFIFilesystem
    }

    /// The filesystem raises no interrupts; polling it is a no-op.
    pub fn poll(&mut self) -> (r: PollRequest)
        ensures
            *final(self) == *old(self),
            r == PollRequest::NoWork,
    {
        PollRequest::NoWork
    }
}

} // verus!
