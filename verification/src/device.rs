//! The device capability model: a closed tagged union of the device
//! variants one platform knows about, each exposing the mandatory poll
//! operation and optional capability views (filesystem, graphics).
//!
//! A device here carries the plain values the kernel's logic reads — bus
//! addresses, the framebuffer base — while the hardware interaction itself
//! is handed back to the platform shim as an explicit request, so that
//! every decision stays inside verified code.

use vstd::prelude::*;
use crate::cirus5446::{Cirus5446, ClearRequest};
use crate::error::X8664Error;
use crate::kernel::PlatformEvent;
use crate::pc_keyboard::{keyboard_connected_event, PCKeyboard};
use crate::pci::{probe_events, probe_unknowns, PCIAddress, PCIProbe};
use crate::ringbuffer::{push_all_model, push_model, RingBufferData};
use crate::uefi_filesystem::{filesystem_connected_event, UEFIFilesystem};

verus! {

/// A small, copyable identifier, stable for the device's lifetime.
#[derive(Clone, Copy, Debug, PartialEq, Eq, Hash, Structural)]
pub enum DeviceID {
    PCKeyboard,
    Cirus5446,
    UEFIFilesystem,
}

/// Where a bus-discovered device lives.
#[derive(Clone, Copy, Debug, PartialEq, Eq, Structural)]
pub enum DeviceAddress {
    PCI(PCIAddress),
}

/// The hardware interaction one `poll` asks the platform shim to perform.
#[derive(Clone, Copy, Debug, PartialEq, Eq, Structural)]
pub enum PollRequest {
    /// Read one scancode from the keyboard controller's data port.
    ReadKeyboardScancode,
    /// The device has no pending hardware work.
    NoWork,
}

/// The closed union of device variants for this platform.  Capability
/// queries are answered per variant from this table, as nothing outside it
/// can ever be registered.
#[derive(Clone, Copy, Debug, PartialEq, Eq, Structural)]
pub enum Device {
    PCKeyboard(PCKeyboard),
    Cirus5446(Cirus5446),
    UEFIFilesystem(UEFIFilesystem),
}

impl Device {
    /// The request `poll` hands to the shim for this variant.
    pub open spec fn poll_request(&self) -> PollRequest {
        match self {
            Device::PCKeyboard(_) => PollRequest::ReadKeyboardScancode,
            Device::Cirus5446(_) => PollRequest::NoWork,
            Device::UEFIFilesystem(_) => PollRequest::NoWork,
        }
    }

    /// Whether this variant satisfies the filesystem capability.
    pub open spec fn is_filesystem(&self) -> bool {
        self matches Device::UEFIFilesystem(_)
    }

    /// Whether this variant satisfies the graphics capability.
    pub open spec fn is_graphics_device(&self) -> bool {
        self matches Device::Cirus5446(_)
    }

    /// Process one unit of pending hardware work: every variant answers,
    /// and none of them blocks.
    pub fn poll(&mut self) -> (r: PollRequest)
        ensures
            *final(self) == *old(self),
            r == old(self).poll_request(),
    {
        match self {
            Device::PCKeyboard(device) => device.poll(),
            Device::Cirus5446(device) => device.poll(),
            Device::UEFIFilesystem(device) => device.poll(),
        }
    }

    /// The "try to view as a filesystem" query, answered from the variant
    /// table: a device either satisfies the capability or reports "not
    /// supported", which callers treat as "nothing to do".
    pub fn as_filesystem(&self) -> (r: bool)
        ensures
            r == self.is_filesystem(),
    {
        match self {
            Device::UEFIFilesystem(_) => true,
            _ => false,
        }
    }

    /// The "try to view as a graphics device" query.
    pub fn as_graphics_device(&self) -> (r: bool)
        ensures
            r == self.is_graphics_device(),
    {
        match self {
            Device::Cirus5446(_) => true,
            _ => false,
        }
    }

    /// The graphics capability operation, dispatched to the variant that
    /// supports it.
    pub fn clear(&mut self) -> (r: Result<ClearRequest, X8664Error>)
        requires
            old(self).is_graphics_device(),
        ensures
            *final(self) == *old(self),
            (match *old(self) {
                Device::Cirus5446(d) => r == d.clear_request(),
                _ => false,
            }),
    {
        match self {
            Device::Cirus5446(device) => device.clear(),
            // Ruled out by the capability requirement; the error value is
            // never observed.
            _ => Err(X8664Error::UEFIError(0)),
        }
    }
}

/// Bring up the device side of the platform: announce the statically
/// known keyboard, then the statically known boot filesystem, then
/// everything the finished PCI scan recognised — one connection event
/// per device, in that order, for the next drain to register.  The
/// unrecognised probes come back for the shim to log.
pub fn discover(queue: &mut RingBufferData<PlatformEvent>, probes: &Vec<PCIProbe>) -> (unknown:
    Vec<PCIProbe>)
    requires
        old(queue).well_formed(),
    ensures
        final(queue).well_formed(),
        final(queue).cap() == old(queue).cap(),
        final(queue)@ == push_all_model(
            push_model(
                push_model(old(queue)@, old(queue).cap(), keyboard_connected_event()),
                old(queue).cap(),
                filesystem_connected_event(),
            ),
            old(queue).cap(),
            probe_events(probes@),
        ),
        unknown@ == probe_unknowns(probes@),
{
    crate::pc_keyboard::discover(queue);
    crate::uefi_filesystem::discover(queue);
    crate::pci::discover(queue, probes)
}

} // verus!
