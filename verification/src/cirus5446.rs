//! A Cirrus 5446 graphics controller discovered on the PCI bus.

use vstd::prelude::*;
use crate::device::{DeviceAddress, PollRequest};
use crate::error::X8664Error;

verus! {

/// Asking the graphics device to blank its framebuffer: the shim performs
/// the pixel writes at the given physical address.
#[derive(Clone, Copy, Debug, PartialEq, Eq, Structural)]
pub struct ClearRequest {
    pub framebuffer_address: u64,
}

/// A Cirrus 5446 graphics controller; carries the framebuffer base the
/// shim read from its first base address register.
#[derive(Clone, Copy, Debug, PartialEq, Eq, Structural)]
pub struct Cirus5446 {
    pub device_address: DeviceAddress,
    pub framebuffer_address: u64,
}

impl Cirus5446 {
    /// What asking this controller to clear the screen returns.
    pub open spec fn clear_request(&self) -> Result<ClearRequest, X8664Error> {
        Ok(ClearRequest { framebuffer_address: self.framebuffer_address })
    }

    /// `framebuffer_address` is the first base address register of the
    /// controller at `device_address`, as read from configuration space.
    pub fn new(device_address: DeviceAddress, framebuffer_address: u64) -> (r: Self)
        ensures
            r == (Cirus5446 { device_address, framebuffer_address }),
    {
        Cirus5446 { device_address, framebuffer_address }
    }

    /// A graphics controller has no pending work to poll for.
    pub fn poll(&mut self) -> (r: PollRequest)
        ensures
            *final(self) == *old(self),
            r == PollRequest::NoWork,
    {
        PollRequest::NoWork
    }

    /// The graphics capability: clearing the screen means blanking the
    /// whole framebuffer, which the shim does at the returned address.
    pub fn clear(&mut self) -> (r: Result<ClearRequest, X8664Error>)
        ensures
            *final(self) == *old(self),
            r == old(self).clear_request(),
    {
        Ok(ClearRequest { framebuffer_address: self.framebuffer_address })
    }
}

} // verus!
