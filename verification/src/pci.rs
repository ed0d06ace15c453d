//! PCI configuration-space addressing and device identification.
//!
//! Reading a configuration register is two port operations the platform
//! shim performs; everything around them — forming the configuration
//! address, picking a word out of the fetched doubleword, deciding what a
//! (vendor, device) pair means — is plain arithmetic and is verified here.

use vstd::prelude::*;
use crate::cirus5446::Cirus5446;
use crate::device::{Device, DeviceAddress, DeviceID};
use crate::kernel::PlatformEvent;
use crate::ringbuffer::{lemma_push_all_model_step, push_all_model, RingBufferData};

verus! {

/// A (bus, slot) pair on the PCI bus.
#[derive(Clone, Copy, Debug, PartialEq, Eq, Structural)]
pub struct PCIAddress(pub u8, pub u8);

impl PCIAddress {
    pub open spec fn bus_spec(&self) -> u8 {
        self.0
    }

    pub open spec fn slot_spec(&self) -> u8 {
        self.1
    }

    /// The configuration-space address of a register: enable bit, then
    /// bus, slot, function and the register offset, packed into one
    /// doubleword for the configuration address port.
    pub open spec fn config_address(&self, function: u8, offset: u8) -> u32 {
        ((self.0 as u32) << 16) | ((self.1 as u32) << 11) | ((function as u32) << 8)
            | (offset as u32) | 0x80000000u32
    }

    pub fn new(bus: u8, slot: u8) -> (r: Self)
        ensures
            r == PCIAddress(bus, slot),
    {
        PCIAddress(bus, slot)
    }

    pub fn bus(&self) -> (r: u8)
        ensures
            r == self.bus_spec(),
    {
        self.0
    }

    pub fn slot(&self) -> (r: u8)
        ensures
            r == self.slot_spec(),
    {
        self.1
    }

    /// The doubleword to write to the configuration address port before
    /// reading the data port.
    pub fn pci_address(&self, function: u8, offset: u8) -> (r: u32)
        ensures
            r == self.config_address(function, offset),
    {
        let bus: u32 = self.bus() as u32;
        let slot: u32 = self.slot() as u32;
        let function: u32 = function as u32;
        let offset: u32 = offset as u32;

        (bus << 16) | (slot << 11) | (function << 8) | offset | 0x80000000u32
    }

    /// The word at `offset` within the configuration doubleword the shim
    /// fetched for the aligned offset: the low word for an offset of 0 or
    /// 1 modulo 4, the high word otherwise.
    pub open spec fn word_of_dword(dword: u32, offset: u8) -> u16 {
        ((dword >> (((offset & 2) as u32) * 8)) & 0xffff) as u16
    }

    /// Pick the addressed word out of a fetched configuration doubleword.
    pub fn read_word(&self, dword: u32, offset: u8) -> (r: u16)
        ensures
            r == Self::word_of_dword(dword, offset),
    {
        proof {
            assert(offset & 2 <= 2) by (bit_vector);
        }
        let shift: u32 = ((offset & 2) as u32) * 8;
        let masked: u32 = (dword >> shift) & 0xffff;
        proof {
            assert((dword >> (((offset & 2) as u32) * 8)) & 0xffff < 0x10000) by (bit_vector);
        }
        masked as u16
    }
}

/// What the configuration header identifies one slot as.
#[derive(Clone, Copy, Debug, PartialEq, Eq, Structural)]
pub struct PCIDevice {
    pub vendor_id: u16,
    pub device_id: u16,
    pub class: u8,
    pub subclass: u8,
}

/// A (bus, slot) pair together with the header decoding used by the PCI
/// probe.
#[derive(Clone, Copy, Debug, PartialEq, Eq, Structural)]
pub struct PCIDeviceAddress {
    pub bus: u8,
    pub slot: u8,
}

impl PCIDeviceAddress {
    pub fn new(bus: u8, slot: u8) -> (r: Self)
        ensures
            r == (PCIDeviceAddress { bus, slot }),
    {
        PCIDeviceAddress { bus, slot }
    }

    /// Decode the identification header from the words the shim read at
    /// offsets 0 (vendor), 2 (device) and 10 (class/subclass).  A vendor
    /// word of all ones means no device answers in this slot.
    pub fn get_info(&self, vendor_id: u16, device_id: u16, class_value: u16) -> (r: Option<
        PCIDevice,
    >)
        ensures
            vendor_id == 0xffffu16 ==> r is None,
            vendor_id != 0xffffu16 ==> r == Some(PCIDevice {
                vendor_id,
                device_id,
                class: (class_value & 0xffu16) as u8,
                subclass: (class_value >> 8u16) as u8,
            }),
    {
        if vendor_id == 0xffff {
            return None;
        }

        let class: u8 = (class_value & 0xff) as u8;
        let subclass: u8 = (class_value >> 8) as u8;

        Some(PCIDevice { vendor_id, device_id, class, subclass })
    }
}

/// What the shim read while scanning one PCI slot: the identification
/// words and the first base address register.
#[derive(Clone, Copy, Debug, PartialEq, Eq, Structural)]
pub struct PCIProbe {
    pub address: PCIAddress,
    pub vendor: u16,
    pub device: u16,
    pub bar0: u32,
}

/// What one probe result means: the Cirrus 5446 identification pair is
/// connected as a graphics device; an absent slot (vendor of all ones),
/// the known-but-unsupported pair and every unknown pair connect
/// nothing — unknowns only earn a log line from the shim.
pub open spec fn probe_event(p: PCIProbe) -> Option<PlatformEvent> {
    if p.vendor == 0x1234 && p.device == 0x1111 {
        Some(PlatformEvent::DeviceConnected(
            DeviceID::Cirus5446,
            Device::Cirus5446(Cirus5446 {
                device_address: DeviceAddress::PCI(p.address),
                framebuffer_address: p.bar0 as u64,
            }),
        ))
    } else {
        Option::None
    }
}

/// The connection events a whole scan produces, in scan order.
pub open spec fn probe_events(probes: Seq<PCIProbe>) -> Seq<PlatformEvent>
    decreases probes.len(),
{
    if probes.len() == 0 {
        Seq::empty()
    } else {
        (match probe_event(probes[0]) {
            Some(event) => seq![event],
            Option::None => Seq::empty(),
        }) + probe_events(probes.drop_first())
    }
}

/// Whether a probe found a device the platform does not recognise: a slot
/// that answered, is not the Cirrus pair, and is not the pair the
/// platform knows and deliberately leaves alone.
pub open spec fn probe_unknown(p: PCIProbe) -> bool {
    &&& p.vendor != 0xffff
    &&& !(p.vendor == 0x1234 && p.device == 0x1111)
    &&& !(p.vendor == 0x1033 && p.device == 0x194)
}

/// The unrecognised probes of a whole scan, in scan order — handed back
/// so that the shim can log each of them.
pub open spec fn probe_unknowns(probes: Seq<PCIProbe>) -> Seq<PCIProbe>
    decreases probes.len(),
{
    if probes.len() == 0 {
        Seq::empty()
    } else {
        (if probe_unknown(probes[0]) {
            seq![probes[0]]
        } else {
            Seq::empty()
        }) + probe_unknowns(probes.drop_first())
    }
}

/// Decide what each slot of a finished bus scan means: queue a
/// connection event for every recognised device, in scan order, and hand
/// the unrecognised probes back for the shim to log — no finding is
/// silently swallowed.
pub fn discover(queue: &mut RingBufferData<PlatformEvent>, probes: &Vec<PCIProbe>) -> (unknown:
    Vec<PCIProbe>)
    requires
        old(queue).well_formed(),
    ensures
        final(queue).well_formed(),
        final(queue).cap() == old(queue).cap(),
        final(queue)@ == push_all_model(old(queue)@, old(queue).cap(), probe_events(probes@)),
        unknown@ == probe_unknowns(probes@),
{
    let ghost target = push_all_model(old(queue)@, old(queue).cap(), probe_events(probes@));
    let mut unknown: Vec<PCIProbe> = Vec::new();
    let mut i: usize = 0;
    proof {
        assert(probes@.skip(0) =~= probes@);
    }
    while i < probes.len()
        invariant
            queue.well_formed(),
            queue.cap() == old(queue).cap(),
            i <= probes@.len(),
            target == push_all_model(old(queue)@, old(queue).cap(), probe_events(probes@)),
            target == push_all_model(queue@, queue.cap(), probe_events(probes@.skip(i as int))),
            probe_unknowns(probes@) == unknown@ + probe_unknowns(probes@.skip(i as int)),
        decreases probes@.len() - i,
    {
        let probe = probes[i];
        proof {
            let rest = probes@.skip(i as int);
            assert(rest[0] == probes@[i as int]);
            assert(rest.drop_first() =~= probes@.skip(i as int + 1));
            match probe_event(probes@[i as int]) {
                Some(event) => {
                    lemma_push_all_model_step(
                        queue@,
                        queue.cap(),
                        event,
                        probe_events(probes@.skip(i as int + 1)),
                    );
                },
                Option::None => {
                    assert(probe_events(rest) =~= probe_events(probes@.skip(i as int + 1)));
                },
            }
            if probe_unknown(probes@[i as int]) {
                assert(unknown@ + probe_unknowns(rest)
                    =~= unknown@.push(probes@[i as int])
                        + probe_unknowns(probes@.skip(i as int + 1)));
            } else {
                assert(unknown@ + probe_unknowns(rest)
                    =~= unknown@ + probe_unknowns(probes@.skip(i as int + 1)));
            }
        }
        if probe.vendor != 0xffff {
            if probe.vendor == 0x1234 && probe.device == 0x1111 {
                queue.push(PlatformEvent::DeviceConnected(
                    DeviceID::Cirus5446,
                    Device::Cirus5446(Cirus5446::new(
                        DeviceAddress::PCI(probe.address),
                        probe.bar0 as u64,
                    )),
                ));
            } else if !(probe.vendor == 0x1033 && probe.device == 0x194) {
                unknown.push(probe);
            }
        }
        i = i + 1;
    }
    proof {
        assert(probes@.skip(probes@.len() as int) =~= Seq::<PCIProbe>::empty());
        assert(unknown@ + Seq::<PCIProbe>::empty() =~= unknown@);
    }
    unknown
}

} // verus!
