//! The kernel event loop's decisions: draining the event queue, mutating
//! the device registry, dispatching polls and asking the platform shim to
//! do the hardware work.
//!
//! The shim runs the divergent outer loop — perform each returned action,
//! halt the processor when the queue reports empty, wake on the next
//! interrupt — and feeds events in through `push_event`; every decision
//! between those edges is made and proved here.

use vstd::prelude::*;
use crate::cirus5446::ClearRequest;
use crate::device::{Device, DeviceID, PollRequest};
use crate::error::X8664Error;
use crate::registry::DeviceRegistry;
use crate::ringbuffer::{push_model, RingBufferData};

verus! {

/// How many events the kernel's queue buffers before overwriting the
/// oldest.
pub const EVENT_QUEUE_CAPACITY: usize = 1000;

/// What reaches the kernel from interrupt context or from bus discovery.
/// Events are immutable once constructed; `DeviceConnected` carries the
/// device itself, whose ownership ends up in the registry.
#[derive(Clone, Copy, Debug, PartialEq, Eq, Structural)]
pub enum PlatformEvent {
    /// The periodic timer fired.
    ClockTicked,
    /// A newly discovered device.
    DeviceConnected(DeviceID, Device),
    /// A device with pending work.
    DevicePollable(DeviceID),
}

/// What one drained event asks the platform shim to do: the hardware work
/// and the diagnostics stay outside, the decision is made here.
#[derive(Clone, Copy, Debug, PartialEq, Eq, Structural)]
pub enum KernelAction {
    /// Periodic bookkeeping: log the tick.
    Ticked,
    /// The device was placed in the registry; log the connection.
    DeviceRegistered(DeviceID),
    /// The device's poll decided on this hardware interaction.
    DevicePolled(DeviceID, PollRequest),
    /// No such device is registered: log the diagnostic and move on.
    /// Non-fatal — the device may have been replaced between the
    /// interrupt firing and the drain.
    UnknownDevice(DeviceID),
}

/// The registry after one event is processed: a connection inserts the
/// device, and nothing else changes registered state.
pub open spec fn registry_after(m: Map<DeviceID, Device>, event: PlatformEvent) -> Map<
    DeviceID,
    Device,
> {
    match event {
        PlatformEvent::ClockTicked => m,
        PlatformEvent::DeviceConnected(id, device) => m.insert(id, device),
        PlatformEvent::DevicePollable(_) => m,
    }
}

/// The action one event is answered with, given the registry it meets.
pub open spec fn action_for(m: Map<DeviceID, Device>, event: PlatformEvent) -> KernelAction {
    match event {
        PlatformEvent::ClockTicked => KernelAction::Ticked,
        PlatformEvent::DeviceConnected(id, _) => KernelAction::DeviceRegistered(id),
        PlatformEvent::DevicePollable(id) => if m.contains_key(id) {
            KernelAction::DevicePolled(id, m[id].poll_request())
        } else {
            KernelAction::UnknownDevice(id)
        },
    }
}

/// The registry after a whole sequence of events is drained in order.
pub open spec fn registry_after_all(m: Map<DeviceID, Device>, events: Seq<PlatformEvent>) -> Map<
    DeviceID,
    Device,
>
    decreases events.len(),
{
    if events.len() == 0 {
        m
    } else {
        registry_after_all(registry_after(m, events[0]), events.drop_first())
    }
}

/// The actions a whole drain answers a sequence of events with, in order.
pub open spec fn actions_for_all(m: Map<DeviceID, Device>, events: Seq<PlatformEvent>) -> Seq<
    KernelAction,
>
    decreases events.len(),
{
    if events.len() == 0 {
        Seq::empty()
    } else {
        seq![action_for(m, events[0])] + actions_for_all(
            registry_after(m, events[0]),
            events.drop_first(),
        )
    }
}

/// Which event one hardware interrupt request feeds the kernel: the
/// periodic timer ticks, the keyboard line means pending keyboard work,
/// and any other line is unknown — nothing is queued and the shim logs
/// its warning.  Interrupt handlers call this and `push_event`; both are
/// bounded and never block.
pub fn irq_event(irq: u8) -> (r: Option<PlatformEvent>)
    ensures
        irq == 0 ==> r == Some(PlatformEvent::ClockTicked),
        irq == 1 ==> r == Some(PlatformEvent::DevicePollable(DeviceID::PCKeyboard)),
        irq >= 2 ==> r is None,
{
    match irq {
        0 => Some(PlatformEvent::ClockTicked),
        1 => Some(PlatformEvent::DevicePollable(DeviceID::PCKeyboard)),
        _ => None,
    }
}

/// The contract a concrete hardware platform satisfies: hardware
/// bring-up, the non-blocking event feed and the idle instruction.  All
/// three are hardware work, so the trait promises nothing Verus could
/// check; the platform shim implements it and the outer loop drives the
/// kernel through it.
pub trait Platform {
    /// Perform hardware bring-up; may enqueue initial events, such as the
    /// statically known keyboard's connection.
    fn init(&mut self);

    /// The oldest event an interrupt producer buffered, if any; never
    /// blocks.
    fn poll_event(&self) -> Option<PlatformEvent>;

    /// Halt until the next interrupt.
    fn sleep(&self);
}

/// The kernel: the event queue it drains and the registry it owns.
pub struct Kernel {
    pub queue: RingBufferData<PlatformEvent>,
    pub device_registry: DeviceRegistry,
}

impl Kernel {
    /// The queue is in shape and fixed at the platform's capacity.
    pub open spec fn well_formed(&self) -> bool {
        &&& self.queue.well_formed()
        &&& self.queue.cap() == EVENT_QUEUE_CAPACITY
    }

    /// The events waiting to be drained, oldest first.
    pub open spec fn events(&self) -> Seq<PlatformEvent> {
        self.queue@
    }

    /// The registered devices.
    pub open spec fn devices(&self) -> Map<DeviceID, Device> {
        self.device_registry@
    }

    pub fn new() -> (r: Self)
        ensures
            r.well_formed(),
            r.events() == Seq::<PlatformEvent>::empty(),
            (r.devices() =~= Map::<DeviceID, Device>::empty()),
    {
        Kernel {
            queue: RingBufferData::new_with_capacity(EVENT_QUEUE_CAPACITY),
            device_registry: DeviceRegistry::new(),
        }
    }

    /// The interrupt producers' entry point: buffer an event, never block,
    /// overwrite the oldest unread event when full.
    pub fn push_event(&mut self, event: PlatformEvent)
        requires
            old(self).well_formed(),
        ensures
            final(self).well_formed(),
            final(self).events() == push_model(
                old(self).events(),
                EVENT_QUEUE_CAPACITY as nat,
                event,
            ),
            final(self).devices() == old(self).devices(),
    {
        self.queue.push(event);
    }

    /// Process one event: mutate the registry as the event demands and
    /// answer with the action the shim must perform.
    pub fn handle_event(&mut self, event: PlatformEvent) -> (action: KernelAction)
        ensures
            final(self).devices() == registry_after(old(self).devices(), event),
            action == action_for(old(self).devices(), event),
            final(self).queue == old(self).queue,
    {
        match event {
            PlatformEvent::ClockTicked => KernelAction::Ticked,
            PlatformEvent::DeviceConnected(id, device) => {
                self.device_registry.insert(id, device);
                KernelAction::DeviceRegistered(id)
            },
            PlatformEvent::DevicePollable(id) => {
                match self.device_registry.poll_device(id) {
                    Some(request) => KernelAction::DevicePolled(id, request),
                    None => KernelAction::UnknownDevice(id),
                }
            },
        }
    }

    /// The event queue's central invariant, stated for callers: at most
    /// `EVENT_QUEUE_CAPACITY` events are ever buffered.
    pub proof fn lemma_bounded_queue(&self)
        requires
            self.well_formed(),
        ensures
            self.events().len() <= EVENT_QUEUE_CAPACITY,
    {
        self.queue.lemma_size_bounded();
    }

    /// Drain: consume every currently queued event, oldest first, and
    /// return the actions the shim must now perform, in drain order.
    /// Each iteration removes exactly one event; after the call the queue
    /// reports empty and the shim may idle the processor.
    pub fn process_events(&mut self) -> (actions: Vec<KernelAction>)
        requires
            old(self).well_formed(),
        ensures
            final(self).well_formed(),
            final(self).events() == Seq::<PlatformEvent>::empty(),
            final(self).devices() == registry_after_all(old(self).devices(), old(self).events()),
            actions@ == actions_for_all(old(self).devices(), old(self).events()),
    {
        let mut actions: Vec<KernelAction> = Vec::new();
        while self.queue.size() > 0
            invariant
                self.well_formed(),
                registry_after_all(old(self).devices(), old(self).events())
                    == registry_after_all(self.devices(), self.events()),
                actions_for_all(old(self).devices(), old(self).events())
                    == actions@ + actions_for_all(self.devices(), self.events()),
            decreases self.events().len(),
        {
            let event = self.queue.pop();
            let action = self.handle_event(event);
            actions.push(action);
        }
        proof {
            assert(actions@ + Seq::<KernelAction>::empty() =~= actions@);
        }
        actions
    }

    /// Ask every graphics-capable device to clear the screen, treating
    /// devices without the capability as "nothing to do".  The returned
    /// requests — one per graphics device, each carrying that device's
    /// framebuffer — are the pixel work the shim performs.
    pub fn clear_screen(&mut self) -> (r: Result<Vec<ClearRequest>, X8664Error>)
        ensures
            *final(self) == *old(self),
            (match r {
                Ok(requests) => exists|ids: Seq<DeviceID>|
                    {
                        &&& ids.no_duplicates()
                        &&& (forall|id: DeviceID|
                            ids.contains(id) <==> old(self).devices().contains_key(id)
                                && old(self).devices()[id].is_graphics_device())
                        &&& requests@ == ids.map_values(
                            |id: DeviceID| ClearRequest {
                                framebuffer_address: match old(self).devices()[id] {
                                    Device::Cirus5446(d) => d.framebuffer_address,
                                    _ => 0u64,
                                },
                            },
                        )
                    },
                Err(_) => false,
            }),
    {
        let devices = self.device_registry.graphics_devices();
        let mut requests: Vec<ClearRequest> = Vec::new();
        let mut i: usize = 0;
        while i < devices.len()
            invariant
                i <= devices.len(),
                devices@.no_duplicates(),
                forall|id: DeviceID|
                    devices@.contains(id) <==> self.devices().contains_key(id)
                        && self.devices()[id].is_graphics_device(),
                requests@ == devices@.take(i as int).map_values(
                    |id: DeviceID| ClearRequest {
                        framebuffer_address: match self.devices()[id] {
                            Device::Cirus5446(d) => d.framebuffer_address,
                            _ => 0u64,
                        },
                    },
                ),
            decreases devices.len() - i,
        {
            let id = devices[i];
            proof {
                assert(devices@.contains(devices@[i as int]));
            }
            let found = self.device_registry.device(id);
            let mut device = *found.unwrap();
            let request = match device.clear() {
                Ok(request) => request,
                Err(error) => {
                    return Err(error);
                },
            };
            requests.push(request);
            proof {
                assert(devices@.take(i as int + 1).drop_last() =~= devices@.take(i as int));
                assert(requests@ =~= devices@.take(i as int + 1).map_values(
                    |id: DeviceID| ClearRequest {
                        framebuffer_address: match self.devices()[id] {
                            Device::Cirus5446(d) => d.framebuffer_address,
                            _ => 0u64,
                        },
                    },
                ));
            }
            i = i + 1;
        }
        proof {
            assert(devices@.take(devices@.len() as int) =~= devices@);
        }
        Ok(requests)
    }
}

/// Dispatch correctness: once `DeviceConnected(id, device)` is drained, a
/// lookup of `id` yields that device, and a subsequent `DevicePollable(id)`
/// is answered with exactly one poll of it — the action carries the
/// device's own poll request — while the registry keeps the device as it
/// was.
pub proof fn lemma_dispatch_correctness(
    m: Map<DeviceID, Device>,
    id: DeviceID,
    device: Device,
)
    ensures
        registry_after(m, PlatformEvent::DeviceConnected(id, device)) == m.insert(id, device),
        registry_after(m, PlatformEvent::DeviceConnected(id, device))[id] == device,
        action_for(
            registry_after(m, PlatformEvent::DeviceConnected(id, device)),
            PlatformEvent::DevicePollable(id),
        ) == KernelAction::DevicePolled(id, device.poll_request()),
        registry_after(
            registry_after(m, PlatformEvent::DeviceConnected(id, device)),
            PlatformEvent::DevicePollable(id),
        ) == m.insert(id, device),
{
}

/// Unknown-id safety: draining `DevicePollable(id)` for an id that was
/// never registered answers with the logged diagnostic action and leaves
/// the registry untouched.
pub proof fn lemma_unknown_id_safety(m: Map<DeviceID, Device>, id: DeviceID)
    requires
        !m.contains_key(id),
    ensures
        action_for(m, PlatformEvent::DevicePollable(id)) == KernelAction::UnknownDevice(id),
        registry_after(m, PlatformEvent::DevicePollable(id)) == m,
{
}

} // verus!
