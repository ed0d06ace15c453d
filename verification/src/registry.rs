//! The device registry: the sole owner of every registered device, a
//! mapping from device identifier to device instance with point lookup and
//! capability-filtered enumeration.
//!
//! The backing store is hashbrown's hash map, held behind a small trusted
//! boundary: `contents` names what the map holds, and each wrapped method
//! states over that name what hashbrown's own source shows.  Everything
//! above the wrappers — replacement on insert, dispatch, enumeration — is
//! verified.

use vstd::prelude::*;
use crate::device::{Device, DeviceID, PollRequest};

verus! {

/// The association held by a `DeviceMap`: which device is registered under
/// which identifier.
pub uninterp spec fn contents(m: DeviceMap) -> Map<DeviceID, Device>;

/// An id-to-device hash map.  The field is hashbrown's map, which Verus
/// never looks inside; the wrappers below are the only way through.
#[verifier::external_body]
pub struct DeviceMap {
    inner: hashbrown::HashMap<DeviceID, Device>,
}

impl DeviceMap {
    /// Relies on hashbrown's `HashMap::new`: the new map is empty.
    #[verifier::external_body]
    fn empty() -> (r: DeviceMap)
        ensures
            (contents(r) =~= Map::<DeviceID, Device>::empty()),
    {
        DeviceMap { inner: hashbrown::HashMap::new() }
    }

    /// Relies on hashbrown's `HashMap::insert`: the value is stored under
    /// the key, replacing any previous value, and no other entry moves.
    #[verifier::external_body]
    fn store(&mut self, id: DeviceID, device: Device)
        ensures
            contents(*final(self)) == contents(*old(self)).insert(id, device),
    {
        self.inner.insert(id, device);
    }

    /// Relies on hashbrown's `HashMap::get`: the value stored under the
    /// key, if the key is present.
    #[verifier::external_body]
    fn lookup(&self, id: DeviceID) -> (r: Option<&Device>)
        ensures
            (match r {
                Some(device) => contents(*self).contains_key(id) && *device == contents(*self)[id],
                None => !contents(*self).contains_key(id),
            }),
    {
        self.inner.get(&id)
    }

    /// Relies on hashbrown's `HashMap::keys`: every key exactly once, in
    /// no promised order.
    #[verifier::external_body]
    fn ids(&self) -> (r: Vec<DeviceID>)
        ensures
            r@.no_duplicates(),
            r@.to_set() == contents(*self).dom(),
    {
        self.inner.keys().copied().collect()
    }
}

/// Appending a fresh element keeps a sequence duplicate-free, and the
/// members of the longer sequence are the old members plus the new one.
proof fn lemma_unique_push<T>(s: Seq<T>, v: T)
    requires
        s.no_duplicates(),
        !s.contains(v),
    ensures
        s.push(v).no_duplicates(),
        forall|x: T| #[trigger] s.push(v).contains(x) <==> s.contains(x) || x == v,
{
    let t = s.push(v);
    assert forall|x: T| #[trigger] t.contains(x) implies s.contains(x) || x == v by {
        let j = choose|j: int| 0 <= j < t.len() && t[j] == x;
        if j < s.len() {
            assert(s[j] == x);
        }
    }
    assert forall|x: T| s.contains(x) || x == v implies #[trigger] t.contains(x) by {
        if s.contains(x) {
            let j = choose|j: int| 0 <= j < s.len() && s[j] == x;
            assert(t[j] == x);
        } else {
            assert(t[s.len() as int] == x);
        }
    }
}

/// One more element of a prefix: the members of `take(i + 1)` are those of
/// `take(i)` plus the element at `i`, which — in a duplicate-free
/// sequence — is not among them yet.
proof fn lemma_take_one_more<T>(s: Seq<T>, i: int)
    requires
        0 <= i < s.len(),
    ensures
        forall|x: T| #[trigger] s.take(i + 1).contains(x) <==> s.take(i).contains(x) || x == s[i],
        s.no_duplicates() ==> !s.take(i).contains(s[i]),
{
    let shorter = s.take(i);
    let longer = s.take(i + 1);
    assert forall|x: T| #[trigger] longer.contains(x) implies shorter.contains(x) || x == s[i] by {
        let j = choose|j: int| 0 <= j < longer.len() && longer[j] == x;
        if j < i {
            assert(shorter[j] == x);
        }
    }
    assert forall|x: T| shorter.contains(x) || x == s[i] implies #[trigger] longer.contains(x) by {
        if shorter.contains(x) {
            let j = choose|j: int| 0 <= j < shorter.len() && shorter[j] == x;
            assert(longer[j] == x);
        } else {
            assert(longer[i] == x);
        }
    }
    if s.no_duplicates() && shorter.contains(s[i]) {
        let j = choose|j: int| 0 <= j < shorter.len() && shorter[j] == s[i];
        assert(s[j] == s[i]);
    }
}

/// The mapping from device identifier to device instance.  Keys are
/// unique; insertion order is irrelevant; entries are never removed.
pub struct DeviceRegistry {
    devices: DeviceMap,
}

impl View for DeviceRegistry {
    type V = Map<DeviceID, Device>;

    closed spec fn view(&self) -> Map<DeviceID, Device> {
        contents(self.devices)
    }
}

impl DeviceRegistry {
    pub fn new() -> (r: Self)
        ensures
            (r@ =~= Map::<DeviceID, Device>::empty()),
    {
        DeviceRegistry { devices: DeviceMap::empty() }
    }

    /// Register `device` under `id`, replacing — and silently discarding —
    /// any previous instance registered there.
    pub fn insert(&mut self, id: DeviceID, device: Device)
        ensures
            final(self)@ == old(self)@.insert(id, device),
    {
        self.devices.store(id, device);
    }

    /// Point lookup: the device registered under `id`, or `None`.
    pub fn device(&self, id: DeviceID) -> (r: Option<&Device>)
        ensures
            (match r {
                Some(device) => self@.contains_key(id) && *device == self@[id],
                None => !self@.contains_key(id),
            }),
    {
        self.devices.lookup(id)
    }

    /// Dispatch one poll to the device registered under `id`: the request
    /// its poll hands back, or `None` — with the registry untouched — when
    /// no such device is registered.
    pub fn poll_device(&mut self, id: DeviceID) -> (r: Option<PollRequest>)
        ensures
            final(self)@ == old(self)@,
            old(self)@.contains_key(id) ==> r == Some(old(self)@[id].poll_request()),
            !old(self)@.contains_key(id) ==> r is None,
    {
        match self.devices.lookup(id) {
            Some(device) => {
                let mut device = *device;
                Some(device.poll())
            },
            None => None,
        }
    }

    /// The identifiers of every registered device that satisfies the
    /// filesystem capability — a snapshot taken at call time, independent
    /// of insertion order.
    pub fn filesystem_devices(&self) -> (r: Vec<DeviceID>)
        ensures
            r@.no_duplicates(),
            forall|id: DeviceID|
                r@.contains(id) <==> self@.contains_key(id) && self@[id].is_filesystem(),
    {
        let ids = self.devices.ids();
        let mut found: Vec<DeviceID> = Vec::new();
        let mut i: usize = 0;
        while i < ids.len()
            invariant
                i <= ids.len(),
                ids@.no_duplicates(),
                ids@.to_set() == self@.dom(),
                found@.no_duplicates(),
                forall|id: DeviceID|
                    found@.contains(id) <==> ids@.take(i as int).contains(id)
                        && self@.contains_key(id) && self@[id].is_filesystem(),
            decreases ids.len() - i,
        {
            let id = ids[i];
            proof {
                assert(ids@.to_set().contains(ids@[i as int]));
            }
            proof {
                lemma_take_one_more(ids@, i as int);
            }
            let device = self.devices.lookup(id);
            if device.unwrap().as_filesystem() {
                proof {
                    lemma_unique_push(found@, id);
                }
                found.push(id);
            }
            i = i + 1;
        }
        proof {
            assert(ids@.take(ids@.len() as int) =~= ids@);
        }
        found
    }

    /// The identifiers of every registered device that satisfies the
    /// graphics capability — a snapshot, as for `filesystem_devices`.
    pub fn graphics_devices(&self) -> (r: Vec<DeviceID>)
        ensures
            r@.no_duplicates(),
            forall|id: DeviceID|
                r@.contains(id) <==> self@.contains_key(id) && self@[id].is_graphics_device(),
    {
        let ids = self.devices.ids();
        let mut found: Vec<DeviceID> = Vec::new();
        let mut i: usize = 0;
        while i < ids.len()
            invariant
                i <= ids.len(),
                ids@.no_duplicates(),
                ids@.to_set() == self@.dom(),
                found@.no_duplicates(),
                forall|id: DeviceID|
                    found@.contains(id) <==> ids@.take(i as int).contains(id)
                        && self@.contains_key(id) && self@[id].is_graphics_device(),
            decreases ids.len() - i,
        {
            let id = ids[i];
            proof {
                assert(ids@.to_set().contains(ids@[i as int]));
            }
            proof {
                lemma_take_one_more(ids@, i as int);
            }
            let device = self.devices.lookup(id);
            if device.unwrap().as_graphics_device() {
                proof {
                    lemma_unique_push(found@, id);
                }
                found.push(id);
            }
            i = i + 1;
        }
        proof {
            assert(ids@.take(ids@.len() as int) =~= ids@);
        }
        found
    }
}

} // verus!
