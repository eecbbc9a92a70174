use vstd::prelude::*;

use crate::device::{
    catalog_from_listing, descriptor_valid, lists_id, listing_well_formed,
    DeviceDescriptor,
};
use crate::error::RecorderError;

verus! {

/// One attached input device, with what the host knows of its state.
pub struct HostDevice {
    pub descriptor: DeviceDescriptor,
    /// Whether the device offers a sample format the recorder accepts.
    pub format_supported: bool,
    /// Claimed by this recorder's capture engine.
    pub claimed_by_us: bool,
    /// Claimed by another process or session.
    pub claimed_elsewhere: bool,
}

/// The host audio subsystem as the recorder sees it.
pub struct AudioHost {
    /// Whether device queries get an answer.
    pub reachable: bool,
    pub devices: Vec<HostDevice>,
}

/// The descriptors of the attached devices, in order.
pub open spec fn descriptors(devs: Seq<HostDevice>) -> Seq<DeviceDescriptor> {
    devs.map_values(|d: HostDevice| d.descriptor)
}

/// `devs` with the recorder's claim on the device `id` set to `v`.
pub open spec fn with_our_claim(devs: Seq<HostDevice>, id: Seq<char>, v: bool) -> Seq<HostDevice> {
    devs.map_values(
        |d: HostDevice|
            if d.descriptor.id@ == id {
                HostDevice {
                    descriptor: d.descriptor,
                    format_supported: d.format_supported,
                    claimed_by_us: v,
                    claimed_elsewhere: d.claimed_elsewhere,
                }
            } else {
                d
            },
    )
}

/// `devs` with the claim of other processes on the device `id` set to `v`.
pub open spec fn with_other_claim(devs: Seq<HostDevice>, id: Seq<char>, v: bool) -> Seq<HostDevice> {
    devs.map_values(
        |d: HostDevice|
            if d.descriptor.id@ == id {
                HostDevice {
                    descriptor: d.descriptor,
                    format_supported: d.format_supported,
                    claimed_by_us: d.claimed_by_us,
                    claimed_elsewhere: v,
                }
            } else {
                d
            },
    )
}

/// Why opening the device `id` fails on a host whose devices are `devs`, if it does.
pub open spec fn claim_outcome(devs: Seq<HostDevice>, id: Seq<char>) -> Result<(), RecorderError> {
    if !lists_id(descriptors(devs), id) {
        Err(RecorderError::DeviceUnavailable)
    } else {
        let d = devs[choose|i: int| 0 <= i < devs.len() && devs[i].descriptor.id@ == id];
        if !d.format_supported {
            Err(RecorderError::FormatNegotiationFailed)
        } else if d.claimed_by_us || d.claimed_elsewhere {
            Err(RecorderError::DeviceBusy)
        } else {
            Ok(())
        }
    }
}

impl AudioHost {
    /// Attached devices have valid descriptors and distinct ids.
    pub open spec fn wf(&self) -> bool {
        listing_well_formed(descriptors(self.devices@))
    }

    /// Whether a device with id `id` is attached.
    pub open spec fn has_device(&self, id: Seq<char>) -> bool {
        lists_id(descriptors(self.devices@), id)
    }

    /// A reachable host with no device attached.
    pub fn new() -> (r: Self)
        ensures
            r.wf(),
            r.reachable,
            r.devices@.len() == 0,
    {
        let r = AudioHost { reachable: true, devices: Vec::new() };
        assert(descriptors(r.devices@) =~= Seq::<DeviceDescriptor>::empty());
        r
    }

    /// Where the device `id` stands among the attached devices.
    pub fn position(&self, id: &String) -> (r: Option<usize>)
        ensures
            match r {
                Some(i) => i < self.devices@.len() && self.devices@[i as int].descriptor.id@ == id@,
                None => !self.has_device(id@),
            },
    {
        let mut i: usize = 0;
        while i < self.devices.len()
            invariant
                i <= self.devices@.len(),
                forall|k: int| 0 <= k < i ==> self.devices@[k].descriptor.id@ != id@,
            decreases self.devices@.len() - i,
        {
            if self.devices[i].descriptor.id == *id {
                return Some(i);
            }
            i = i + 1;
        }
        assert(!self.has_device(id@)) by {
            if self.has_device(id@) {
                let k = choose|k: int|
                    0 <= k < descriptors(self.devices@).len() && descriptors(self.devices@)[k].id@
                        == id@;
                assert(self.devices@[k].descriptor.id@ == id@);
            }
        }
        None
    }

    /// Attaches a device. Refused, with nothing changed, when its descriptor is
    /// invalid or its id is already attached.
    pub fn attach_device(&mut self, d: DeviceDescriptor, format_supported: bool) -> (r: bool)
        requires
            old(self).wf(),
        ensures
            final(self).wf(),
            final(self).reachable == old(self).reachable,
            r == (descriptor_valid(d) && !old(self).has_device(d.id@)),
            r ==> final(self).devices@ == old(self).devices@.push(
                HostDevice {
                    descriptor: d,
                    format_supported,
                    claimed_by_us: false,
                    claimed_elsewhere: false,
                },
            ),
            !r ==> *final(self) == *old(self),
    {
        if d.id.as_str().is_empty() || d.min_sample_rate > d.max_sample_rate {
            return false;
        }
        match self.position(&d.id) {
            Some(i) => {
                assert(descriptors(self.devices@)[i as int].id@ == d.id@);
                return false;
            },
            None => {},
        }
        let ghost old_devs = self.devices@;
        self.devices.push(
            HostDevice { descriptor: d, format_supported, claimed_by_us: false, claimed_elsewhere: false },
        );
        assert(descriptors(self.devices@) =~= descriptors(old_devs).push(
            self.devices@[old_devs.len() as int].descriptor,
        ));
        assert(self.wf()) by {
            let s = descriptors(self.devices@);
            let n = old_devs.len() as int;
            assert forall|i: int, j: int|
                0 <= i < s.len() && 0 <= j < s.len() && i != j implies s[i].id@ != s[j].id@ by {
                if i == n {
                    assert(descriptors(old_devs)[j].id@ == s[j].id@);
                } else if j == n {
                    assert(descriptors(old_devs)[i].id@ == s[i].id@);
                }
            }
        }
        true
    }

    /// Detaches the device `id`; false, with nothing changed, when none is attached.
    pub fn detach_device(&mut self, id: &String) -> (r: bool)
        requires
            old(self).wf(),
        ensures
            final(self).wf(),
            final(self).reachable == old(self).reachable,
            r == old(self).has_device(id@),
            !final(self).has_device(id@),
            forall|k: Seq<char>| k != id@ ==> (final(self).has_device(k) == old(self).has_device(k)),
            forall|k: int|
                0 <= k < final(self).devices@.len() ==> old(self).devices@.contains(
                    #[trigger] final(self).devices@[k],
                ),
            !r ==> *final(self) == *old(self),
    {
        match self.position(id) {
            None => false,
            Some(i) => {
                let ghost old_devs = self.devices@;
                self.devices.remove(i);
                let ghost s0 = descriptors(old_devs);
                assert(s0[i as int].id@ == id@);
                assert(descriptors(self.devices@) =~= s0.remove(i as int));
                proof {
                    assert forall|k: int| 0 <= k < self.devices@.len() implies old_devs.contains(
                        #[trigger] self.devices@[k]) by {
                        let ko = if k < i { k } else { k + 1 };
                        assert(old_devs[ko] == self.devices@[k]);
                    }
                    let s = descriptors(self.devices@);
                    assert forall|a: int| 0 <= a < s.len() implies s[a] == s0[if a < i { a } else { a + 1 }] by {}
                    assert(!self.has_device(id@)) by {
                        if self.has_device(id@) {
                            let k = choose|k: int| 0 <= k < s.len() && s[k].id@ == id@;
                            let ko = if k < i { k } else { k + 1 };
                            assert(s0[ko].id@ == id@);
                        }
                    }
                    assert forall|k: Seq<char>| k != id@ implies (self.has_device(k) == lists_id(s0, k)) by {
                        if lists_id(s0, k) {
                            let a = choose|a: int| 0 <= a < s0.len() && s0[a].id@ == k;
                            assert(a != i);
                            let b = if a < i { a } else { a - 1 };
                            assert(s[b].id@ == k);
                        }
                        if self.has_device(k) {
                            let b = choose|b: int| 0 <= b < s.len() && s[b].id@ == k;
                            let a = if b < i { b } else { b + 1 };
                            assert(s0[a].id@ == k);
                        }
                    }
                }
                true
            },
        }
    }
    /// Sets the recorder's claim on the device `id`; nothing else changes.
    fn set_our_claim(&mut self, id: &String, v: bool)
        requires
            old(self).wf(),
        ensures
            final(self).wf(),
            final(self).reachable == old(self).reachable,
            final(self).devices@ == with_our_claim(old(self).devices@, id@, v),
    {
        let ghost old_devs = self.devices@;
        match self.position(id) {
            None => {
                assert forall|k: int| 0 <= k < old_devs.len() implies with_our_claim(old_devs, id@, v)[k]
                    == old_devs[k] by {
                    assert(descriptors(old_devs)[k].id@ == old_devs[k].descriptor.id@);
                }
                assert(with_our_claim(old_devs, id@, v) =~= old_devs);
            },
            Some(i) => {
                self.devices[i].claimed_by_us = v;
                proof {
                    let s0 = descriptors(old_devs);
                    assert(s0[i as int].id@ == id@);
                    assert forall|k: int| 0 <= k < old_devs.len() implies with_our_claim(old_devs, id@, v)[k]
                        == self.devices@[k] by {
                        assert(s0[k].id@ == old_devs[k].descriptor.id@);
                    }
                    assert(with_our_claim(old_devs, id@, v) =~= self.devices@);
                    assert(descriptors(self.devices@) =~= s0);
                }
            },
        }
    }
    /// Marks the device `id` as claimed, or no longer claimed, by another process.
    /// False, with nothing changed, when no such device is attached.
    pub fn set_claimed_elsewhere(&mut self, id: &String, busy: bool) -> (r: bool)
        requires
            old(self).wf(),
        ensures
            final(self).wf(),
            final(self).reachable == old(self).reachable,
            r == old(self).has_device(id@),
            final(self).devices@ == with_other_claim(old(self).devices@, id@, busy),
    {
        let ghost old_devs = self.devices@;
        match self.position(id) {
            None => {
                assert forall|k: int| 0 <= k < old_devs.len() implies with_other_claim(old_devs, id@, busy)[k]
                    == old_devs[k] by {
                    assert(descriptors(old_devs)[k].id@ == old_devs[k].descriptor.id@);
                }
                assert(with_other_claim(old_devs, id@, busy) =~= old_devs);
                false
            },
            Some(i) => {
                self.devices[i].claimed_elsewhere = busy;
                proof {
                    let s0 = descriptors(old_devs);
                    assert(s0[i as int].id@ == id@);
                    assert forall|k: int| 0 <= k < old_devs.len() implies with_other_claim(old_devs, id@, busy)[k]
                        == self.devices@[k] by {
                        assert(s0[k].id@ == old_devs[k].descriptor.id@);
                    }
                    assert(with_other_claim(old_devs, id@, busy) =~= self.devices@);
                    assert(descriptors(self.devices@) =~= s0);
                }
                true
            },
        }
    }

    /// Claims the device `id` for the recorder, the device-open step of the
    /// capture engine. On failure nothing changes.
    pub fn claim(&mut self, id: &String) -> (r: Result<(), RecorderError>)
        requires
            old(self).wf(),
        ensures
            final(self).wf(),
            final(self).reachable == old(self).reachable,
            r == claim_outcome(old(self).devices@, id@),
            r is Ok ==> final(self).devices@ == with_our_claim(old(self).devices@, id@, true),
            r is Err ==> *final(self) == *old(self),
    {
        let ghost devs = self.devices@;
        match self.position(id) {
            None => Err(RecorderError::DeviceUnavailable),
            Some(i) => {
                proof {
                    let s0 = descriptors(devs);
                    assert(s0[i as int].id@ == id@);
                    let c = choose|c: int| 0 <= c < devs.len() && devs[c].descriptor.id@ == id@;
                    assert(s0[c].id@ == id@);
                }
                let d = &self.devices[i];
                if !d.format_supported {
                    Err(RecorderError::FormatNegotiationFailed)
                } else if d.claimed_by_us || d.claimed_elsewhere {
                    Err(RecorderError::DeviceBusy)
                } else {
                    self.set_our_claim(id, true);
                    Ok(())
                }
            },
        }
    }

    /// Drops the recorder's claim on the device `id`, if it is still attached.
    pub fn release(&mut self, id: &String)
        requires
            old(self).wf(),
        ensures
            final(self).wf(),
            final(self).reachable == old(self).reachable,
            final(self).devices@ == with_our_claim(old(self).devices@, id@, false),
    {
        self.set_our_claim(id, false);
    }

    /// The catalog's answer: every attached device, or `DeviceQueryError` when
    /// the host cannot be reached.
    pub fn enumerate(&self) -> (r: Result<Vec<DeviceDescriptor>, RecorderError>)
        requires
            self.wf(),
        ensures
            !self.reachable ==> r == Err::<Vec<DeviceDescriptor>, RecorderError>(
                RecorderError::DeviceQueryError,
            ),
            self.reachable ==> (r matches Ok(v) && v@ == descriptors(self.devices@)),
    {
        if !self.reachable {
            return catalog_from_listing(None);
        }
        let mut list: Vec<DeviceDescriptor> = Vec::new();
        let mut i: usize = 0;
        while i < self.devices.len()
            invariant
                i <= self.devices@.len(),
                list@ == descriptors(self.devices@.subrange(0, i as int)),
            decreases self.devices@.len() - i,
        {
            let d = self.devices[i].descriptor.duplicate();
            list.push(d);
            assert(self.devices@.subrange(0, i + 1) =~= self.devices@.subrange(0, i as int).push(
                self.devices@[i as int],
            ));
            assert(descriptors(self.devices@.subrange(0, i + 1)) =~= descriptors(
                self.devices@.subrange(0, i as int),
            ).push(d));
            i = i + 1;
        }
        assert(self.devices@.subrange(0, i as int) =~= self.devices@);
        catalog_from_listing(Some(list))
    }
}

} // verus!
