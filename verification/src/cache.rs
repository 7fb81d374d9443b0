//! The discovery cache: remembers announced devices and their object lists,
//! and closes the auto-discovery loop — a newly seen device with no cached
//! object list triggers exactly one object-discovery command.
//!
//! A repeated announcement of the same instance supersedes the cached entry
//! wholesale (last write wins, a chosen invariant), and an object list is
//! recomputed wholesale on each announcement, never patched.

use vstd::prelude::*;
use std::collections::HashMap;
use crate::types::{
    command_address, command_device_id, command_interface, BacnetDevice, BacnetObjectInfo,
    Command, Event,
};
use vstd::string::StringExecFns;

verus! {

broadcast use vstd::std_specs::hash::group_hash_axioms;

/// The cache after a device announcement: the entry is replaced outright.
pub open spec fn devices_after(devices: Map<u32, BacnetDevice>, d: BacnetDevice) -> Map<
    u32,
    BacnetDevice,
> {
    devices.insert(d.instance, d)
}

/// Whether a device announcement triggers object discovery: only when the
/// instance was never seen and no object list is cached for it.
pub open spec fn triggers_discovery(
    devices: Map<u32, BacnetDevice>,
    objects: Map<u32, Vec<BacnetObjectInfo>>,
    instance: u32,
) -> bool {
    !devices.contains_key(instance) && !objects.contains_key(instance)
}

/// Known devices by instance, and their advertised object lists.
pub struct DiscoveryCache {
    pub devices: HashMap<u32, BacnetDevice>,
    pub objects: HashMap<u32, Vec<BacnetObjectInfo>>,
}

impl DiscoveryCache {
    /// An empty cache.
    pub fn new() -> (c: Self)
        ensures
            c.devices@ == Map::<u32, BacnetDevice>::empty(),
            c.objects@ == Map::<u32, Vec<BacnetObjectInfo>>::empty(),
    {
        DiscoveryCache { devices: HashMap::new(), objects: HashMap::new() }
    }

    /// Consumes one broadcast event.  A device announcement is cached (last
    /// write wins) and, exactly when the instance is new and has no cached
    /// object list, answered with one `DiscoverObjects` command for it, at
    /// its announced address, on the interface already bound (named by the
    /// empty string).  An object-list announcement replaces the cached list
    /// wholesale.  Other events change nothing.
    pub fn on_event(&mut self, event: Event) -> (cmd: Option<Command>)
        ensures
            (event matches Event::DeviceDiscovered(d) ==> final(self).devices@ == devices_after(
                old(self).devices@,
                d,
            ) && final(self).objects@ == old(self).objects@ && (cmd is Some == triggers_discovery(
                old(self).devices@,
                old(self).objects@,
                d.instance,
            )) && (cmd is Some ==> cmd->0 is DiscoverObjects && command_device_id(cmd->0)
                == d.instance && command_address(cmd->0) == d.address@ && command_interface(cmd->0)
                == Seq::<char>::empty())),
            (event matches Event::DeviceObjectsDiscovered { device_id, objects } ==> final(self).objects@ == old(self).objects@.insert(device_id, objects) && final(self).devices@
                == old(self).devices@ && cmd is None),
            event is PointUpdate || event is StatusMessage ==> *final(self) == *old(self) && cmd
                is None,
    {
        match event {
            Event::DeviceDiscovered(d) => {
                let fresh = !self.devices.contains_key(&d.instance) && !self.objects.contains_key(
                    &d.instance,
                );
                let cmd = if fresh {
                    Some(
                        Command::DiscoverObjects {
                            interface: String::new(),
                            device_id: d.instance,
                            address: String::from_str(d.address.as_str()),
                        },
                    )
                } else {
                    None
                };
                self.devices.insert(d.instance, d);
                cmd
            },
            Event::DeviceObjectsDiscovered { device_id, objects } => {
                self.objects.insert(device_id, objects);
                None
            },
            Event::PointUpdate { .. } => None,
            Event::StatusMessage(..) => None,
        }
    }

    /// The cached identity of a device, if it was announced.
    pub fn get_device(&self, instance: u32) -> (r: Option<&BacnetDevice>)
        ensures
            r is Some == self.devices@.contains_key(instance),
            r matches Some(d) ==> *d == self.devices@[instance],
    {
        self.devices.get(&instance)
    }

    /// The cached object list of a device, if one was announced.
    pub fn objects_for(&self, instance: u32) -> (r: Option<&Vec<BacnetObjectInfo>>)
        ensures
            r is Some == self.objects@.contains_key(instance),
            r matches Some(v) ==> *v == self.objects@[instance],
    {
        self.objects.get(&instance)
    }
}

/// Law: auto-discovery triggers at most once per device instance.  Once an
/// announcement for an instance is cached, no later announcement of the same
/// instance triggers object discovery again, whatever address or name it
/// carries and whether or not an object list ever arrived.
pub proof fn lemma_auto_discover_once(
    devices: Map<u32, BacnetDevice>,
    objects: Map<u32, Vec<BacnetObjectInfo>>,
    first: BacnetDevice,
    later: BacnetDevice,
)
    requires
        later.instance == first.instance,
    ensures
        !triggers_discovery(devices_after(devices, first), objects, later.instance),
{
}

} // verus!
