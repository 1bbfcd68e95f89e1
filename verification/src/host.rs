//! An explicit model of the host device subsystem's state, as far as this
//! layer reads or changes it.
//!
//! The host owns the device objects; this layer sees each of them through a
//! raw reference, modelled here as an index into [`Host::devices`].  Every
//! operation of the layer is a synchronous call against this state, and its
//! contract says exactly which fields it consults and which it updates.

use vstd::prelude::*;

verus! {

/// A hardware resource region: an inclusive start/end address pair with the
/// host's flag word describing the kind of region.
#[derive(Clone, Copy, Debug, PartialEq, Eq, Structural)]
pub struct Region {
    /// First address of the region.
    pub start: u64,
    /// Last address of the region (inclusive).
    pub end: u64,
    /// The host's flag bits for this region.
    pub flags: u64,
}

/// One device object owned by the host, with the parts of its state this
/// layer depends on.
///
/// The fields up to `irq` describe the hardware as the host discovered it;
/// the remaining fields are the host-side state this layer's calls change.
pub struct DeviceObject {
    /// The host's reference count for the object.  The object stays alive
    /// while it is non-zero.
    pub refcount: u64,
    /// The immutable display name.  The host never renames a device while
    /// a handle to it exists.
    pub name: Vec<u8>,
    /// The hardware resource regions the device exposes, indexed from zero.
    pub resources: Vec<Region>,
    /// The platform interrupt line reported for the device; zero means none.
    pub irq: u32,
    /// The platform interrupt number assigned to each allocatable vector;
    /// zero means no assignment.
    pub vector_irqs: Vec<u32>,
    /// How many interrupt vectors the host can allocate for this device.
    pub vector_capacity: u32,
    /// How many interrupt vectors are currently allocated.
    pub vectors_allocated: u32,
    /// The status the host answers when asked to enable memory decoding:
    /// zero grants it, a negative value denies it with that code.
    pub enable_status: i32,
    /// Whether memory decoding has been enabled.
    pub mem_enabled: bool,
    /// Whether the device has been made bus master.
    pub bus_master: bool,
    /// Bitmask of region indices whose address space is already reserved.
    pub regions_reserved: i32,
    /// The smallest addressing mask the device's bus can work with; asking
    /// for a narrower one fails.
    pub dma_min_mask: u64,
    /// The streaming addressing mask currently set.
    pub dma_mask: u64,
    /// The coherent addressing mask currently set.
    pub coherent_mask: u64,
    /// How many scatter-gather segments the host can map for this device
    /// in one call.
    pub sg_map_limit: usize,
}

/// The host subsystem's state: its device objects and the driver names
/// registered with it.
pub struct Host {
    /// The device objects, indexed by raw reference.
    pub devices: Vec<DeviceObject>,
    /// The names under which drivers are currently registered.
    pub drivers: Vec<Vec<u8>>,
}

/// Whether `raw` refers to a device object of `h`.
pub open spec fn dev_valid(h: Host, raw: int) -> bool {
    0 <= raw < h.devices@.len()
}

/// Whether a driver is registered with `h` under `name`.
pub open spec fn has_driver(h: Host, name: Seq<u8>) -> bool {
    exists|i: int| 0 <= i < h.drivers@.len() && h.drivers@[i]@ == name
}

/// A copy of a byte string.
#[verifier::loop_isolation(false)]
fn clone_bytes(a: &Vec<u8>) -> (r: Vec<u8>)
    ensures
        r@ == a@,
{
    let mut r: Vec<u8> = Vec::new();
    let n: usize = a.len();
    let mut i: usize = 0;
    while i < n
        invariant
            n == a@.len(),
            0 <= i <= n,
            r@ =~= a@.subrange(0, i as int),
        decreases n - i,
    {
        r.push(a[i]);
        i += 1;
    }
    proof {
        assert(r@ =~= a@);
    }
    r
}

/// Whether two byte strings hold the same bytes.
#[verifier::loop_isolation(false)]
fn bytes_eq(a: &Vec<u8>, b: &Vec<u8>) -> (r: bool)
    ensures
        r == (a@ == b@),
{
    if a.len() != b.len() {
        assert(a@ != b@);
        return false;
    }
    let n: usize = a.len();
    let mut i: usize = 0;
    while i < n
        invariant
            n == a@.len() == b@.len(),
            0 <= i <= n,
            forall|j: int| 0 <= j < i ==> a@[j] == b@[j],
        decreases n - i,
    {
        if a[i] != b[i] {
            return false;
        }
        i += 1;
    }
    assert(a@ =~= b@);
    true
}

impl Host {
    /// A host with no devices and no registered drivers.
    pub fn new() -> (r: Host)
        ensures
            r.devices@.len() == 0,
            r.drivers@.len() == 0,
    {
        Host { devices: Vec::new(), drivers: Vec::new() }
    }

    /// Hands a device object over to the host and returns the raw reference
    /// under which the host holds it from now on.
    pub fn add_device(&mut self, dev: DeviceObject) -> (raw: usize)
        ensures
            final(self).devices@ == old(self).devices@.push(dev),
            raw == old(self).devices@.len(),
            final(self).drivers@ == old(self).drivers@,
    {
        let raw = self.devices.len();
        self.devices.push(dev);
        raw
    }

    /// The host's registration call: records the driver under `name` and
    /// answers zero, unless a driver of that name is already registered,
    /// which it refuses as busy.
    #[verifier::loop_isolation(false)]
    pub fn register_driver(&mut self, name: &Vec<u8>) -> (status: i32)
        ensures
            final(self).devices@ == old(self).devices@,
            status == 0 || status == -crate::error::EBUSY,
            status == 0 <==> !has_driver(*old(self), name@),
            status == 0 ==> final(self).drivers@.len() == old(self).drivers@.len() + 1
                && (forall|i: int| 0 <= i < old(self).drivers@.len()
                    ==> final(self).drivers@[i] == old(self).drivers@[i])
                && final(self).drivers@.last()@ == name@,
            status != 0 ==> final(self).drivers@ == old(self).drivers@,
    {
        let n: usize = self.drivers.len();
        let mut i: usize = 0;
        while i < n
            invariant
                self.devices@ == old(self).devices@,
                self.drivers@ == old(self).drivers@,
                n == self.drivers@.len(),
                0 <= i <= n,
                forall|j: int| 0 <= j < i ==> self.drivers@[j]@ != name@,
        decreases n - i,
        {
            if bytes_eq(&self.drivers[i], name) {
                return -crate::error::EBUSY;
            }
            i += 1;
        }
        self.drivers.push(clone_bytes(name));
        0
    }

    /// The host's unregistration call: forgets the first registration under
    /// `name`.  The host treats this as unconditionally successful; with no
    /// such registration it changes nothing.
    #[verifier::loop_isolation(false)]
    pub fn unregister_driver(&mut self, name: &Vec<u8>)
        ensures
            final(self).devices@ == old(self).devices@,
            !has_driver(*old(self), name@) ==> final(self).drivers@ == old(self).drivers@,
            has_driver(*old(self), name@) ==> exists|i: int|
                0 <= i < old(self).drivers@.len() && old(self).drivers@[i]@ == name@
                    && final(self).drivers@ == old(self).drivers@.remove(i),
    {
        let n: usize = self.drivers.len();
        let mut i: usize = 0;
        while i < n
            invariant
                self.devices@ == old(self).devices@,
                self.drivers@ == old(self).drivers@,
                n == self.drivers@.len(),
                0 <= i <= n,
                forall|j: int| 0 <= j < i ==> self.drivers@[j]@ != name@,
        decreases n - i,
        {
            if bytes_eq(&self.drivers[i], name) {
                self.drivers.remove(i);
                return;
            }
            i += 1;
        }
    }
}

} // verus!
