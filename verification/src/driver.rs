//! The driver adapter: registration with the host's registration call and
//! dispatch of the host's probe and remove callbacks into a driver's safe
//! operations.
//!
//! The host guarantees that probe and remove for a given device are never
//! concurrent and strictly ordered (probe completes before remove begins);
//! the private-state hand-off below relies on that guarantee and adds no
//! locking of its own.

use vstd::prelude::*;

use crate::error::Error;
use crate::host::{dev_valid, Host};
use crate::pci::{id_matches, Candidate, Device, IdTable};

verus! {

/// Cleanup on device removal: the driver's private state is given a last
/// look at the device before it is destroyed.
pub trait DeviceRemoval {
    /// Finalizes any resources the state still holds.  Called exactly once,
    /// by the remove dispatch, after the driver's own remove operation.
    fn device_remove(&self);
}

/// A PCI driver: the capability set a driver module implements to be
/// dispatched by the [`Adapter`].
pub trait Driver {
    /// Driver-private state stored on the device by a successful probe and
    /// recovered, then destroyed, by remove.
    type Data: DeviceRemoval;

    /// Driver-supplied metadata attached to identifier records.
    type IdInfo;

    /// Called when the host has matched discovered hardware to this driver
    /// and wants it initialized.  On success the returned state is stored
    /// on the device until remove.
    fn probe(host: &mut Host, dev: &mut Device, id: Option<&Self::IdInfo>) -> (r: Result<
        Self::Data,
        Error,
    >)
        requires
            dev_valid(*old(host), old(dev).raw as int),
    ;

    /// Called when the device is being unbound from the driver, with the
    /// state the matching probe stored.
    fn remove(data: &Self::Data);
}

/// The state of one driver's registration: the descriptor handed to the
/// host (name, identification table) and the per-device private-state
/// slots the host reserves for driver use.
pub struct Registration<T: Driver> {
    /// The name the driver registers under.
    pub name: Vec<u8>,
    /// The driver's identification table.
    pub table: IdTable<T::IdInfo>,
    /// The private-data slot of each device: what the host's per-device
    /// driver-data field stores between probe and remove.
    pub slots: Vec<Option<T::Data>>,
    /// Whether the driver is currently registered with the host.
    pub registered: bool,
}

/// A private-data slot sequence after a probe stored state `d` for device
/// `i`.
pub open spec fn store_state<D>(slots: Seq<Option<D>>, i: int, d: D) -> Seq<Option<D>> {
    slots.update(i, Some(d))
}

/// A private-data slot sequence after a remove took the state of device
/// `i` back; the state taken is what the slot held.
pub open spec fn take_state<D>(slots: Seq<Option<D>>, i: int) -> Seq<Option<D>> {
    slots.update(i, None)
}

/// A successful probe that stores private state `d` for a device results
/// in exactly one subsequent remove receiving that state: after the store,
/// the device's slot holds `d`; the remove that takes it empties the slot
/// and leaves every other device's slot alone, so a second remove for the
/// same device finds nothing.
pub proof fn lemma_state_handoff<D>(slots: Seq<Option<D>>, i: int, d: D)
    requires
        0 <= i < slots.len(),
    ensures
        store_state(slots, i, d)[i] == Some(d),
        take_state(store_state(slots, i, d), i)[i] is None,
        forall|j: int| 0 <= j < slots.len() && j != i ==> take_state(
            store_state(slots, i, d), i)[j] == slots[j],
{
}

impl<T: Driver> Registration<T> {
    /// A registration descriptor for a driver with the given name and
    /// identification table, able to serve `num_devices` devices, none of
    /// which holds private state yet.
    pub fn new(name: Vec<u8>, table: IdTable<T::IdInfo>, num_devices: usize) -> (r:
        Registration<T>)
        ensures
            r.name@ == name@,
            r.table == table,
            r.slots@.len() == num_devices,
            forall|i: int| 0 <= i < num_devices ==> r.slots@[i] is None,
            !r.registered,
    {
        let mut slots: Vec<Option<T::Data>> = Vec::new();
        let mut i: usize = 0;
        while i < num_devices
            invariant
                0 <= i <= num_devices,
                slots@.len() == i,
                forall|j: int| 0 <= j < i ==> slots@[j] is None,
            decreases num_devices - i,
        {
            slots.push(None);
            i += 1;
        }
        Registration { name, table, slots, registered: false }
    }
}

/// The adapter registering a driver implementation with the host's
/// registration call and dispatching the host's callbacks into it.
#[allow(dead_code)]
pub struct Adapter<T: Driver>(T);

impl<T: Driver> Adapter<T> {
    /// Fills the host's registration descriptor with the driver's name and
    /// identification table and invokes the host's registration call.
    /// Fails, converting the host's negative status into its error kind,
    /// exactly when the host refuses the name as already registered.
    pub fn register(reg: &mut Registration<T>, host: &mut Host) -> (r: Result<(), Error>)
        ensures
            final(host).devices@ == old(host).devices@,
            (r is Ok <==> !crate::host::has_driver(*old(host), old(reg).name@)),
            r is Ok ==> final(reg).registered && crate::host::has_driver(
                *final(host), old(reg).name@) && final(host).drivers@.len()
                == old(host).drivers@.len() + 1 && (forall|i: int| 0 <= i
                < old(host).drivers@.len() ==> final(host).drivers@[i]
                == old(host).drivers@[i]) && final(host).drivers@.last()@
                == old(reg).name@,
            r is Err ==> r == Err::<(), Error>(Error::DeviceBusy)
                && final(host).drivers@ == old(host).drivers@ && *final(reg) == *old(reg),
            final(reg).name@ == old(reg).name@,
            final(reg).table == old(reg).table,
            final(reg).slots@ == old(reg).slots@,
    {
        let status = host.register_driver(&reg.name);
        if status == 0 {
            reg.registered = true;
            proof {
                assert(crate::host::has_driver(*host, reg.name@)) by {
                    let n = host.drivers@.len() - 1;
                    assert(host.drivers@[n]@ == reg.name@);
                }
            }
            Ok(())
        } else {
            Err(Error::from_errno(status))
        }
    }

    /// Invokes the host's unregistration call.  The host treats it as
    /// unconditionally successful, so nothing is returned.
    pub fn unregister(reg: &mut Registration<T>, host: &mut Host)
        ensures
            final(host).devices@ == old(host).devices@,
            !crate::host::has_driver(*old(host), old(reg).name@) ==> final(host).drivers@
                == old(host).drivers@,
            crate::host::has_driver(*old(host), old(reg).name@) ==> exists|i: int|
                0 <= i < old(host).drivers@.len() && old(host).drivers@[i]@
                    == old(reg).name@ && final(host).drivers@
                    == old(host).drivers@.remove(i),
            !final(reg).registered,
            final(reg).name@ == old(reg).name@,
            final(reg).table == old(reg).table,
            final(reg).slots@ == old(reg).slots@,
    {
        host.unregister_driver(&reg.name);
        reg.registered = false;
    }

    /// The probe entry point the host calls for a matched device.
    ///
    /// Wraps the raw device reference, recovers the matched record's
    /// metadata through the offset stored in the record, and invokes the
    /// driver's probe.  On success the returned private state is stored in
    /// the device's slot and zero is reported; on failure the driver's
    /// error code is propagated as a negative status and no state is
    /// stored, so a failed probe leaves nothing behind.
    pub fn probe_callback(reg: &mut Registration<T>, host: &mut Host, pdev: usize,
        id_index: usize) -> (status: i32)
        requires
            dev_valid(*old(host), pdev as int),
            pdev < old(reg).slots@.len(),
            old(reg).table.wf(),
            id_index < old(reg).table.infos@.len(),
        ensures
            status <= 0,
            status == 0 ==> exists|d: T::Data| final(reg).slots@ == store_state(
                old(reg).slots@, pdev as int, d) && final(reg).slots@[pdev as int]
                == Some(d),
            status != 0 ==> final(reg).slots@ == old(reg).slots@,
            final(reg).name@ == old(reg).name@,
            final(reg).table == old(reg).table,
            final(reg).registered == old(reg).registered,
            final(reg).slots@.len() == old(reg).slots@.len(),
    {
        let mut dev = Device::from_ptr(pdev);
        let offset = reg.table.raw[id_index].driver_data;
        let info = reg.table.metadata_for(offset);
        match T::probe(host, &mut dev, info) {
            Ok(data) => {
                let ghost gd = data;
                reg.slots.set(pdev, Some(data));
                proof {
                    assert(reg.slots@ == store_state(old(reg).slots@, pdev as int, gd)
                        && reg.slots@[pdev as int] == Some(gd));
                }
                0
            },
            Err(e) => e.to_errno(),
        }
    }

    /// The remove entry point the host calls when a device is unbound.
    ///
    /// Takes the private state the matching probe stored — the slot is
    /// emptied, so the state is recovered at most once per probe/remove
    /// pair — invokes the driver's remove operation and then the state's
    /// device-removal hook, exactly once each, and hands the finalized
    /// state back to be destroyed.
    pub fn remove_callback(reg: &mut Registration<T>, pdev: usize) -> (data: Option<
        T::Data,
    >)
        requires
            pdev < old(reg).slots@.len(),
        ensures
            data == old(reg).slots@[pdev as int],
            final(reg).slots@ == take_state(old(reg).slots@, pdev as int),
            final(reg).name@ == old(reg).name@,
            final(reg).table == old(reg).table,
            final(reg).registered == old(reg).registered,
    {
        let taken = reg.slots.remove(pdev);
        reg.slots.insert(pdev, None);
        proof {
            assert(reg.slots@ =~= take_state(old(reg).slots@, pdev as int));
        }
        match taken {
            Some(data) => {
                T::remove(&data);
                data.device_remove();
                Some(data)
            },
            None => None,
        }
    }

    /// The host's matching engine, applied to one discovered device: walks
    /// the driver's table for the first record matching the candidate and
    /// dispatches the probe callback for it.  A candidate no record
    /// matches is never dispatched to this driver.
    pub fn dispatch_probe(reg: &mut Registration<T>, host: &mut Host, pdev: usize,
        cand: &Candidate) -> (r: Option<i32>)
        requires
            dev_valid(*old(host), pdev as int),
            pdev < old(reg).slots@.len(),
            old(reg).table.wf(),
        ensures
            (r is None <==> forall|j: int| 0 <= j < old(reg).table.infos@.len()
                ==> !id_matches(old(reg).table.raw@[j], *cand)),
            r is None ==> *final(reg) == *old(reg) && *final(host) == *old(host),
            r matches Some(status) ==> status <= 0 && (status == 0 ==> exists|d: T::Data|
                final(reg).slots@ == store_state(old(reg).slots@, pdev as int, d))
                && (status != 0 ==> final(reg).slots@ == old(reg).slots@),
            final(reg).name@ == old(reg).name@,
            final(reg).table == old(reg).table,
            final(reg).registered == old(reg).registered,
    {
        match reg.table.find_match(cand) {
            Some(id_index) => Some(Self::probe_callback(reg, host, pdev, id_index)),
            None => None,
        }
    }
}

} // verus!
