//! Reference-counted handles to device objects owned by the host.
//!
//! A handle owns exactly one increment of the host's reference count for
//! its device for as long as it exists: construction with [`Device::new`]
//! increments, [`Device::from_dev_no_reference`] takes over an increment
//! already made on the caller's behalf, cloning increments again, and
//! [`Device::release`] gives the increment back.

use vstd::prelude::*;

use crate::error::{Error, EIO};
use crate::host::{dev_valid, DeviceObject, Host};

verus! {

/// A raw device: something that stands for one of the host's device
/// objects.
///
/// Implementers must answer the same raw reference on every call, so that
/// actions through it affect one device throughout.
pub trait RawDevice {
    /// The device object this value stands for.
    spec fn device_id(&self) -> int;

    /// Returns the raw reference to the device object.
    fn raw_device(&self) -> (raw: usize)
        ensures
            raw as int == self.device_id(),
    ;
}

/// A reference-counted handle to a device object.
///
/// While the handle exists, the host's reference count for the object
/// includes one increment owned by the handle, so the object stays alive
/// and is never renamed.
pub struct Device {
    /// The raw reference to the host's device object.
    pub raw: usize,
}

/// One reference count incremented: what the host does when a handle is
/// created or cloned.
pub open spec fn refcount_incremented(rc: int) -> int {
    rc + 1
}

/// One reference count decremented: what the host does when a handle is
/// released.
pub open spec fn refcount_decremented(rc: int) -> int {
    rc - 1
}

/// The reference count after `n` handle clones.
pub open spec fn refcount_after_clones(rc: int, n: nat) -> int
    decreases n,
{
    if n == 0 {
        rc
    } else {
        refcount_incremented(refcount_after_clones(rc, (n - 1) as nat))
    }
}

/// The reference count after `n` handle releases.
pub open spec fn refcount_after_drops(rc: int, n: nat) -> int
    decreases n,
{
    if n == 0 {
        rc
    } else {
        refcount_decremented(refcount_after_drops(rc, (n - 1) as nat))
    }
}

/// For any device, `n` handle clones followed by `n` releases bring the
/// host's reference count back to its value before the clones.
pub proof fn lemma_clone_drop_round_trip(rc: int, n: nat)
    ensures
        refcount_after_drops(refcount_after_clones(rc, n), n) == rc,
    decreases n,
{
    if n > 0 {
        lemma_clone_drop_round_trip(rc, (n - 1) as nat);
        lemma_drop_of_increment(refcount_after_clones(rc, (n - 1) as nat), (n - 1) as nat);
    }
}

/// Dropping `n + 1` references from an incremented count is dropping `n`
/// references from the count itself.
proof fn lemma_drop_of_increment(rc: int, n: nat)
    ensures
        refcount_after_drops(refcount_incremented(rc), (n + 1) as nat)
            == refcount_after_drops(rc, n),
    decreases n,
{
    let m: nat = (n + 1) as nat;
    assert(refcount_after_drops(refcount_incremented(rc), m)
        == refcount_decremented(refcount_after_drops(refcount_incremented(rc), (m - 1) as nat)));
    if n > 0 {
        lemma_drop_of_increment(rc, (n - 1) as nat);
        assert(refcount_after_drops(rc, n)
            == refcount_decremented(refcount_after_drops(rc, (n - 1) as nat)));
    }
}

impl Device {
    /// Creates an owning handle from a raw reference, incrementing the
    /// host's reference count.
    ///
    /// The raw reference must already be a valid live reference: it is the
    /// caller's responsibility, since raw references originate from host
    /// callbacks.
    pub fn new(host: &mut Host, raw: usize) -> (d: Device)
        requires
            dev_valid(*old(host), raw as int),
            old(host).devices@[raw as int].refcount >= 1,
            old(host).devices@[raw as int].refcount < u64::MAX,
        ensures
            d.raw == raw,
            final(host).devices@ == old(host).devices@.update(
                raw as int,
                DeviceObject {
                    refcount: (old(host).devices@[raw as int].refcount + 1) as u64,
                    ..old(host).devices@[raw as int]
                },
            ),
            final(host).devices@[raw as int].refcount as int
                == refcount_incremented(old(host).devices@[raw as int].refcount as int),
            final(host).drivers@ == old(host).drivers@,
    {
        let obj = &mut host.devices[raw];
        obj.refcount = obj.refcount + 1;
        proof {
            assert(host.devices@ =~= old(host).devices@.update(
                raw as int,
                DeviceObject {
                    refcount: (old(host).devices@[raw as int].refcount + 1) as u64,
                    ..old(host).devices@[raw as int]
                },
            ));
        }
        Device { raw }
    }

    /// Creates an owning handle from an existing [`RawDevice`] value,
    /// incrementing the host's reference count.
    pub fn from_dev<T: RawDevice>(host: &mut Host, dev: &T) -> (d: Device)
        requires
            dev_valid(*old(host), dev.device_id()),
            old(host).devices@[dev.device_id()].refcount >= 1,
            old(host).devices@[dev.device_id()].refcount < u64::MAX,
        ensures
            d.raw as int == dev.device_id(),
            final(host).devices@.len() == old(host).devices@.len(),
            final(host).devices@[dev.device_id()].refcount as int
                == refcount_incremented(old(host).devices@[dev.device_id()].refcount as int),
            forall|j: int| 0 <= j < old(host).devices@.len() && j != dev.device_id()
                ==> final(host).devices@[j] == old(host).devices@[j],
            final(host).drivers@ == old(host).drivers@,
    {
        let raw = dev.raw_device();
        Device::new(host, raw)
    }

    /// Creates a handle from a device whose reference count has already
    /// been incremented on the caller's behalf.  The handle takes over that
    /// increment: it makes no increment of its own, and releasing it gives
    /// the taken-over increment back.
    pub fn from_dev_no_reference<T: RawDevice>(dev: &T) -> (d: Device)
        ensures
            d.raw as int == dev.device_id(),
    {
        Device { raw: dev.raw_device() }
    }

    /// Clones the handle: increments the host's reference count and returns
    /// a second independent owning handle to the same object.
    pub fn clone_ref(&self, host: &mut Host) -> (d: Device)
        requires
            dev_valid(*old(host), self.raw as int),
            old(host).devices@[self.raw as int].refcount >= 1,
            old(host).devices@[self.raw as int].refcount < u64::MAX,
        ensures
            d.raw == self.raw,
            final(host).devices@.len() == old(host).devices@.len(),
            final(host).devices@[self.raw as int].refcount as int
                == refcount_incremented(old(host).devices@[self.raw as int].refcount as int),
            forall|j: int| 0 <= j < old(host).devices@.len() && j != self.raw as int
                ==> final(host).devices@[j] == old(host).devices@[j],
            final(host).drivers@ == old(host).drivers@,
    {
        Device::new(host, self.raw)
    }

    /// Releases the handle: gives its increment of the reference count back
    /// to the host.  When the count reaches zero the host reclaims the
    /// object.  Never blocks.
    pub fn release(self, host: &mut Host)
        requires
            dev_valid(*old(host), self.raw as int),
            old(host).devices@[self.raw as int].refcount >= 1,
        ensures
            final(host).devices@ == old(host).devices@.update(
                self.raw as int,
                DeviceObject {
                    refcount: (old(host).devices@[self.raw as int].refcount - 1) as u64,
                    ..old(host).devices@[self.raw as int]
                },
            ),
            final(host).devices@[self.raw as int].refcount as int
                == refcount_decremented(old(host).devices@[self.raw as int].refcount as int),
            final(host).drivers@ == old(host).drivers@,
    {
        let obj = &mut host.devices[self.raw];
        obj.refcount = obj.refcount - 1;
        proof {
            assert(host.devices@ =~= old(host).devices@.update(
                self.raw as int,
                DeviceObject {
                    refcount: (old(host).devices@[self.raw as int].refcount - 1) as u64,
                    ..old(host).devices@[self.raw as int]
                },
            ));
        }
    }

    /// The device's immutable display name.  Valid as long as the handle is
    /// alive, because the object is never renamed while a handle exists.
    pub fn name<'a>(&self, host: &'a Host) -> (r: &'a Vec<u8>)
        requires
            dev_valid(*host, self.raw as int),
        ensures
            r@ == host.devices@[self.raw as int].name@,
    {
        &host.devices[self.raw].name
    }
}

impl RawDevice for Device {
    open spec fn device_id(&self) -> int {
        self.raw as int
    }

    fn raw_device(&self) -> (raw: usize) {
        self.raw
    }
}

/// Sets the device's streaming addressing mask.  The host accepts any mask
/// no narrower than the smallest its bus can work with, and records it;
/// a narrower mask is refused as an I/O failure and nothing changes.
pub fn dma_set_mask<T: RawDevice>(dev: &T, host: &mut Host, mask: u64) -> (r: Result<
    (),
    Error,
>)
    requires
        dev_valid(*old(host), dev.device_id()),
    ensures
        ({
            let obj = old(host).devices@[dev.device_id()];
            &&& (r is Ok <==> mask >= obj.dma_min_mask)
            &&& r is Ok ==> final(host).devices@ == old(host).devices@.update(
                dev.device_id(),
                DeviceObject { dma_mask: mask, ..obj },
            )
            &&& r is Err ==> r == Err::<(), Error>(Error::IOFailure)
                && final(host).devices@ == old(host).devices@
        }),
        final(host).drivers@ == old(host).drivers@,
{
    let raw = dev.raw_device();
    if mask < host.devices[raw].dma_min_mask {
        return Err(Error::from_errno(-EIO));
    }
    let obj = &mut host.devices[raw];
    obj.dma_mask = mask;
    proof {
        assert(host.devices@ =~= old(host).devices@.update(
            dev.device_id(),
            DeviceObject { dma_mask: mask, ..old(host).devices@[dev.device_id()] },
        ));
    }
    Ok(())
}

/// Sets the device's coherent addressing mask, under the same rule as
/// [`dma_set_mask`].
pub fn dma_set_coherent_mask<T: RawDevice>(dev: &T, host: &mut Host, mask: u64) -> (r:
    Result<(), Error>)
    requires
        dev_valid(*old(host), dev.device_id()),
    ensures
        ({
            let obj = old(host).devices@[dev.device_id()];
            &&& (r is Ok <==> mask >= obj.dma_min_mask)
            &&& r is Ok ==> final(host).devices@ == old(host).devices@.update(
                dev.device_id(),
                DeviceObject { coherent_mask: mask, ..obj },
            )
            &&& r is Err ==> r == Err::<(), Error>(Error::IOFailure)
                && final(host).devices@ == old(host).devices@
        }),
        final(host).drivers@ == old(host).drivers@,
{
    let raw = dev.raw_device();
    if mask < host.devices[raw].dma_min_mask {
        return Err(Error::from_errno(-EIO));
    }
    let obj = &mut host.devices[raw];
    obj.coherent_mask = mask;
    proof {
        assert(host.devices@ =~= old(host).devices@.update(
            dev.device_id(),
            DeviceObject { coherent_mask: mask, ..old(host).devices@[dev.device_id()] },
        ));
    }
    Ok(())
}

/// Asks the host to map a scatter-gather list of `nents` segments for the
/// device.
///
/// A count that does not fit the host's signed segment counter is an
/// invalid argument.  A list the host cannot map in full is refused as an
/// I/O failure with nothing mapped: a partial mapping is never kept.  The
/// list must not be empty.
#[allow(unused_variables)]
pub fn dma_map_sg<T: RawDevice>(dev: &T, host: &Host, nents: usize, dir: u32) -> (r:
    Result<(), Error>)
    requires
        dev_valid(*host, dev.device_id()),
        nents >= 1,
    ensures
        ({
            let obj = host.devices@[dev.device_id()];
            &&& (r is Ok <==> nents as int <= i32::MAX as int && nents <= obj.sg_map_limit)
            &&& nents as int > i32::MAX as int ==> r == Err::<(), Error>(
                Error::InvalidArgument)
            &&& nents as int <= i32::MAX as int && nents > obj.sg_map_limit ==> r
                == Err::<(), Error>(Error::IOFailure)
        }),
{
    if nents > (i32::MAX as usize) {
        return Err(Error::InvalidArgument);
    }
    if nents > host.devices[dev.raw_device()].sg_map_limit {
        return Err(Error::from_errno(-EIO));
    }
    Ok(())
}

} // verus!
