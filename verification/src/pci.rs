//! PCI identifier records and tables, and PCI devices with their resource
//! and interrupt-vector state.

use vstd::prelude::*;

use crate::device::RawDevice;
use crate::error::{kind_of_status, Error};
use crate::host::{dev_valid, DeviceObject, Host, Region};

verus! {

/// The wildcard sentinel: an identifier field with this value matches any
/// candidate value.
pub const PCI_ANY_ID: u32 = 0xffff_ffff;

/// A hardware-identifier record: a pattern deciding which discovered
/// hardware the driver binds to.
///
/// Each of the four identifier fields is either a concrete value or the
/// wildcard [`PCI_ANY_ID`]; the class is compared under `class_mask`, so a
/// zero mask matches every class.
#[derive(Clone, Copy, Debug, PartialEq, Eq, Structural)]
pub struct DeviceId {
    /// Vendor ID.
    pub vendor: u32,
    /// Device ID.
    pub device: u32,
    /// Subsystem vendor ID.
    pub subvendor: u32,
    /// Subsystem device ID.
    pub subdevice: u32,
    /// Device class and subclass.
    pub class: u32,
    /// Which bits of the class take part in matching.
    pub class_mask: u32,
}

/// An identifier record in the raw form the host's matching engine reads,
/// with the table offset under which the record's metadata is recovered.
#[derive(Clone, Copy, Debug, PartialEq, Eq, Structural)]
pub struct RawId {
    /// Vendor ID.
    pub vendor: u32,
    /// Device ID.
    pub device: u32,
    /// Subsystem vendor ID.
    pub subvendor: u32,
    /// Subsystem device ID.
    pub subdevice: u32,
    /// Device class and subclass.
    pub class: u32,
    /// Which bits of the class take part in matching.
    pub class_mask: u32,
    /// The record's position in its table, stored so that the metadata for
    /// a match is recovered in constant time.
    pub driver_data: usize,
    /// Whether the record only matches when the driver is explicitly
    /// chosen for the device.
    pub override_only: u32,
}

/// The identity a discovered piece of hardware presents for matching.
#[derive(Clone, Copy, Debug, PartialEq, Eq, Structural)]
pub struct Candidate {
    /// Vendor ID.
    pub vendor: u32,
    /// Device ID.
    pub device: u32,
    /// Subsystem vendor ID.
    pub subvendor: u32,
    /// Subsystem device ID.
    pub subdevice: u32,
    /// Device class and subclass.
    pub class: u32,
}

/// The all-zero sentinel record that terminates every raw table.
pub open spec fn zero_raw_id() -> RawId {
    RawId {
        vendor: 0,
        device: 0,
        subvendor: 0,
        subdevice: 0,
        class: 0,
        class_mask: 0,
        driver_data: 0,
        override_only: 0,
    }
}

/// The raw record a [`DeviceId`] turns into at position `offset` of its
/// table.
pub open spec fn raw_id_of(id: DeviceId, offset: int) -> RawId {
    RawId {
        vendor: id.vendor,
        device: id.device,
        subvendor: id.subvendor,
        subdevice: id.subdevice,
        class: id.class,
        class_mask: id.class_mask,
        driver_data: offset as usize,
        override_only: 0,
    }
}

/// Whether one identifier field accepts a candidate value: the record's
/// field is the wildcard sentinel, or the two are equal.
pub open spec fn field_matches(rec_field: u32, cand_field: u32) -> bool {
    rec_field == PCI_ANY_ID || rec_field == cand_field
}

/// Whether a record matches a candidate: every identifier field is the
/// wildcard or equal, and the candidate's class agrees with the record's
/// class on the bits the record's class mask selects.
pub open spec fn id_matches(rec: RawId, cand: Candidate) -> bool {
    &&& field_matches(rec.vendor, cand.vendor)
    &&& field_matches(rec.device, cand.device)
    &&& field_matches(rec.subvendor, cand.subvendor)
    &&& field_matches(rec.subdevice, cand.subdevice)
    &&& (cand.class & rec.class_mask) == (rec.class & rec.class_mask)
}

impl DeviceId {
    /// A record matching one vendor/device pair, with wildcard subsystem
    /// identifiers and no class constraint.
    pub fn new(vendor: u32, device: u32) -> (r: DeviceId)
        ensures
            r == (DeviceId {
                vendor,
                device,
                subvendor: PCI_ANY_ID,
                subdevice: PCI_ANY_ID,
                class: 0,
                class_mask: 0,
            }),
    {
        DeviceId {
            vendor,
            device,
            subvendor: PCI_ANY_ID,
            subdevice: PCI_ANY_ID,
            class: 0,
            class_mask: 0,
        }
    }

    /// A record matching by class alone: every identifier field is the
    /// wildcard, and the class is compared under `class_mask`.
    pub fn with_class(class: u32, class_mask: u32) -> (r: DeviceId)
        ensures
            r == (DeviceId {
                vendor: PCI_ANY_ID,
                device: PCI_ANY_ID,
                subvendor: PCI_ANY_ID,
                subdevice: PCI_ANY_ID,
                class,
                class_mask,
            }),
    {
        DeviceId {
            vendor: PCI_ANY_ID,
            device: PCI_ANY_ID,
            subvendor: PCI_ANY_ID,
            subdevice: PCI_ANY_ID,
            class,
            class_mask,
        }
    }

    /// The raw form of the record for position `offset` of its table.
    pub fn to_rawid(&self, offset: isize) -> (r: RawId)
        requires
            0 <= offset,
        ensures
            r == raw_id_of(*self, offset as int),
    {
        RawId {
            vendor: self.vendor,
            device: self.device,
            subvendor: self.subvendor,
            subdevice: self.subdevice,
            class: self.class,
            class_mask: self.class_mask,
            driver_data: offset as usize,
            override_only: 0,
        }
    }
}

/// Whether a raw record matches a candidate identity.
pub fn record_matches(rec: &RawId, cand: &Candidate) -> (r: bool)
    ensures
        r == id_matches(*rec, *cand),
{
    (rec.vendor == PCI_ANY_ID || rec.vendor == cand.vendor)
        && (rec.device == PCI_ANY_ID || rec.device == cand.device)
        && (rec.subvendor == PCI_ANY_ID || rec.subvendor == cand.subvendor)
        && (rec.subdevice == PCI_ANY_ID || rec.subdevice == cand.subdevice)
        && (cand.class & rec.class_mask) == (rec.class & rec.class_mask)
}

/// A record whose vendor is concrete and whose device field is the
/// wildcard (as [`DeviceId::new`] builds with a wildcard device) matches
/// every candidate with that vendor, whatever the candidate's device
/// field.
pub proof fn lemma_wildcard_device_matches(rec: RawId, cand: Candidate)
    requires
        rec.vendor == cand.vendor,
        rec.device == PCI_ANY_ID,
        rec.subvendor == PCI_ANY_ID,
        rec.subdevice == PCI_ANY_ID,
        rec.class_mask == 0,
    ensures
        id_matches(rec, cand),
{
    assert(cand.class & 0 == 0) by (bit_vector);
    assert(rec.class & 0 == 0) by (bit_vector);
}

/// A record with class `C` under mask `M` and all identifier fields
/// wildcarded (as [`DeviceId::with_class`] builds) matches a candidate if
/// and only if the candidate's class agrees with `C` on the bits of `M`.
pub proof fn lemma_class_mask_matches(rec: RawId, cand: Candidate)
    requires
        rec.vendor == PCI_ANY_ID,
        rec.device == PCI_ANY_ID,
        rec.subvendor == PCI_ANY_ID,
        rec.subdevice == PCI_ANY_ID,
    ensures
        id_matches(rec, cand) <==> (cand.class & rec.class_mask) == (rec.class
            & rec.class_mask),
{
}

/// An identification table: an ordered sequence of raw identifier records
/// terminated by the all-zero sentinel the host's matching loop stops at,
/// with the records' optional metadata indexed by position.
pub struct IdTable<Info> {
    /// The raw records, sentinel included, as the host reads them.
    pub raw: Vec<RawId>,
    /// The metadata of each non-sentinel record, by position.
    pub infos: Vec<Option<Info>>,
}

impl<Info> IdTable<Info> {
    /// The construction invariant: one raw record per metadata slot plus
    /// the trailing all-zero sentinel, and every record carries its own
    /// position for constant-time metadata recovery.
    pub open spec fn wf(self) -> bool {
        &&& self.raw@.len() == self.infos@.len() + 1
        &&& self.raw@.last() == zero_raw_id()
        &&& forall|i: int|
            0 <= i < self.infos@.len() ==> (#[trigger] self.raw@[i]).driver_data == i
    }

    /// Builds the static table from records and their optional metadata,
    /// in declaration order, appending the required zero sentinel.
    #[verifier::loop_isolation(false)]
    pub fn build(entries: Vec<(DeviceId, Option<Info>)>) -> (t: IdTable<Info>)
        requires
            entries@.len() <= isize::MAX as int,
        ensures
            t.wf(),
            t.infos@.len() == entries@.len(),
            forall|i: int| 0 <= i < entries@.len()
                ==> #[trigger] t.infos@[i] == entries@[i].1,
            forall|i: int| 0 <= i < entries@.len()
                ==> #[trigger] t.raw@[i] == raw_id_of(entries@[i].0, i),
    {
        let ghost orig = entries@;
        let mut entries = entries;
        let mut raw: Vec<RawId> = Vec::new();
        let mut infos: Vec<Option<Info>> = Vec::new();
        let mut i: usize = 0;
        while entries.len() > 0
            invariant
                i + entries@.len() == orig.len(),
                entries@ == orig.subrange(i as int, orig.len() as int),
                raw@.len() == i,
                infos@.len() == i,
                forall|j: int| 0 <= j < i ==> infos@[j] == (#[trigger] orig[j]).1,
                forall|j: int| 0 <= j < i ==> raw@[j] == raw_id_of((#[trigger] orig[j]).0, j),
            decreases entries@.len(),
        {
            let (id, info) = entries.remove(0);
            assert(id == orig[i as int].0 && info == orig[i as int].1);
            raw.push(id.to_rawid(i as isize));
            infos.push(info);
            proof {
                assert(entries@ =~= orig.subrange(i + 1, orig.len() as int));
            }
            i += 1;
        }
        let sentinel = RawId {
            vendor: 0,
            device: 0,
            subvendor: 0,
            subdevice: 0,
            class: 0,
            class_mask: 0,
            driver_data: 0,
            override_only: 0,
        };
        raw.push(sentinel);
        let t = IdTable { raw, infos };
        proof {
            assert(t.raw@.last() == zero_raw_id());
            assert forall|j: int| 0 <= j < t.infos@.len() implies (#[trigger] t.raw@[j]).driver_data
                == j by {
                assert(t.raw@[j] == raw_id_of(orig[j].0, j));
            }
        }
        t
    }

    /// The metadata associated with the record at `index`, if any; an
    /// empty slot yields no metadata rather than an error.  Recovery is a
    /// single indexed lookup, never a scan of the table.
    pub fn metadata_for(&self, index: usize) -> (r: Option<&Info>)
        requires
            index < self.infos@.len(),
        ensures
            match r {
                Some(info) => self.infos@[index as int] == Some(*info),
                None => self.infos@[index as int] is None,
            },
    {
        match &self.infos[index] {
            Some(info) => Some(info),
            None => None,
        }
    }

    /// The position of the first record matching `cand`, if any: the
    /// host's matching loop walks the table in declaration order and the
    /// first match wins.
    #[verifier::loop_isolation(false)]
    pub fn find_match(&self, cand: &Candidate) -> (r: Option<usize>)
        requires
            self.wf(),
        ensures
            match r {
                Some(i) => i < self.infos@.len() && id_matches(self.raw@[i as int], *cand)
                    && forall|j: int| 0 <= j < i ==> !id_matches(self.raw@[j], *cand),
                None => forall|j: int|
                    0 <= j < self.infos@.len() ==> !id_matches(self.raw@[j], *cand),
            },
    {
        let n: usize = self.infos.len();
        let mut i: usize = 0;
        while i < n
            invariant
                0 <= i <= n,
                n == self.infos@.len(),
                forall|j: int| 0 <= j < i ==> !id_matches(self.raw@[j], *cand),
            decreases n - i,
        {
            if record_matches(&self.raw[i], cand) {
                return Some(i);
            }
            i += 1;
        }
        None
    }
}

/// Whether bit `index` of a 64-bit resource-claim mask is set.
pub open spec fn res_bit(mask: u64, index: int) -> bool {
    0 <= index < 64 && mask & (1u64 << (index as u64)) != 0
}

/// The claim mask after region `index` has been claimed.
pub open spec fn res_claim(mask: u64, index: int) -> u64 {
    mask | (1u64 << (index as u64))
}

proof fn lemma_bit64_or_set(m: u64, i: u64)
    by (bit_vector)
    requires
        i < 64,
    ensures
        (m | (1u64 << i)) & (1u64 << i) != 0,
{
}

proof fn lemma_bit64_or_other(m: u64, i: u64, j: u64)
    by (bit_vector)
    requires
        i < 64,
        j < 64,
        i != j,
    ensures
        ((m | (1u64 << i)) & (1u64 << j)) == (m & (1u64 << j)),
{
}

/// Resource claims are one-shot and permanent: claiming region `index`
/// sets its bit, so a further claim of the same region finds it already
/// claimed; and no bit once set is ever cleared by a claim.
pub proof fn lemma_resource_claim_one_shot(mask: u64, index: int)
    requires
        0 <= index < 64,
    ensures
        res_bit(res_claim(mask, index), index),
        forall|j: int| res_bit(mask, j) ==> res_bit(res_claim(mask, index), j),
{
    lemma_bit64_or_set(mask, index as u64);
    assert forall|j: int| res_bit(mask, j) implies res_bit(res_claim(mask, index), j) by {
        if j == index {
            lemma_bit64_or_set(mask, index as u64);
        } else {
            lemma_bit64_or_other(mask, index as u64, j as u64);
        }
    }
}

/// Whether bit `index` of a 31-bit region-selection mask is set.
pub open spec fn bar_bit(mask: i32, index: int) -> bool {
    0 <= index < 31 && mask & (1i32 << (index as u32)) != 0
}

proof fn lemma_bit32_zero(j: u32)
    by (bit_vector)
    requires
        j < 31,
    ensures
        0i32 & (1i32 << j) == 0,
{
}

proof fn lemma_bit32_or_set(m: i32, i: u32)
    by (bit_vector)
    requires
        i < 31,
    ensures
        (m | (1i32 << i)) & (1i32 << i) != 0,
{
}

proof fn lemma_bit32_or_other(m: i32, i: u32, j: u32)
    by (bit_vector)
    requires
        i < 31,
        j < 31,
        i != j,
    ensures
        ((m | (1i32 << i)) & (1i32 << j)) == (m & (1i32 << j)),
{
}

/// A PCI device: a raw reference to one of the host's device objects,
/// together with the claim mask over its hardware resource regions.
///
/// Once a claim bit is set it is never cleared for the life of the value:
/// resource regions are claimed at most once.
pub struct Device {
    /// The raw reference to the host's device object.
    pub raw: usize,
    /// One bit per resource-region index, set when the region has been
    /// claimed.
    pub res_taken: u64,
}

impl Device {
    /// Wraps a raw device reference handed over by the host, with no
    /// region claimed yet.  The reference count is not touched: the host
    /// keeps the device alive for the span of the callback.
    pub fn from_ptr(raw: usize) -> (d: Device)
        ensures
            d.raw == raw,
            d.res_taken == 0,
    {
        Device { raw, res_taken: 0 }
    }

    /// The raw device reference this value wraps.
    pub fn as_ptr(&self) -> (raw: usize)
        ensures
            raw == self.raw,
    {
        self.raw
    }

    /// Asks the host to enable memory decoding for the device.  The host
    /// grants it (status zero) or denies it with a negative status, which
    /// is surfaced as the corresponding error kind.
    pub fn enable_device_mem(&self, host: &mut Host) -> (r: Result<(), Error>)
        requires
            dev_valid(*old(host), self.raw as int),
        ensures
            ({
                let obj = old(host).devices@[self.raw as int];
                &&& (r is Ok <==> obj.enable_status == 0)
                &&& r is Ok ==> final(host).devices@ == old(host).devices@.update(
                    self.raw as int,
                    DeviceObject { mem_enabled: true, ..obj },
                )
                &&& r is Err ==> r == Err::<(), Error>(kind_of_status(obj.enable_status))
                    && final(host).devices@ == old(host).devices@
            }),
            final(host).drivers@ == old(host).drivers@,
    {
        let st = host.devices[self.raw].enable_status;
        if st != 0 {
            return Err(Error::from_errno(st));
        }
        let obj = &mut host.devices[self.raw];
        obj.mem_enabled = true;
        proof {
            assert(host.devices@ =~= old(host).devices@.update(
                self.raw as int,
                DeviceObject { mem_enabled: true, ..old(host).devices@[self.raw as int] },
            ));
        }
        Ok(())
    }

    /// Makes the device bus master.  The host treats this as
    /// unconditionally successful.
    pub fn set_master(&self, host: &mut Host)
        requires
            dev_valid(*old(host), self.raw as int),
        ensures
            final(host).devices@ == old(host).devices@.update(
                self.raw as int,
                DeviceObject { bus_master: true, ..old(host).devices@[self.raw as int] },
            ),
            final(host).drivers@ == old(host).drivers@,
    {
        let obj = &mut host.devices[self.raw];
        obj.bus_master = true;
        proof {
            assert(host.devices@ =~= old(host).devices@.update(
                self.raw as int,
                DeviceObject { bus_master: true, ..old(host).devices@[self.raw as int] },
            ));
        }
    }

    /// The mask of resource-region indices whose host flags intersect
    /// `flags`: bit `j` of the result is set exactly when region `j`
    /// exists and shares a flag bit with `flags`.
    #[verifier::loop_isolation(false)]
    pub fn select_bars(&self, host: &Host, flags: u64) -> (r: i32)
        requires
            dev_valid(*host, self.raw as int),
            host.devices@[self.raw as int].resources@.len() <= 31,
        ensures
            forall|j: int| 0 <= j < 31 ==> (bar_bit(r, j) <==> j < host.devices@[self.raw
                as int].resources@.len() && (#[trigger] (host.devices@[self.raw
                as int].resources@[j].flags & flags)) != 0),
    {
        let regions = &host.devices[self.raw].resources;
        let n: usize = regions.len();
        let mut mask: i32 = 0;
        proof {
            assert forall|j: int| 0 <= j < 31 implies !bar_bit(mask, j) by {
                lemma_bit32_zero(j as u32);
            }
        }
        let mut i: usize = 0;
        while i < n
            invariant
                0 <= i <= n,
                forall|j: int| 0 <= j < i ==> (bar_bit(mask, j) <==> (#[trigger] (
                regions@[j].flags & flags)) != 0),
                forall|j: int| i <= j < 31 ==> !bar_bit(mask, j),
            decreases n - i,
        {
            if regions[i].flags & flags != 0 {
                let ghost prev = mask;
                mask = mask | (1i32 << (i as u32));
                proof {
                    lemma_bit32_or_set(prev, i as u32);
                    assert forall|j: int| 0 <= j < 31 && j != i implies (#[trigger] bar_bit(
                        mask, j)) == bar_bit(prev, j) by {
                        lemma_bit32_or_other(prev, i as u32, j as u32);
                    }
                }
            }
            i += 1;
        }
        mask
    }

    /// Asks the host to reserve the address space of the regions selected
    /// by `bars` in the device's name.  The host denies the reservation as
    /// busy if any selected region is already reserved; otherwise it
    /// records the new reservations.
    #[allow(unused_variables)]
    pub fn request_selected_regions(&self, host: &mut Host, bars: i32, name: &Vec<u8>) -> (r:
        Result<(), Error>)
        requires
            dev_valid(*old(host), self.raw as int),
        ensures
            ({
                let obj = old(host).devices@[self.raw as int];
                &&& (r is Ok <==> bars & obj.regions_reserved == 0)
                &&& r is Ok ==> final(host).devices@ == old(host).devices@.update(
                    self.raw as int,
                    DeviceObject { regions_reserved: obj.regions_reserved | bars, ..obj },
                )
                &&& r is Err ==> r == Err::<(), Error>(Error::DeviceBusy)
                    && final(host).devices@ == old(host).devices@
            }),
            final(host).drivers@ == old(host).drivers@,
    {
        if bars & host.devices[self.raw].regions_reserved != 0 {
            return Err(Error::DeviceBusy);
        }
        let obj = &mut host.devices[self.raw];
        obj.regions_reserved = obj.regions_reserved | bars;
        proof {
            assert(host.devices@ =~= old(host).devices@.update(
                self.raw as int,
                DeviceObject {
                    regions_reserved: old(host).devices@[self.raw as int].regions_reserved
                        | bars,
                    ..old(host).devices@[self.raw as int]
                },
            ));
        }
        Ok(())
    }

    /// Claims hardware resource region `index`: a one-shot ownership
    /// transfer of the region to the caller.
    ///
    /// Fails softly (no region) if `index` is out of range for the
    /// device's region count or if the region was already claimed;
    /// otherwise marks the region claimed and returns its extent.
    pub fn take_resource(&mut self, host: &Host, index: usize) -> (r: Option<Region>)
        requires
            dev_valid(*host, old(self).raw as int),
            host.devices@[old(self).raw as int].resources@.len() <= 64,
        ensures
            final(self).raw == old(self).raw,
            (r is Some <==> index < host.devices@[old(self).raw as int].resources@.len()
                && !res_bit(old(self).res_taken, index as int)),
            r is Some ==> r == Some(host.devices@[old(self).raw as int].resources@[index
                as int]) && final(self).res_taken == res_claim(old(self).res_taken, index
                as int),
            r is None ==> final(self).res_taken == old(self).res_taken,
            forall|j: int| res_bit(old(self).res_taken, j) ==> res_bit(
                final(self).res_taken, j),
    {
        let regions = &host.devices[self.raw].resources;
        if index >= regions.len() {
            return None;
        }
        let bit: u64 = 1u64 << (index as u64);
        if self.res_taken & bit != 0 {
            return None;
        }
        self.res_taken = self.res_taken | bit;
        proof {
            lemma_resource_claim_one_shot(old(self).res_taken, index as int);
        }
        Some(regions[index])
    }

    /// The platform interrupt line reported for the device, or nothing if
    /// the device reports the zero (invalid) value.
    pub fn irq(&self, host: &Host) -> (r: Option<u32>)
        requires
            dev_valid(*host, self.raw as int),
        ensures
            (r is Some <==> host.devices@[self.raw as int].irq != 0),
            r matches Some(v) ==> v == host.devices@[self.raw as int].irq,
    {
        let irq = host.devices[self.raw].irq;
        if irq == 0 {
            None
        } else {
            Some(irq)
        }
    }

    /// The platform interrupt number assigned to interrupt vector `index`,
    /// or nothing if the vector is not allocated or the device reports a
    /// zero (invalid) assignment.
    pub fn irq_for_vector(&self, host: &Host, index: u32) -> (r: Option<u32>)
        requires
            dev_valid(*host, self.raw as int),
        ensures
            ({
                let obj = host.devices@[self.raw as int];
                &&& (r is Some <==> index < obj.vectors_allocated && (index as int)
                    < obj.vector_irqs@.len() && obj.vector_irqs@[index as int] != 0)
                &&& (r matches Some(v) ==> v == obj.vector_irqs@[index as int])
            }),
    {
        let obj = &host.devices[self.raw];
        if index >= obj.vectors_allocated {
            return None;
        }
        if (index as usize) >= obj.vector_irqs.len() {
            return None;
        }
        let irq = obj.vector_irqs[index as usize];
        if irq == 0 {
            None
        } else {
            Some(irq)
        }
    }

    /// Asks the host to allocate between `min_vecs` and `max_vecs`
    /// interrupt vectors for the device.
    ///
    /// A request with `min_vecs` above `max_vecs` is invalid input and is
    /// rejected outright.  Otherwise the host allocates as many vectors as
    /// it can up to `max_vecs`; if it cannot satisfy at least `min_vecs`
    /// the allocation is exhausted and nothing changes.  On success the
    /// count actually allocated is returned, between `min_vecs` and
    /// `max_vecs`.
    #[allow(unused_variables)]
    pub fn alloc_irq_vectors(&mut self, host: &mut Host, min_vecs: u32, max_vecs: u32,
        flags: u32) -> (r: Result<u32, Error>)
        requires
            dev_valid(*old(host), old(self).raw as int),
        ensures
            *final(self) == *old(self),
            final(host).drivers@ == old(host).drivers@,
            ({
                let obj = old(host).devices@[old(self).raw as int];
                let granted = if max_vecs <= obj.vector_capacity {
                    max_vecs
                } else {
                    obj.vector_capacity
                };
                &&& min_vecs > max_vecs ==> r == Err::<u32, Error>(Error::InvalidArgument)
                    && final(host).devices@ == old(host).devices@
                &&& min_vecs <= max_vecs && obj.vector_capacity < min_vecs ==> r
                    == Err::<u32, Error>(Error::ResourceExhausted) && final(host).devices@
                    == old(host).devices@
                &&& min_vecs <= max_vecs && obj.vector_capacity >= min_vecs ==> r
                    == Ok::<u32, Error>(granted) && final(host).devices@
                    == old(host).devices@.update(
                    old(self).raw as int,
                    DeviceObject { vectors_allocated: granted, ..obj },
                )
            }),
            r matches Ok(n) ==> min_vecs <= n <= max_vecs,
    {
        if min_vecs > max_vecs {
            return Err(Error::InvalidArgument);
        }
        let cap = host.devices[self.raw].vector_capacity;
        if cap < min_vecs {
            return Err(Error::ResourceExhausted);
        }
        let granted = if max_vecs <= cap {
            max_vecs
        } else {
            cap
        };
        let obj = &mut host.devices[self.raw];
        obj.vectors_allocated = granted;
        proof {
            assert(host.devices@ =~= old(host).devices@.update(
                self.raw as int,
                DeviceObject {
                    vectors_allocated: granted,
                    ..old(host).devices@[self.raw as int]
                },
            ));
        }
        Ok(granted)
    }

    /// Like [`Device::alloc_irq_vectors`], but partitions the allocated
    /// range for the host's affinity balancing: `pre` vectors precede the
    /// affinity-managed set and `post` vectors follow it.
    ///
    /// A partition that would exceed the count the host can allocate is a
    /// host-level error and nothing changes.  For any successful
    /// allocation, `pre + post` does not exceed the returned count.
    #[allow(unused_variables)]
    pub fn alloc_irq_vectors_affinity(&mut self, host: &mut Host, min_vecs: u32,
        max_vecs: u32, pre: u32, post: u32, flags: u32) -> (r: Result<u32, Error>)
        requires
            dev_valid(*old(host), old(self).raw as int),
        ensures
            *final(self) == *old(self),
            final(host).drivers@ == old(host).drivers@,
            ({
                let obj = old(host).devices@[old(self).raw as int];
                let granted = if max_vecs <= obj.vector_capacity {
                    max_vecs
                } else {
                    obj.vector_capacity
                };
                &&& min_vecs > max_vecs ==> r == Err::<u32, Error>(Error::InvalidArgument)
                    && final(host).devices@ == old(host).devices@
                &&& min_vecs <= max_vecs && obj.vector_capacity < min_vecs ==> r
                    == Err::<u32, Error>(Error::ResourceExhausted) && final(host).devices@
                    == old(host).devices@
                &&& min_vecs <= max_vecs && obj.vector_capacity >= min_vecs && pre + post
                    > granted ==> r == Err::<u32, Error>(Error::InvalidArgument)
                    && final(host).devices@ == old(host).devices@
                &&& min_vecs <= max_vecs && obj.vector_capacity >= min_vecs && pre + post
                    <= granted ==> r == Ok::<u32, Error>(granted) && final(host).devices@
                    == old(host).devices@.update(
                    old(self).raw as int,
                    DeviceObject { vectors_allocated: granted, ..obj },
                )
            }),
            r matches Ok(n) ==> min_vecs <= n <= max_vecs && pre + post <= n,
    {
        if min_vecs > max_vecs {
            return Err(Error::InvalidArgument);
        }
        let cap = host.devices[self.raw].vector_capacity;
        if cap < min_vecs {
            return Err(Error::ResourceExhausted);
        }
        let granted = if max_vecs <= cap {
            max_vecs
        } else {
            cap
        };
        if (pre as u64) + (post as u64) > (granted as u64) {
            return Err(Error::InvalidArgument);
        }
        let obj = &mut host.devices[self.raw];
        obj.vectors_allocated = granted;
        proof {
            assert(host.devices@ =~= old(host).devices@.update(
                self.raw as int,
                DeviceObject {
                    vectors_allocated: granted,
                    ..old(host).devices@[self.raw as int]
                },
            ));
        }
        Ok(granted)
    }

    /// Releases all interrupt vectors allocated for the device.
    pub fn free_irq_vectors(&mut self, host: &mut Host)
        requires
            dev_valid(*old(host), old(self).raw as int),
        ensures
            *final(self) == *old(self),
            final(host).drivers@ == old(host).drivers@,
            final(host).devices@ == old(host).devices@.update(
                old(self).raw as int,
                DeviceObject {
                    vectors_allocated: 0,
                    ..old(host).devices@[old(self).raw as int]
                },
            ),
    {
        let obj = &mut host.devices[self.raw];
        obj.vectors_allocated = 0;
        proof {
            assert(host.devices@ =~= old(host).devices@.update(
                self.raw as int,
                DeviceObject {
                    vectors_allocated: 0,
                    ..old(host).devices@[self.raw as int]
                },
            ));
        }
    }
}

impl RawDevice for Device {
    open spec fn device_id(&self) -> int {
        self.raw as int
    }

    fn raw_device(&self) -> (raw: usize) {
        self.raw
    }
}

} // verus!
