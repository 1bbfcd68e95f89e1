use std::cell::Cell;
use std::rc::Rc;

use pcidrv::driver::{Adapter, DeviceRemoval, Driver, Registration};
use pcidrv::error::Error;
use pcidrv::host::{DeviceObject, Host};
use pcidrv::pci::{Candidate, Device, DeviceId, IdTable, PCI_ANY_ID};

fn obj() -> DeviceObject {
    DeviceObject {
        refcount: 1,
        name: b"card0".to_vec(),
        resources: vec![],
        irq: 0,
        vector_irqs: vec![],
        vector_capacity: 0,
        vectors_allocated: 0,
        enable_status: 0,
        mem_enabled: false,
        bus_master: false,
        regions_reserved: 0,
        dma_min_mask: 0,
        dma_mask: 0,
        coherent_mask: 0,
        sg_map_limit: 0,
    }
}

fn cand(vendor: u32, device: u32) -> Candidate {
    Candidate { vendor, device, subvendor: 0, subdevice: 0, class: 0 }
}

#[derive(Debug, PartialEq, Eq)]
struct State {
    got: Option<u32>,
}

impl DeviceRemoval for State {
    fn device_remove(&self) {}
}

struct DemoDriver;

impl Driver for DemoDriver {
    type Data = State;
    type IdInfo = u32;

    fn probe(_host: &mut Host, _dev: &mut Device, id: Option<&u32>) -> Result<State, Error> {
        Ok(State { got: id.copied() })
    }

    fn remove(_data: &State) {}
}

struct FailingDriver;

impl Driver for FailingDriver {
    type Data = State;
    type IdInfo = u32;

    fn probe(_host: &mut Host, _dev: &mut Device, _id: Option<&u32>) -> Result<State, Error> {
        Err(Error::IOFailure)
    }

    fn remove(_data: &State) {}
}

struct Finalizer(Rc<Cell<u32>>);

impl DeviceRemoval for Finalizer {
    fn device_remove(&self) {
        self.0.set(self.0.get() + 10);
    }
}

struct CountingDriver;

impl Driver for CountingDriver {
    type Data = Finalizer;
    type IdInfo = Rc<Cell<u32>>;

    fn probe(
        _host: &mut Host,
        _dev: &mut Device,
        id: Option<&Rc<Cell<u32>>>,
    ) -> Result<Finalizer, Error> {
        Ok(Finalizer(id.unwrap().clone()))
    }

    fn remove(data: &Finalizer) {
        data.0.set(data.0.get() + 1);
    }
}

fn demo_table() -> IdTable<u32> {
    IdTable::build(vec![(DeviceId::new(0x10, PCI_ANY_ID), Some(7u32))])
}

#[test]
fn register_unregister_cycle() {
    let mut host = Host::new();
    let mut reg: Registration<DemoDriver> =
        Registration::new(b"demo".to_vec(), demo_table(), 0);
    assert_eq!(Adapter::register(&mut reg, &mut host), Ok(()));
    assert!(reg.registered);
    assert_eq!(host.drivers.len(), 1);

    // A second driver under the same name is refused as busy.
    let mut other: Registration<DemoDriver> =
        Registration::new(b"demo".to_vec(), demo_table(), 0);
    assert_eq!(
        Adapter::register(&mut other, &mut host),
        Err(Error::DeviceBusy)
    );
    assert!(!other.registered);

    Adapter::unregister(&mut reg, &mut host);
    assert!(!reg.registered);
    assert_eq!(host.drivers.len(), 0);

    // After unregistration the name is free again.
    assert_eq!(Adapter::register(&mut other, &mut host), Ok(()));
}

#[test]
fn end_to_end_probe_scenario() {
    let mut host = Host::new();
    let pdev = host.add_device(obj());
    let mut reg: Registration<DemoDriver> =
        Registration::new(b"demo".to_vec(), demo_table(), host.devices.len());
    assert_eq!(Adapter::register(&mut reg, &mut host), Ok(()));

    // A candidate the record matches is dispatched and selects the
    // record's metadata.
    let status = Adapter::dispatch_probe(&mut reg, &mut host, pdev, &cand(0x10, 0x20));
    assert_eq!(status, Some(0));
    assert_eq!(reg.slots[pdev], Some(State { got: Some(7) }));

    let taken = Adapter::remove_callback(&mut reg, pdev);
    assert_eq!(taken, Some(State { got: Some(7) }));

    // A candidate with another vendor never reaches this driver.
    let status = Adapter::dispatch_probe(&mut reg, &mut host, pdev, &cand(0x11, 0x20));
    assert_eq!(status, None);
    assert_eq!(reg.slots[pdev], None);
}

#[test]
fn probe_remove_state_handoff_once() {
    let mut host = Host::new();
    let pdev = host.add_device(obj());
    let counter = Rc::new(Cell::new(0u32));
    let table: IdTable<Rc<Cell<u32>>> = IdTable::build(vec![(
        DeviceId::new(0x10, PCI_ANY_ID),
        Some(counter.clone()),
    )]);
    let mut reg: Registration<CountingDriver> =
        Registration::new(b"counting".to_vec(), table, host.devices.len());

    let status = Adapter::probe_callback(&mut reg, &mut host, pdev, 0);
    assert_eq!(status, 0);
    assert!(reg.slots[pdev].is_some());
    assert_eq!(counter.get(), 0);

    // Exactly one remove receives the stored state; the driver's remove
    // operation and the device-removal hook each run exactly once.
    let taken = Adapter::remove_callback(&mut reg, pdev);
    assert!(taken.is_some());
    assert_eq!(counter.get(), 11);

    // The hand-off is one-shot: the slot is empty now.
    let again = Adapter::remove_callback(&mut reg, pdev);
    assert!(again.is_none());
    assert_eq!(counter.get(), 11);
}

#[test]
fn failed_probe_stores_nothing() {
    let mut host = Host::new();
    let pdev = host.add_device(obj());
    let mut reg: Registration<FailingDriver> =
        Registration::new(b"failing".to_vec(), demo_table(), host.devices.len());
    let status = Adapter::dispatch_probe(&mut reg, &mut host, pdev, &cand(0x10, 0x20));
    assert_eq!(status, Some(Error::IOFailure.to_errno()));
    assert_eq!(status, Some(-5));
    assert_eq!(reg.slots[pdev], None);
}

#[test]
fn probe_callback_recovers_metadata_by_offset() {
    let mut host = Host::new();
    let pdev = host.add_device(obj());
    let table = IdTable::build(vec![
        (DeviceId::new(0x10, 0x20), Some(1u32)),
        (DeviceId::new(0x10, 0x21), Some(2u32)),
    ]);
    let mut reg: Registration<DemoDriver> =
        Registration::new(b"demo2".to_vec(), table, host.devices.len());
    let status = Adapter::probe_callback(&mut reg, &mut host, pdev, 1);
    assert_eq!(status, 0);
    assert_eq!(reg.slots[pdev], Some(State { got: Some(2) }));
}
