use pcidrv::device::Device;
use pcidrv::host::{DeviceObject, Host};

fn obj(refcount: u64) -> DeviceObject {
    DeviceObject {
        refcount,
        name: b"card0".to_vec(),
        resources: vec![],
        irq: 0,
        vector_irqs: vec![],
        vector_capacity: 0,
        vectors_allocated: 0,
        enable_status: 0,
        mem_enabled: false,
        bus_master: false,
        regions_reserved: 0,
        dma_min_mask: 0,
        dma_mask: 0,
        coherent_mask: 0,
        sg_map_limit: 0,
    }
}

#[test]
fn clone_drop_round_trip() {
    let mut host = Host::new();
    let raw = host.add_device(obj(1));
    let d = Device::new(&mut host, raw);
    assert_eq!(host.devices[raw].refcount, 2);

    let before = host.devices[raw].refcount;
    let mut handles = Vec::new();
    for _ in 0..5 {
        handles.push(d.clone_ref(&mut host));
    }
    assert_eq!(host.devices[raw].refcount, before + 5);
    for h in handles {
        h.release(&mut host);
    }
    assert_eq!(host.devices[raw].refcount, before);

    d.release(&mut host);
    assert_eq!(host.devices[raw].refcount, 1);
}

#[test]
fn new_increments_adopt_does_not() {
    let mut host = Host::new();
    let raw = host.add_device(obj(3));
    let d = Device::new(&mut host, raw);
    assert_eq!(host.devices[raw].refcount, 4);

    let adopted = Device::from_dev_no_reference(&d);
    assert_eq!(host.devices[raw].refcount, 4);

    adopted.release(&mut host);
    assert_eq!(host.devices[raw].refcount, 3);
    d.release(&mut host);
    assert_eq!(host.devices[raw].refcount, 2);
}

#[test]
fn from_dev_increments() {
    let mut host = Host::new();
    let raw = host.add_device(obj(1));
    let d = Device::new(&mut host, raw);
    let d2 = Device::from_dev(&mut host, &d);
    assert_eq!(host.devices[raw].refcount, 3);
    d2.release(&mut host);
    d.release(&mut host);
    assert_eq!(host.devices[raw].refcount, 1);
}

#[test]
fn name_is_stable() {
    let mut host = Host::new();
    let raw = host.add_device(obj(1));
    let d = Device::new(&mut host, raw);
    assert_eq!(d.name(&host).as_slice(), b"card0");
    let c = d.clone_ref(&mut host);
    assert_eq!(c.name(&host).as_slice(), b"card0");
    c.release(&mut host);
    assert_eq!(d.name(&host).as_slice(), b"card0");
    d.release(&mut host);
}
