use pcidrv::error::Error;
use pcidrv::host::{DeviceObject, Host};
use pcidrv::pci::Device;

fn obj(vector_capacity: u32) -> DeviceObject {
    DeviceObject {
        refcount: 1,
        name: b"card0".to_vec(),
        resources: vec![],
        irq: 0,
        vector_irqs: vec![],
        vector_capacity,
        vectors_allocated: 0,
        enable_status: 0,
        mem_enabled: false,
        bus_master: false,
        regions_reserved: 0,
        dma_min_mask: 0,
        dma_mask: 0,
        coherent_mask: 0,
        sg_map_limit: 0,
    }
}

#[test]
fn alloc_min_above_max_is_invalid() {
    let mut host = Host::new();
    let raw = host.add_device(obj(16));
    let mut dev = Device::from_ptr(raw);
    assert_eq!(
        dev.alloc_irq_vectors(&mut host, 4, 2, 0),
        Err(Error::InvalidArgument)
    );
    assert_eq!(host.devices[raw].vectors_allocated, 0);
}

#[test]
fn alloc_bounded_by_host_capacity() {
    let mut host = Host::new();
    let raw = host.add_device(obj(4));
    let mut dev = Device::from_ptr(raw);
    // A host that can supply at most 4 answers a request for 1..=8 with 4.
    let got = dev.alloc_irq_vectors(&mut host, 1, 8, 0).unwrap();
    assert!(got <= 4);
    assert_eq!(got, 4);
    assert_eq!(host.devices[raw].vectors_allocated, 4);
}

#[test]
fn alloc_exhausted_below_minimum() {
    let mut host = Host::new();
    let raw = host.add_device(obj(2));
    let mut dev = Device::from_ptr(raw);
    assert_eq!(
        dev.alloc_irq_vectors(&mut host, 3, 8, 0),
        Err(Error::ResourceExhausted)
    );
    assert_eq!(host.devices[raw].vectors_allocated, 0);
}

#[test]
fn affinity_partition_within_allocated_count() {
    let mut host = Host::new();
    let raw = host.add_device(obj(4));
    let mut dev = Device::from_ptr(raw);
    let got = dev
        .alloc_irq_vectors_affinity(&mut host, 1, 8, 1, 2, 0)
        .unwrap();
    // For any successful allocation, pre + post never exceeds the count.
    assert!(1 + 2 <= got);
    assert_eq!(got, 4);
}

#[test]
fn affinity_partition_too_large_is_rejected() {
    let mut host = Host::new();
    let raw = host.add_device(obj(4));
    let mut dev = Device::from_ptr(raw);
    assert_eq!(
        dev.alloc_irq_vectors_affinity(&mut host, 1, 8, 3, 2, 0),
        Err(Error::InvalidArgument)
    );
    assert_eq!(host.devices[raw].vectors_allocated, 0);
}

#[test]
fn affinity_min_above_max_is_invalid() {
    let mut host = Host::new();
    let raw = host.add_device(obj(16));
    let mut dev = Device::from_ptr(raw);
    assert_eq!(
        dev.alloc_irq_vectors_affinity(&mut host, 4, 2, 0, 0, 0),
        Err(Error::InvalidArgument)
    );
}

#[test]
fn free_releases_all_vectors() {
    let mut host = Host::new();
    let raw = host.add_device(obj(4));
    let mut dev = Device::from_ptr(raw);
    dev.alloc_irq_vectors(&mut host, 1, 4, 0).unwrap();
    assert_eq!(host.devices[raw].vectors_allocated, 4);
    dev.free_irq_vectors(&mut host);
    assert_eq!(host.devices[raw].vectors_allocated, 0);
}

#[test]
fn irq_zero_means_none() {
    let mut host = Host::new();
    let raw = host.add_device(obj(0));
    let dev = Device::from_ptr(raw);
    assert_eq!(dev.irq(&host), None);
    host.devices[raw].irq = 9;
    assert_eq!(dev.irq(&host), Some(9));
}

#[test]
fn irq_for_vector_lookup() {
    let mut host = Host::new();
    let mut o = obj(3);
    o.vector_irqs = vec![33, 34, 0];
    let raw = host.add_device(o);
    let mut dev = Device::from_ptr(raw);
    // Nothing allocated yet: no assignment for any vector.
    assert_eq!(dev.irq_for_vector(&host, 0), None);
    dev.alloc_irq_vectors(&mut host, 1, 2, 0).unwrap();
    assert_eq!(dev.irq_for_vector(&host, 0), Some(33));
    assert_eq!(dev.irq_for_vector(&host, 1), Some(34));
    // Vector 2 is beyond the allocated count.
    assert_eq!(dev.irq_for_vector(&host, 2), None);
    dev.alloc_irq_vectors(&mut host, 3, 3, 0).unwrap();
    // A zero assignment is no assignment.
    assert_eq!(dev.irq_for_vector(&host, 2), None);
}
