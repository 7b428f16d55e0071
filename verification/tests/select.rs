use tensorsludge::error::BootstrapError;
use tensorsludge::select::{select_device, PhysicalDeviceInfo};

const GRAPHICS: u32 = 1;
const COMPUTE: u32 = 2;
const TRANSFER: u32 = 4;
const SPARSE: u32 = 8;

fn device(flags: Vec<u32>) -> PhysicalDeviceInfo {
    PhysicalDeviceInfo::new(flags).expect("few enough families")
}

#[test]
fn new_keeps_the_family_count() {
    assert_eq!(device(vec![]).family_count(), 0);
    assert_eq!(device(vec![GRAPHICS, COMPUTE, TRANSFER]).family_count(), 3);
}

#[test]
fn first_compute_family_is_the_lowest() {
    assert_eq!(device(vec![GRAPHICS, COMPUTE, COMPUTE]).first_compute_family(), Some(1));
    assert_eq!(device(vec![COMPUTE]).first_compute_family(), Some(0));
    assert_eq!(device(vec![GRAPHICS | COMPUTE | TRANSFER]).first_compute_family(), Some(0));
}

#[test]
fn first_compute_family_is_none_without_compute() {
    assert_eq!(device(vec![]).first_compute_family(), None);
    assert_eq!(device(vec![GRAPHICS, TRANSFER, SPARSE]).first_compute_family(), None);
    assert_eq!(device(vec![GRAPHICS | TRANSFER | SPARSE]).first_compute_family(), None);
}

#[test]
fn mask_is_read_by_its_compute_bit_alone() {
    // Only the compute bit counts, whatever else the mask holds.
    assert_eq!(device(vec![GRAPHICS]).first_compute_family(), None);
    assert_eq!(device(vec![0xffff_fffd]).first_compute_family(), None);
    assert_eq!(device(vec![0, 0xffff_ffff]).first_compute_family(), Some(1));
    assert_eq!(device(vec![0x8000_0002]).first_compute_family(), Some(0));
}

#[test]
fn selects_single_compute_device() {
    let devices = vec![device(vec![GRAPHICS | COMPUTE | TRANSFER, TRANSFER])];
    assert_eq!(select_device(&devices), Ok((0, 0)));
}

#[test]
fn selects_first_device_with_compute() {
    let devices = vec![
        device(vec![GRAPHICS, TRANSFER]),
        device(vec![]),
        device(vec![TRANSFER, GRAPHICS, COMPUTE | TRANSFER]),
        device(vec![COMPUTE]),
    ];
    assert_eq!(select_device(&devices), Ok((2, 2)));
}

#[test]
fn selects_lowest_family_on_the_device() {
    let devices = vec![device(vec![GRAPHICS, COMPUTE, COMPUTE | GRAPHICS, COMPUTE])];
    assert_eq!(select_device(&devices), Ok((1, 0)));
}

#[test]
fn earlier_device_wins_over_lower_family() {
    let devices = vec![device(vec![GRAPHICS, GRAPHICS, GRAPHICS, COMPUTE]), device(vec![COMPUTE])];
    assert_eq!(select_device(&devices), Ok((3, 0)));
}

#[test]
fn no_devices_is_no_suitable_device() {
    let devices: Vec<PhysicalDeviceInfo> = Vec::new();
    assert_eq!(select_device(&devices), Err(BootstrapError::NoSuitableDevice));
}

#[test]
fn no_compute_family_is_no_suitable_device() {
    let devices = vec![device(vec![GRAPHICS, TRANSFER]), device(vec![]), device(vec![SPARSE | GRAPHICS])];
    assert_eq!(select_device(&devices), Err(BootstrapError::NoSuitableDevice));
}

#[test]
fn compute_bit_matches_the_bindings() {
    let compute = erupt::vk1_0::QueueFlags::COMPUTE.bits();
    assert_eq!(compute, tensorsludge::vulkan::COMPUTE_BIT);
    let devices = vec![device(vec![!compute]), device(vec![compute])];
    assert_eq!(select_device(&devices), Ok((0, 1)));
}
