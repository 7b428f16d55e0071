//! Choice of the physical device and of the queue family to run on.

use vstd::prelude::*;
use crate::error::BootstrapError;
use crate::vulkan::{queue_flags_contain_compute, supports_compute};

verus! {

/// What the selector reads of one physical device: the capability mask of
/// each of its queue families, in the order in which the driver lists them.
#[derive(Debug)]
pub struct PhysicalDeviceInfo {
    queue_flags: Vec<u32>,
}

impl View for PhysicalDeviceInfo {
    type V = Seq<u32>;

    closed spec fn view(&self) -> Seq<u32> {
        self.queue_flags@
    }
}

impl PhysicalDeviceInfo {
    /// A queue family is named by a 32-bit index, so a device has at most
    /// `u32::MAX` of them.
    #[verifier::type_invariant]
    closed spec fn families_indexable(&self) -> bool {
        self.queue_flags@.len() <= u32::MAX
    }

    /// Describes a device by its families' capability masks. `None` when
    /// there are more families than a 32-bit index can name.
    pub fn new(queue_flags: Vec<u32>) -> (r: Option<Self>)
        ensures
            queue_flags@.len() <= u32::MAX <==> r.is_some(),
            r matches Some(d) ==> d@ == queue_flags@,
    {
        if queue_flags.len() <= 0xffff_ffff {
            Some(PhysicalDeviceInfo { queue_flags })
        } else {
            None
        }
    }

    /// The number of queue families.
    pub fn family_count(&self) -> (n: u32)
        ensures
            n == self@.len(),
    {
        proof {
            use_type_invariant(self);
        }
        self.queue_flags.len() as u32
    }
}

/// Whether some queue family in the list can run compute work.
pub open spec fn has_compute_family(families: Seq<u32>) -> bool {
    exists|f: int| 0 <= f < families.len() && supports_compute(#[trigger] families[f])
}

/// Whether `family` is the lowest index in the list whose family can run
/// compute work.
pub open spec fn is_first_compute_family(families: Seq<u32>, family: int) -> bool {
    &&& 0 <= family < families.len()
    &&& supports_compute(families[family])
    &&& forall|g: int| 0 <= g < family ==> !supports_compute(#[trigger] families[g])
}

/// The capability masks of a list of devices, device by device.
pub open spec fn family_masks(devices: Seq<PhysicalDeviceInfo>) -> Seq<Seq<u32>> {
    devices.map_values(|d: PhysicalDeviceInfo| d@)
}

/// Whether `(device, family)` is the first pair, going through the devices
/// in order and through each device's families in order, whose family can
/// run compute work.
pub open spec fn is_first_match(devices: Seq<Seq<u32>>, device: int, family: int) -> bool {
    &&& 0 <= device < devices.len()
    &&& is_first_compute_family(devices[device], family)
    &&& forall|d: int| 0 <= d < device ==> !has_compute_family(#[trigger] devices[d])
}

/// Whether any device in the list has a queue family that can run compute
/// work.
pub open spec fn any_compute_device(devices: Seq<Seq<u32>>) -> bool {
    exists|d: int| 0 <= d < devices.len() && has_compute_family(#[trigger] devices[d])
}

impl PhysicalDeviceInfo {
    /// The lowest-indexed queue family that can run compute work, if the
    /// device has one.
    pub fn first_compute_family(&self) -> (r: Option<u32>)
        ensures
            r.is_some() <==> has_compute_family(self@),
            r matches Some(f) ==> is_first_compute_family(self@, f as int),
    {
        proof {
            use_type_invariant(self);
        }
        let n: usize = self.queue_flags.len();
        let mut family: usize = 0;
        while family < n
            invariant
                n == self.queue_flags@.len(),
                n <= u32::MAX,
                family <= n,
                forall|g: int| 0 <= g < family ==> !supports_compute(#[trigger] self.queue_flags@[g]),
            decreases n - family,
        {
            if queue_flags_contain_compute(self.queue_flags[family]) {
                return Some(family as u32);
            }
            family += 1;
        }
        None
    }
}

/// Picks the device and queue family to compute on: the first device, in
/// the order given, that has a compute-capable queue family, and the lowest
/// such family on it. Returns the family's index and the device's position
/// in `devices`.
///
/// Fails with `NoSuitableDevice` exactly when no family of any device can
/// run compute work.
pub fn select_device(devices: &Vec<PhysicalDeviceInfo>) -> (r: Result<(u32, usize), BootstrapError>)
    ensures
        r.is_ok() <==> any_compute_device(family_masks(devices@)),
        r matches Ok((family, device)) ==> is_first_match(
            family_masks(devices@),
            device as int,
            family as int,
        ),
        r matches Err(e) ==> e == BootstrapError::NoSuitableDevice,
{
    let ghost masks = family_masks(devices@);
    let mut device: usize = 0;
    while device < devices.len()
        invariant
            device <= devices.len(),
            masks == family_masks(devices@),
            forall|d: int| 0 <= d < device ==> !has_compute_family(#[trigger] masks[d]),
        decreases devices.len() - device,
    {
        assert(masks[device as int] == devices@[device as int]@);
        if let Some(family) = devices[device].first_compute_family() {
            return Ok((family, device));
        }
        device += 1;
    }
    Err(BootstrapError::NoSuitableDevice)
}

/// The first match is unique: two pairs that both are the first match of
/// one list of devices are the same pair.
pub proof fn lemma_first_match_unique(
    devices: Seq<Seq<u32>>,
    device_a: int,
    family_a: int,
    device_b: int,
    family_b: int,
)
    requires
        is_first_match(devices, device_a, family_a),
        is_first_match(devices, device_b, family_b),
    ensures
        device_a == device_b,
        family_a == family_b,
{
    if device_a < device_b {
        assert(has_compute_family(devices[device_a]));
    }
    if device_b < device_a {
        assert(has_compute_family(devices[device_b]));
    }
}

/// A list of devices has a first match exactly when one of its devices has
/// a compute-capable queue family.
pub proof fn lemma_first_match_exists(devices: Seq<Seq<u32>>)
    ensures
        any_compute_device(devices) <==> exists|device: int, family: int|
            #[trigger] is_first_match(devices, device, family),
{
    if any_compute_device(devices) {
        let d0 = choose|d: int| 0 <= d < devices.len() && has_compute_family(#[trigger] devices[d]);
        let d = lowest_compute_device(devices, d0);
        let f0 = choose|f: int|
            0 <= f < devices[d].len() && supports_compute(#[trigger] devices[d][f]);
        let f = lowest_compute_family(devices[d], f0);
        assert(is_first_match(devices, d, f));
    }
    if exists|device: int, family: int| #[trigger] is_first_match(devices, device, family) {
        let (d, f) = choose|device: int, family: int| #[trigger]
            is_first_match(devices, device, family);
        assert(has_compute_family(devices[d]));
    }
}

/// The lowest device position at or below `upto` that has a compute-capable
/// queue family.
proof fn lowest_compute_device(devices: Seq<Seq<u32>>, upto: int) -> (d: int)
    requires
        0 <= upto < devices.len(),
        has_compute_family(devices[upto]),
    ensures
        0 <= d <= upto,
        has_compute_family(devices[d]),
        forall|e: int| 0 <= e < d ==> !has_compute_family(#[trigger] devices[e]),
    decreases upto,
{
    if exists|e: int| 0 <= e < upto && has_compute_family(#[trigger] devices[e]) {
        let e = choose|e: int| 0 <= e < upto && has_compute_family(#[trigger] devices[e]);
        lowest_compute_device(devices, e)
    } else {
        upto
    }
}

/// The lowest family index at or below `upto` that can run compute work.
proof fn lowest_compute_family(families: Seq<u32>, upto: int) -> (f: int)
    requires
        0 <= upto < families.len(),
        supports_compute(families[upto]),
    ensures
        0 <= f <= upto,
        is_first_compute_family(families, f),
    decreases upto,
{
    if exists|g: int| 0 <= g < upto && supports_compute(#[trigger] families[g]) {
        let g = choose|g: int| 0 <= g < upto && supports_compute(#[trigger] families[g]);
        lowest_compute_family(families, g)
    } else {
        upto
    }
}

} // verus!
