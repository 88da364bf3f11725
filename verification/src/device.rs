//! The choice of the physical device to render with.

use vstd::prelude::*;
use crate::render_manager::RenderManager;

verus! {

/// What kind of hardware a physical device is.
#[derive(Clone, Copy, Debug, PartialEq, Eq, Hash, Structural)]
pub enum PhysicalDeviceType {
    DiscreteGpu,
    IntegratedGpu,
    VirtualGpu,
    Cpu,
    Other,
}

/// What a queue family of a device can do.
#[derive(Clone, Copy, Debug, PartialEq, Eq, Structural)]
pub struct QueueFamilyInfo {
    pub supports_graphics: bool,
    /// Whether the family can present to the surface of the window.
    pub supports_surface: bool,
}

/// What is known of a physical device before it is chosen.
#[derive(Debug, PartialEq, Eq)]
pub struct PhysicalDeviceInfo {
    pub device_type: PhysicalDeviceType,
    /// Whether the device has every extension that the renderer needs.
    pub supports_extensions: bool,
    pub queue_families: Vec<QueueFamilyInfo>,
}

/// How much a kind of device is disliked: the lower, the better.
pub open spec fn score(device_type: PhysicalDeviceType) -> u32 {
    match device_type {
        PhysicalDeviceType::DiscreteGpu => 0,
        PhysicalDeviceType::IntegratedGpu => 1,
        PhysicalDeviceType::VirtualGpu => 2,
        PhysicalDeviceType::Cpu => 3,
        PhysicalDeviceType::Other => 4,
    }
}

/// Whether a queue family can draw and present.
pub open spec fn usable_family(family: QueueFamilyInfo) -> bool {
    family.supports_graphics && family.supports_surface
}

/// Whether `family` is the first queue family of the device that can draw
/// and present.
pub open spec fn first_usable_family(device: PhysicalDeviceInfo, family: int) -> bool {
    &&& 0 <= family < device.queue_families@.len()
    &&& usable_family(device.queue_families@[family])
    &&& forall|q: int| 0 <= q < family ==> !usable_family(#[trigger] device.queue_families@[q])
}

/// Whether a device can be rendered with: it has the extensions, and one of
/// its queue families can draw and present.
pub open spec fn eligible(device: PhysicalDeviceInfo) -> bool {
    &&& device.supports_extensions
    &&& exists|q: int|
        0 <= q < device.queue_families@.len() && usable_family(#[trigger] device.queue_families@[q])
}

/// Whether `choice` is the device to render with: the first of the eligible
/// devices with the lowest score.
pub open spec fn best_device(devices: Seq<PhysicalDeviceInfo>, choice: int) -> bool {
    &&& 0 <= choice < devices.len()
    &&& eligible(devices[choice])
    &&& forall|j: int|
        0 <= j < devices.len() && eligible(#[trigger] devices[j]) ==> score(devices[choice].device_type)
            <= score(devices[j].device_type)
    &&& forall|j: int|
        0 <= j < choice && eligible(#[trigger] devices[j]) ==> score(devices[choice].device_type) < score(
            devices[j].device_type,
        )
}

/// How much a kind of device is disliked.
pub fn device_score(device_type: PhysicalDeviceType) -> (points: u32)
    ensures
        points == score(device_type),
{
    match device_type {
        PhysicalDeviceType::DiscreteGpu => 0,
        PhysicalDeviceType::IntegratedGpu => 1,
        PhysicalDeviceType::VirtualGpu => 2,
        PhysicalDeviceType::Cpu => 3,
        PhysicalDeviceType::Other => 4,
    }
}

/// The first queue family of a device that can draw and present, if the
/// device has one.
pub fn find_queue_family(device: &PhysicalDeviceInfo) -> (family: Option<usize>)
    ensures
        match family {
            Some(q) => first_usable_family(*device, q as int),
            None => forall|q: int|
                0 <= q < device.queue_families@.len() ==> !usable_family(
                    #[trigger] device.queue_families@[q],
                ),
        },
{
    let mut q: usize = 0;
    while q < device.queue_families.len()
        invariant
            q <= device.queue_families@.len(),
            forall|p: int| 0 <= p < q ==> !usable_family(#[trigger] device.queue_families@[p]),
        decreases device.queue_families@.len() - q,
    {
        let family = device.queue_families[q];
        if family.supports_graphics && family.supports_surface {
            return Some(q);
        }
        q += 1;
    }
    None
}

impl RenderManager {
    /// Chooses the device to render with and the queue family to draw on: of
    /// the eligible devices the first with the lowest score, and of its queue
    /// families the first that can draw and present. `None` exactly when no
    /// device is eligible.
    pub fn get_physical_device_and_queue_family(
        devices: &Vec<PhysicalDeviceInfo>,
    ) -> (choice: Option<(usize, usize)>)
        ensures
            match choice {
                Some((device, family)) => {
                    &&& best_device(devices@, device as int)
                    &&& first_usable_family(devices@[device as int], family as int)
                },
                None => forall|j: int| 0 <= j < devices@.len() ==> !eligible(#[trigger] devices@[j]),
            },
    {
        let mut best: Option<(usize, usize)> = None;
        let mut best_score: u32 = 0;
        let mut i: usize = 0;
        while i < devices.len()
            invariant
                i <= devices@.len(),
                match best {
                    Some((device, family)) => {
                        &&& device < i
                        &&& eligible(devices@[device as int])
                        &&& first_usable_family(devices@[device as int], family as int)
                        &&& best_score == score(devices@[device as int].device_type)
                        &&& forall|j: int|
                            0 <= j < i && eligible(#[trigger] devices@[j]) ==> best_score <= score(
                                devices@[j].device_type,
                            )
                        &&& forall|j: int|
                            0 <= j < device && eligible(#[trigger] devices@[j]) ==> best_score < score(
                                devices@[j].device_type,
                            )
                    },
                    None => forall|j: int| 0 <= j < i ==> !eligible(#[trigger] devices@[j]),
                },
            decreases devices@.len() - i,
        {
            if devices[i].supports_extensions {
                match find_queue_family(&devices[i]) {
                    Some(family) => {
                        let points = device_score(devices[i].device_type);
                        if best.is_none() || points < best_score {
                            best = Some((i, family));
                            best_score = points;
                        }
                    },
                    None => {},
                }
            }
            i += 1;
        }
        best
    }
}

/// The choice of the device is unique: two devices that both are the best
/// are the same device.
pub proof fn lemma_best_device_unique(devices: Seq<PhysicalDeviceInfo>, a: int, b: int)
    requires
        best_device(devices, a),
        best_device(devices, b),
    ensures
        a == b,
{
}

} // verus!
