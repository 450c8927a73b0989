//! The choice of the physical device to render on.

use vstd::prelude::*;

verus! {

/// What kind of hardware a physical device is.
#[derive(Clone, Copy, Debug, PartialEq, Eq, Structural)]
pub enum PhysicalDeviceType {
    DiscreteGpu,
    IntegratedGpu,
    VirtualGpu,
    Cpu,
    Other,
    /// A kind that this library does not know.
    Unknown,
}

/// What a queue family can do.
#[derive(Clone, Copy, Debug, PartialEq, Eq, Structural)]
pub struct QueueFamily {
    /// The family takes graphics commands.
    pub graphics: bool,
    /// The family can present to the surface of the window.
    pub presents: bool,
}

/// What the renderer needs to know of a physical device.
#[derive(Clone, Debug, PartialEq, Eq)]
pub struct PhysicalDevice {
    pub device_type: PhysicalDeviceType,
    /// The device supports the swapchain extension.
    pub supports_swapchain: bool,
    pub queue_families: Vec<QueueFamily>,
}

/// The rank of a kind of device: the lower, the better.
pub open spec fn rank(device_type: PhysicalDeviceType) -> int {
    match device_type {
        PhysicalDeviceType::DiscreteGpu => 0,
        PhysicalDeviceType::IntegratedGpu => 1,
        PhysicalDeviceType::VirtualGpu => 2,
        PhysicalDeviceType::Cpu => 3,
        PhysicalDeviceType::Other => 4,
        PhysicalDeviceType::Unknown => 5,
    }
}

/// A family that the renderer can draw and present with.
pub open spec fn usable_family(family: QueueFamily) -> bool {
    family.graphics && family.presents
}

/// `q` is the first usable family of `families`.
pub open spec fn is_first_usable(families: Seq<QueueFamily>, q: int) -> bool {
    &&& 0 <= q < families.len()
    &&& usable_family(families[q])
    &&& forall|j: int| 0 <= j < q ==> !usable_family(#[trigger] families[j])
}

/// A device that the renderer can run on: it has the swapchain extension and
/// a usable queue family.
pub open spec fn suitable(device: PhysicalDevice) -> bool {
    device.supports_swapchain && exists|q: int|
        0 <= q < device.queue_families@.len() && usable_family(#[trigger] device.queue_families@[q])
}

/// The rank of a kind of device.
pub fn rank_of(device_type: PhysicalDeviceType) -> (r: u8)
    ensures
        r == rank(device_type),
{
    match device_type {
        PhysicalDeviceType::DiscreteGpu => 0,
        PhysicalDeviceType::IntegratedGpu => 1,
        PhysicalDeviceType::VirtualGpu => 2,
        PhysicalDeviceType::Cpu => 3,
        PhysicalDeviceType::Other => 4,
        PhysicalDeviceType::Unknown => 5,
    }
}

/// The first queue family that takes graphics commands and can present.
pub fn first_usable_family(families: &Vec<QueueFamily>) -> (found: Option<usize>)
    ensures
        match found {
            Some(q) => is_first_usable(families@, q as int),
            None => forall|j: int| 0 <= j < families@.len() ==> !usable_family(#[trigger] families@[j]),
        },
{
    let mut i: usize = 0;
    while i < families.len()
        invariant
            i <= families@.len(),
            forall|j: int| 0 <= j < i ==> !usable_family(#[trigger] families@[j]),
        decreases families@.len() - i,
    {
        if families[i].graphics && families[i].presents {
            return Some(i);
        }
        i = i + 1;
    }
    None
}

/// Chooses the device to render on, and the queue family to use on it.
///
/// Of the suitable devices the one of the best kind is taken, and of several
/// of that kind the first; on it, the first usable queue family. Without a
/// suitable device there is no choice.
pub fn select_physical_device(devices: &Vec<PhysicalDevice>) -> (choice: Option<(usize, usize)>)
    ensures
        match choice {
            Some((d, q)) => {
                &&& d < devices@.len()
                &&& devices@[d as int].supports_swapchain
                &&& is_first_usable(devices@[d as int].queue_families@, q as int)
                &&& forall|j: int|
                    0 <= j < devices@.len() && suitable(#[trigger] devices@[j]) ==> rank(
                        devices@[d as int].device_type,
                    ) <= rank(devices@[j].device_type)
                &&& forall|j: int|
                    0 <= j < d && suitable(#[trigger] devices@[j]) ==> rank(
                        devices@[d as int].device_type,
                    ) < rank(devices@[j].device_type)
            },
            None => forall|j: int| 0 <= j < devices@.len() ==> !suitable(#[trigger] devices@[j]),
        },
{
    let mut best: Option<(usize, usize)> = None;
    let mut best_rank: u8 = 6;
    let mut i: usize = 0;
    while i < devices.len()
        invariant
            i <= devices@.len(),
            best is None ==> best_rank == 6,
            match best {
                Some((d, q)) => {
                    &&& d < i
                    &&& best_rank == rank(devices@[d as int].device_type)
                    &&& devices@[d as int].supports_swapchain
                    &&& is_first_usable(devices@[d as int].queue_families@, q as int)
                    &&& forall|j: int|
                        0 <= j < i && suitable(#[trigger] devices@[j]) ==> rank(
                            devices@[d as int].device_type,
                        ) <= rank(devices@[j].device_type)
                    &&& forall|j: int|
                        0 <= j < d && suitable(#[trigger] devices@[j]) ==> rank(
                            devices@[d as int].device_type,
                        ) < rank(devices@[j].device_type)
                },
                None => forall|j: int| 0 <= j < i ==> !suitable(#[trigger] devices@[j]),
            },
        decreases devices@.len() - i,
    {
        let device = &devices[i];
        if device.supports_swapchain {
            match first_usable_family(&device.queue_families) {
                Some(q) => {
                    let r = rank_of(device.device_type);
                    if r < best_rank {
                        best = Some((i, q));
                        best_rank = r;
                    }
                },
                None => {},
            }
        }
        i = i + 1;
    }
    best
}

} // verus!
