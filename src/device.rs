//! Choice of the physical device and of its queue family.
use vstd::prelude::*;

verus! {

/// The graphics bit of the API's queue flags.
pub const QUEUE_GRAPHICS: u32 = 1;

/// What one queue family of a physical device offers.
#[derive(Clone, Copy, Debug, PartialEq, Eq, Structural)]
pub struct QueueFamilyInfo {
    /// The family's queue flags, as the API's bit set.
    pub queue_flags: u32,
    /// Whether the family can present to the target surface.
    pub presents: bool,
}

/// The device and queue family that the renderer runs on, by position in
/// the lists that were queried.
#[derive(Clone, Copy, Debug, PartialEq, Eq, Structural)]
pub struct QueueChoice {
    pub device_index: usize,
    pub family_index: usize,
}

/// A family that can both draw and present.
pub open spec fn family_suitable(f: QueueFamilyInfo) -> bool {
    f.queue_flags & QUEUE_GRAPHICS == QUEUE_GRAPHICS && f.presents
}

pub open spec fn device_suitable(families: Seq<QueueFamilyInfo>) -> bool {
    exists|q: int| 0 <= q < families.len() && family_suitable(families[q])
}

pub open spec fn some_device_suitable(devices: Seq<Vec<QueueFamilyInfo>>) -> bool {
    exists|d: int| 0 <= d < devices.len() && device_suitable(devices[d]@)
}

/// `c` names the first suitable family of the first device that has one.
pub open spec fn first_suitable(devices: Seq<Vec<QueueFamilyInfo>>, c: QueueChoice) -> bool {
    &&& c.device_index < devices.len()
    &&& c.family_index < devices[c.device_index as int]@.len()
    &&& family_suitable(devices[c.device_index as int]@[c.family_index as int])
    &&& forall|d: int| 0 <= d < c.device_index ==> !device_suitable(#[trigger] devices[d]@)
    &&& forall|q: int|
        0 <= q < c.family_index ==> !family_suitable(
            #[trigger] devices[c.device_index as int]@[q],
        )
}

/// First family of `families` that can draw and present, if any.
pub fn find_queue_family(families: &Vec<QueueFamilyInfo>) -> (r: Option<usize>)
    ensures
        r is None <==> !device_suitable(families@),
        r matches Some(q) ==> q < families@.len() && family_suitable(families@[q as int])
            && forall|p: int| 0 <= p < q ==> !family_suitable(#[trigger] families@[p]),
{
    let mut q: usize = 0;
    while q < families.len()
        invariant
            0 <= q <= families.len(),
            forall|p: int| 0 <= p < q ==> !family_suitable(#[trigger] families@[p]),
        decreases families.len() - q,
    {
        let f = families[q];
        if f.queue_flags & QUEUE_GRAPHICS == QUEUE_GRAPHICS && f.presents {
            return Some(q);
        }
        q = q + 1;
    }
    None
}

/// Picks the first device, in the order given, that has a family able to
/// draw and present, and that family's first such entry. `None` means that
/// no device is suitable, which is fatal for the renderer.
pub fn select_queue_family(devices: &Vec<Vec<QueueFamilyInfo>>) -> (r: Option<QueueChoice>)
    ensures
        r is None <==> !some_device_suitable(devices@),
        r matches Some(c) ==> first_suitable(devices@, c),
{
    let mut d: usize = 0;
    while d < devices.len()
        invariant
            0 <= d <= devices.len(),
            forall|e: int| 0 <= e < d ==> !device_suitable(#[trigger] devices@[e]@),
        decreases devices.len() - d,
    {
        match find_queue_family(&devices[d]) {
            Some(q) => {
                return Some(QueueChoice { device_index: d, family_index: q });
            },
            None => {},
        }
        d = d + 1;
    }
    None
}

} // verus!
