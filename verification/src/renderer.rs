//! Device selection for the renderer.
//!
//! The platform layer lists the machine's GPUs as plain capability
//! profiles; the choice among them is made here.

use vstd::prelude::*;

verus! {

/// What the renderer asks of a device before picking it.
#[derive(Debug, Clone, Copy, PartialEq, Eq, Structural)]
pub struct DeviceProfile {
    pub is_low_power: bool,
    pub is_removable: bool,
    pub is_headless: bool,
}

/// A device the renderer accepts: wired, full-power, driving a display.
pub open spec fn spec_high_performance(d: DeviceProfile) -> bool {
    !d.is_low_power && !d.is_removable && !d.is_headless
}

/// The first high-performance device in the list, if any.
pub fn get_high_performance_device(devices: &Vec<DeviceProfile>) -> (r: Option<usize>)
    ensures
        match r {
            Some(i) => (i as int) < devices@.len() && spec_high_performance(devices@[i as int])
                && forall|j: int| 0 <= j < i ==> !spec_high_performance(devices@[j]),
            None => forall|j: int| 0 <= j < devices@.len() ==> !spec_high_performance(devices@[j]),
        },
{
    let n: usize = devices.len();
    for i in 0..n
        invariant
            n == devices@.len(),
            forall|j: int| 0 <= j < i ==> !spec_high_performance(devices@[j]),
    {
        let d: DeviceProfile = devices[i];
        if !d.is_low_power && !d.is_removable && !d.is_headless {
            return Some(i);
        }
    }
    None
}

} // verus!
