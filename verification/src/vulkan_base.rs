use vstd::prelude::*;

verus! {

/// Presentation modes (`VkPresentModeKHR`).
pub const PRESENT_MODE_IMMEDIATE: i32 = 0;

pub const PRESENT_MODE_MAILBOX: i32 = 1;

pub const PRESENT_MODE_FIFO: i32 = 2;

pub open spec fn spec_choose_present_mode(available: Seq<i32>) -> i32 {
    if available.contains(PRESENT_MODE_MAILBOX) {
        PRESENT_MODE_MAILBOX
    } else if available.contains(PRESENT_MODE_IMMEDIATE) {
        PRESENT_MODE_IMMEDIATE
    } else {
        PRESENT_MODE_FIFO
    }
}

fn contains_mode(modes: &Vec<i32>, mode: i32) -> (r: bool)
    ensures
        r == modes@.contains(mode),
{
    let mut i: usize = 0;
    while i < modes.len()
        invariant
            i <= modes@.len(),
            forall|j: int| 0 <= j < i ==> modes@[j] != mode,
        decreases modes@.len() - i,
    {
        if modes[i] == mode {
            return true;
        }
        i = i + 1;
    }
    false
}

/// The presentation mode of the swapchain: mailbox if the surface offers
/// it, else immediate, else FIFO, which every surface supports.
pub fn choose_present_mode(available: &Vec<i32>) -> (r: i32)
    ensures
        r == spec_choose_present_mode(available@),
{
    if contains_mode(available, PRESENT_MODE_MAILBOX) {
        PRESENT_MODE_MAILBOX
    } else if contains_mode(available, PRESENT_MODE_IMMEDIATE) {
        PRESENT_MODE_IMMEDIATE
    } else {
        PRESENT_MODE_FIFO
    }
}

/// The number of swapchain images asked for: one more than the surface's
/// minimum.
pub fn desired_image_count(min_image_count: u32) -> (r: u32)
    requires
        min_image_count < u32::MAX,
    ensures
        r == min_image_count + 1,
{
    min_image_count + 1
}

} // verus!
