use vstd::prelude::*;

verus! {

/// The colour of the frame time readout: green up to 25 ms, orange up to 50 ms,
/// red beyond.
pub open spec fn spec_frame_time_color(millis: u128) -> [u8; 3] {
    if millis <= 25 {
        [51u8, 204u8, 51u8]
    } else if millis <= 50 {
        [255u8, 153u8, 0u8]
    } else {
        [204u8, 51u8, 51u8]
    }
}

pub fn frame_time_color(millis: u128) -> (r: [u8; 3])
    ensures
        r == spec_frame_time_color(millis),
{
    if millis <= 25 {
        [51, 204, 51]
    } else if millis <= 50 {
        [255, 153, 0]
    } else {
        [204, 51, 51]
    }
}

} // verus!
