//! One frame of an animation: a byte per channel, three channels per pixel.
use vstd::prelude::*;

verus! {

/// Channel bytes of one frame, in RGB order.
#[derive(Clone, Debug)]
pub struct AnimationFrame {
    pub data: Vec<u8>,
}

impl AnimationFrame {
    pub fn new(data: &Vec<u8>) -> (r: Self)
        ensures
            r.data@ == data@,
    {
        AnimationFrame { data: data.clone() }
    }
}

} // verus!
