//! Per-fixture animations: a looping body with optional lead-in and lead-out.
use vstd::prelude::*;
use crate::effect::{RenderedEffect, applied};
use crate::frame::AnimationFrame;

verus! {

/// Channels per pixel (red, green, blue).
pub const VALUES_PER_PIXEL: usize = 3;

/// The frames of one fixture, built from one image and one rendered effect.
#[derive(Clone, Debug)]
pub struct Animation {
    pub frames_loop: Vec<AnimationFrame>,
    pub frames_in: Option<Vec<AnimationFrame>>,
    pub frames_out: Option<Vec<AnimationFrame>>,
    /// Address of the fixture.
    pub target: String,
    /// The base image, kept for transitions.
    pub image: Vec<u8>,
}

impl Animation {
    /// An animation whose loop is `effect` applied to `image`, with no
    /// transitions yet.
    pub fn new(target: String, image: Vec<u8>, effect: RenderedEffect) -> (r: Self)
        ensures
            applied(r.frames_loop@, image@, effect.multipliers@),
            r.frames_in is None,
            r.frames_out is None,
            r.target == target,
            r.image@ == image@,
    {
        let frames_loop = effect.apply(&image);
        Animation { frames_loop, frames_in: None, frames_out: None, target, image }
    }

    /// Sets the lead-in to `effect` applied to the stored image.
    pub fn add_transition_in(&mut self, effect: RenderedEffect)
        ensures
            final(self).frames_in matches Some(f) && applied(
                f@,
                old(self).image@,
                effect.multipliers@,
            ),
            final(self).frames_loop@ == old(self).frames_loop@,
            final(self).frames_out == old(self).frames_out,
            final(self).target == old(self).target,
            final(self).image@ == old(self).image@,
    {
        self.frames_in = Some(effect.apply(&self.image));
    }

    /// Sets the lead-out to `effect` applied to the stored image.
    pub fn add_transition_out(&mut self, effect: RenderedEffect)
        ensures
            final(self).frames_out matches Some(f) && applied(
                f@,
                old(self).image@,
                effect.multipliers@,
            ),
            final(self).frames_loop@ == old(self).frames_loop@,
            final(self).frames_in == old(self).frames_in,
            final(self).target == old(self).target,
            final(self).image@ == old(self).image@,
    {
        self.frames_out = Some(effect.apply(&self.image));
    }

    /// Number of pixels in one frame: the first loop frame's length over three.
    pub fn get_frame_pixels(&self) -> (r: u16)
        requires
            self.frames_loop@.len() > 0,
            self.frames_loop@[0].data@.len() / 3 <= u16::MAX,
        ensures
            r == self.frames_loop@[0].data@.len() / 3,
    {
        (self.frames_loop[0].data.len() / VALUES_PER_PIXEL) as u16
    }
}

} // verus!
