//! The playback state reported by the music service, as far as the
//! animations depend on it.
use vstd::prelude::*;

verus! {

/// Audio analysis of a track, in millionths.
#[derive(Clone, Copy, Debug, PartialEq, Eq, Structural)]
pub struct AudioFeatures {
    /// Beats per minute, in millionths.
    pub tempo: u64,
    /// Energy between 0 and 1, in millionths.
    pub energy: u64,
}

impl AudioFeatures {
    /// The tempo gives a period of at most a million seconds, and the energy
    /// an exponent that fits comfortably.
    pub open spec fn wf(&self) -> bool {
        120 <= self.tempo <= 120_000_000_000_000 && self.energy <= 1_000_000_000
    }
}

/// State of the current playback. Two states are equal when they agree on
/// `is_playing` and `track_id`; the other fields do not count.
#[derive(Clone, Debug)]
pub struct PlaybackState {
    pub is_playing: bool,
    pub track_name: Option<String>,
    pub track_id: Option<String>,
    pub cover_url: Option<String>,
    pub features: Option<AudioFeatures>,
}

pub open spec fn opt_view(s: Option<String>) -> Option<Seq<char>> {
    match s {
        Some(x) => Some(x@),
        None => None,
    }
}

fn copy_text(s: &Option<String>) -> (r: Option<String>)
    ensures
        r == *s,
{
    match s {
        Some(x) => Some(x.clone()),
        None => None,
    }
}

/// The equality of playback states: same `is_playing`, same track.
pub open spec fn same_playback(a: PlaybackState, b: PlaybackState) -> bool {
    a.is_playing == b.is_playing && opt_view(a.track_id) == opt_view(b.track_id)
}

/// The state reported when nothing plays.
pub open spec fn is_idle(s: PlaybackState) -> bool {
    !s.is_playing && s.track_id is None
}

impl PartialEq for PlaybackState {
    fn eq(&self, other: &PlaybackState) -> (r: bool)
        ensures
            r == same_playback(*self, *other),
    {
        if self.is_playing != other.is_playing {
            return false;
        }
        match (&self.track_id, &other.track_id) {
            (Some(a), Some(b)) => *a == *b,
            (None, None) => true,
            _ => false,
        }
    }
}

impl vstd::std_specs::cmp::PartialEqSpecImpl for PlaybackState {
    open spec fn obeys_eq_spec() -> bool {
        true
    }

    open spec fn eq_spec(&self, other: &PlaybackState) -> bool {
        same_playback(*self, *other)
    }
}

impl PlaybackState {
    pub open spec fn wf(&self) -> bool {
        self.features matches Some(f) ==> f.wf()
    }

    /// A field-by-field copy.
    pub fn duplicate(&self) -> (r: Self)
        ensures
            r == *self,
    {
        PlaybackState {
            is_playing: self.is_playing,
            track_name: copy_text(&self.track_name),
            track_id: copy_text(&self.track_id),
            cover_url: copy_text(&self.cover_url),
            features: self.features,
        }
    }

    /// Replaces the audio features.
    pub fn add_features(&mut self, features: Option<AudioFeatures>)
        ensures
            final(self).features == features,
            final(self).is_playing == old(self).is_playing,
            final(self).track_name == old(self).track_name,
            final(self).track_id == old(self).track_id,
            final(self).cover_url == old(self).cover_url,
    {
        self.features = features;
    }

    /// The state when nothing plays, showing the idle image.
    pub fn none(idle_image_url: Option<String>) -> (r: Self)
        ensures
            is_idle(r),
            r.track_name is None,
            r.cover_url == idle_image_url,
            r.features is None,
    {
        PlaybackState {
            is_playing: false,
            track_name: None,
            track_id: None,
            cover_url: idle_image_url,
            features: None,
        }
    }

    /// Whether this state equals the idle state.
    pub fn is_none(&self) -> (r: bool)
        ensures
            r == is_idle(*self),
    {
        !self.is_playing && self.track_id.is_none()
    }
}

/// Two states that agree on `is_playing` and `track_id` are equal, whatever
/// their names, covers and audio features.
pub proof fn lemma_equality_ignores_features(a: PlaybackState, b: PlaybackState)
    requires
        a.is_playing == b.is_playing,
        opt_view(a.track_id) == opt_view(b.track_id),
    ensures
        same_playback(a, b),
{
}

} // verus!
