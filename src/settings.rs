//! Configuration values and their validation.
use vstd::prelude::*;

verus! {

/// Application settings.
#[derive(Clone, Debug)]
pub struct App {
    pub callback_url: String,
    pub client_id: Option<String>,
    pub client_secret: Option<String>,
    pub idle_image_url: Option<String>,
}

/// Settings of the playback service polling.
#[derive(Clone, Debug)]
pub struct Spotify {
    pub polling_seconds: u64,
    pub precache_albums: Option<u8>,
}

/// One lighting fixture: its host and its pixel geometry `(width, height)`;
/// a height of zero marks a one-dimensional fixture.
#[derive(Debug)]
pub struct Target {
    pub host: String,
    pub size: (u8, u8),
}

/// Animation settings.
#[derive(Clone, Copy, Debug)]
pub struct Animation {
    pub target_fps: u8,
}

#[derive(Debug)]
pub struct Settings {
    pub targets: Vec<Target>,
    pub spotify: Spotify,
    pub app: App,
    pub animation: Animation,
}

/// Why a configuration was refused.
#[derive(Clone, Copy, Debug, PartialEq, Eq, Structural)]
pub enum SettingsError {
    /// The polling interval is zero.
    PollingSecondsNotPositive,
    /// No fixture is configured.
    NoTargets,
    /// The frame rate is zero.
    TargetFpsNotPositive,
    /// The fixture at this index has a width of zero.
    InvalidTargetSize(usize),
}

/// Index of the first fixture with a width of zero, if any.
pub open spec fn first_invalid_target(targets: Seq<Target>) -> Option<int> {
    if exists|i: int| 0 <= i < targets.len() && targets[i].size.0 < 1 {
        Some(
            choose|i: int|
                0 <= i < targets.len() && targets[i].size.0 < 1 && forall|j: int|
                    0 <= j < i ==> targets[j].size.0 >= 1,
        )
    } else {
        None
    }
}

/// The outcome of validating `s`: the first rule that it breaks, in this order.
pub open spec fn settings_check(s: Settings) -> Option<SettingsError> {
    if s.spotify.polling_seconds == 0 {
        Some(SettingsError::PollingSecondsNotPositive)
    } else if s.targets@.len() == 0 {
        Some(SettingsError::NoTargets)
    } else if s.animation.target_fps == 0 {
        Some(SettingsError::TargetFpsNotPositive)
    } else {
        match first_invalid_target(s.targets@) {
            Some(i) => Some(SettingsError::InvalidTargetSize(i as usize)),
            None => None,
        }
    }
}

impl Settings {
    /// Accepts settings with a positive polling interval, at least one
    /// fixture, a positive frame rate and no fixture of width zero.
    pub fn verify_settings(settings: Settings) -> (r: Result<Settings, SettingsError>)
        ensures
            match settings_check(settings) {
                Some(e) => r == Err::<Settings, SettingsError>(e),
                None => r matches Ok(s) && s == settings,
            },
    {
        if settings.spotify.polling_seconds == 0 {
            return Err(SettingsError::PollingSecondsNotPositive);
        }
        if settings.targets.len() == 0 {
            return Err(SettingsError::NoTargets);
        }
        if settings.animation.target_fps == 0 {
            return Err(SettingsError::TargetFpsNotPositive);
        }
        let mut i: usize = 0;
        while i < settings.targets.len()
            invariant
                settings.spotify.polling_seconds != 0,
                settings.targets@.len() != 0,
                settings.animation.target_fps != 0,
                i <= settings.targets@.len(),
                forall|j: int| 0 <= j < i ==> settings.targets@[j].size.0 >= 1,
            decreases settings.targets@.len() - i,
        {
            if settings.targets[i].size.0 < 1 {
                assert(first_invalid_target(settings.targets@) == Some(i as int)) by {
                    let t = settings.targets@;
                    assert(0 <= i < t.len() && t[i as int].size.0 < 1);
                    assert(exists|c: int| 0 <= c < t.len() && t[c].size.0 < 1);
                    assert(exists|c: int|
                        0 <= c < t.len() && t[c].size.0 < 1 && forall|j: int|
                            0 <= j < c ==> t[j].size.0 >= 1);
                    let c = choose|c: int|
                        0 <= c < t.len() && t[c].size.0 < 1 && forall|j: int|
                            0 <= j < c ==> t[j].size.0 >= 1;
                    assert(0 <= i < t.len() && t[i as int].size.0 < 1 && forall|j: int|
                        0 <= j < i ==> t[j].size.0 >= 1);
                    if c < i {
                    } else if c > i {
                        assert(t[i as int].size.0 >= 1);
                    }
                }
                return Err(SettingsError::InvalidTargetSize(i));
            }
            i = i + 1;
        }
        Ok(settings)
    }
}

} // verus!
