//! The animation controller's decisions. A runner feeds it commands and the
//! completion of the work it asked for, and performs the actions it returns:
//! render a new animation, signal the running transmitter to stop, or start
//! the rendered animation.
//!
//! A running animation is stopped only once its replacement is fully
//! rendered, and the replacement starts only once the old one has stopped.
use vstd::prelude::*;
use crate::animation::Animation;
use crate::effect::applied;
use crate::effect::{RenderedEffect, build_spec};
use crate::playback_state::{PlaybackState, is_idle};
use crate::recipes::{PlaybackEffects, play_recipe, pause_recipe, features_effect};
use crate::settings::Target;
use crate::waveform::SineTable;

verus! {

/// A fixture as the controller addresses it.
pub struct AnimationControllerConfig {
    pub target: String,
    pub size: (u8, u8),
}

/// Commands to the controller.
#[derive(Clone, Debug)]
pub enum AnimationControllerMessage {
    /// Play the animation for a new playback state.
    Animate(PlaybackState),
    /// Stop the running animation.
    Stop,
    /// Stop the running animation if the playback is idle.
    Timeout,
    /// End command processing.
    Terminate,
}

/// What the controller is doing.
#[derive(Clone, Copy, Debug, PartialEq, Eq, Structural)]
pub enum Phase {
    /// No transmitter is running, or the running one was told to stop.
    Idle,
    /// A new animation is being rendered; `replacing` tells whether a
    /// transmitter is running meanwhile.
    Rendering { replacing: bool },
    /// A transmitter is running.
    Playing,
    /// The new animation is ready and the old transmitter was told to stop.
    StoppingOld,
    /// Command processing has ended.
    Terminated,
}

/// Inputs of the controller.
#[derive(Clone, Debug)]
pub enum ControllerEvent {
    Command(AnimationControllerMessage),
    /// The animation asked for is rendered and assembled.
    Rendered,
    /// Fetching the image or rendering the effect failed.
    RenderFailed,
    /// The old transmitter has stopped.
    OldStopped,
}

/// What the runner is to do.
#[derive(Clone, Debug)]
pub enum ControllerAction {
    /// Fetch the image and render the effect for this state.
    Render(PlaybackState),
    /// Tell the running transmitter to stop.
    SignalStop,
    /// Start a transmitter on the rendered animation.
    Dispatch,
    Nothing,
    Exit,
}

pub struct AnimationController {
    pub phase: Phase,
    /// The state most recently dispatched.
    pub current_playing: PlaybackState,
    /// The state being rendered or waiting for the old transmitter.
    pub pending: Option<PlaybackState>,
}

/// The stop that a `Stop` command, or a `Timeout` in the idle playback state, makes.
pub open spec fn stop_step(c: AnimationController) -> (AnimationController, ControllerAction) {
    if c.phase == Phase::Playing {
        (AnimationController { phase: Phase::Idle, ..c }, ControllerAction::SignalStop)
    } else {
        (c, ControllerAction::Nothing)
    }
}

/// The controller's transition on one event.
pub open spec fn controller_step(c: AnimationController, e: ControllerEvent) -> (
    AnimationController,
    ControllerAction,
) {
    match (c.phase, e) {
        (Phase::Terminated, _) => (c, ControllerAction::Nothing),
        (_, ControllerEvent::Command(AnimationControllerMessage::Terminate)) => (
            AnimationController { phase: Phase::Terminated, ..c },
            ControllerAction::Exit,
        ),
        (Phase::Idle, ControllerEvent::Command(AnimationControllerMessage::Animate(s))) => (
            AnimationController {
                phase: Phase::Rendering { replacing: false },
                pending: Some(s),
                ..c
            },
            ControllerAction::Render(s),
        ),
        (Phase::Playing, ControllerEvent::Command(AnimationControllerMessage::Animate(s))) => (
            AnimationController {
                phase: Phase::Rendering { replacing: true },
                pending: Some(s),
                ..c
            },
            ControllerAction::Render(s),
        ),
        (Phase::Idle, ControllerEvent::Command(AnimationControllerMessage::Stop)) => stop_step(c),
        (Phase::Playing, ControllerEvent::Command(AnimationControllerMessage::Stop)) => stop_step(c),
        (Phase::Idle, ControllerEvent::Command(AnimationControllerMessage::Timeout)) => if is_idle(
            c.current_playing,
        ) {
            stop_step(c)
        } else {
            (c, ControllerAction::Nothing)
        },
        (Phase::Playing, ControllerEvent::Command(AnimationControllerMessage::Timeout)) => if is_idle(
            c.current_playing,
        ) {
            stop_step(c)
        } else {
            (c, ControllerAction::Nothing)
        },
        (Phase::Rendering { replacing }, ControllerEvent::Rendered) => if replacing {
            (AnimationController { phase: Phase::StoppingOld, ..c }, ControllerAction::SignalStop)
        } else {
            dispatch_step(c)
        },
        (Phase::Rendering { replacing }, ControllerEvent::RenderFailed) => (
            AnimationController {
                phase: if replacing {
                    Phase::Playing
                } else {
                    Phase::Idle
                },
                pending: None,
                ..c
            },
            ControllerAction::Nothing,
        ),
        (Phase::StoppingOld, ControllerEvent::OldStopped) => dispatch_step(c),
        _ => (c, ControllerAction::Nothing),
    }
}

/// Starting the rendered animation: its state becomes the current one.
pub open spec fn dispatch_step(c: AnimationController) -> (AnimationController, ControllerAction) {
    (
        AnimationController {
            phase: Phase::Playing,
            current_playing: match c.pending {
                Some(s) => s,
                None => c.current_playing,
            },
            pending: None,
        },
        ControllerAction::Dispatch,
    )
}

/// The effect for a playback state: the beat-driven pulse when playing with
/// audio features, the plain pulse when playing without, the breathing when
/// paused.
pub open spec fn effect_for(s: PlaybackState, fps: int, t: Seq<i64>) -> Seq<i64> {
    if s.is_playing {
        match s.features {
            Some(f) => features_effect(f, fps, t),
            None => build_spec(play_recipe(), fps, t),
        }
    } else {
        build_spec(pause_recipe(), fps, t)
    }
}

/// Renders the effect that the recipe policy picks for `playback`.
pub fn select_effect(playback: &PlaybackState, target_fps: u8, table: &SineTable) -> (r: RenderedEffect)
    requires
        playback.wf(),
        table.wf(),
    ensures
        r.multipliers@ == effect_for(*playback, target_fps as int, table@),
{
    if playback.is_playing {
        match playback.features {
            Some(f) => PlaybackEffects::play_features(f, target_fps, table),
            None => PlaybackEffects::play(target_fps, table),
        }
    } else {
        PlaybackEffects::pause(target_fps, table)
    }
}

#[verifier::external_type_specification]
#[verifier::external_body]
pub struct ExPaletteError(color_thief::Error);

/// What color_thief's palette extraction yields for RGB bytes, taking every
/// pixel and at most two colours: `None` where it fails.
pub uninterp spec fn palette_of(pixels: Seq<u8>) -> Option<Seq<(u8, u8, u8)>>;

/// Relies on `color_thief::get_palette(pixels, ColorFormat::Rgb, 1, 2)`: its
/// outcome depends on the bytes alone, and a palette it returns holds one or
/// two colours. Its colour sums are `i32`, so the image is kept small enough
/// that they cannot overflow.
#[verifier::external_body]
fn dominant_palette(pixels: &Vec<u8>) -> (r: Result<Vec<(u8, u8, u8)>, color_thief::Error>)
    requires
        pixels@.len() <= MAX_PALETTE_BYTES,
    ensures
        r is Ok <==> palette_of(pixels@) is Some,
        r is Ok ==> r->Ok_0@ == palette_of(pixels@)->0,
        r is Ok ==> 1 <= r->Ok_0@.len() <= 2,
{
    color_thief::get_palette(pixels, color_thief::ColorFormat::Rgb, 1, 2).map(
        |colors| colors.into_iter().map(|c| (c.r, c.g, c.b)).collect(),
    )
}

/// Largest image, in bytes, whose dominant colour is extracted: at most
/// 8,333,334 sampled pixels of up to 252 per channel keep the sums in `i32`.
pub const MAX_PALETTE_BYTES: usize = 75_000_000;

/// Why an animation could not be assembled.
#[derive(Clone, Copy, Debug, PartialEq, Eq, Structural)]
pub enum AnimationError {
    /// No dominant colour could be extracted from the image, or the image is
    /// too large for the extraction.
    PaletteFailed,
    /// The effect has no multipliers, so the loop would have no frames.
    EmptyEffect,
    /// The fixtures and their addresses do not pair up.
    MissingAddress,
}

fn copy_effect(effect: &RenderedEffect) -> (r: RenderedEffect)
    ensures
        r.multipliers@ == effect.multipliers@,
{
    RenderedEffect { multipliers: effect.multipliers.clone() }
}

/// `a` is a new animation of `target` with `ms` applied to `image`.
pub open spec fn assembled(a: Animation, target: String, image: Seq<u8>, ms: Seq<i64>) -> bool {
    &&& a.target == target
    &&& a.image@ == image
    &&& applied(a.frames_loop@, image, ms)
    &&& a.frames_in is None
    &&& a.frames_out is None
}

/// The three bytes of the first colour of a palette.
pub open spec fn first_colour(p: Seq<(u8, u8, u8)>) -> Seq<u8> {
    seq![p[0].0, p[0].1, p[0].2]
}

/// The animation of a one-dimensional fixture: `effect` applied to the first
/// colour of `palette`; `None` for an empty palette.
pub fn palette_animation(target: String, palette: &Vec<(u8, u8, u8)>, effect: &RenderedEffect) -> (r:
    Option<Animation>)
    ensures
        palette@.len() == 0 <==> r is None,
        r is Some ==> assembled(r->Some_0, target, first_colour(palette@), effect.multipliers@),
{
    if palette.len() == 0 {
        return None;
    }
    let (red, green, blue) = palette[0];
    let image: Vec<u8> = vec![red, green, blue];
    assert(image@ =~= first_colour(palette@));
    Some(Animation::new(target, image, copy_effect(effect)))
}

/// The animation for one fixture: the whole image for a two-dimensional
/// fixture, its dominant colour for a one-dimensional one (height zero).
/// `target` is the fixture's resolved address.
pub fn get_animation_for_device(
    device: &Target,
    target: String,
    image: &Vec<u8>,
    effect: &RenderedEffect,
) -> (r: Result<Animation, AnimationError>)
    ensures
        device.size.1 != 0 ==> r is Ok && assembled(r->Ok_0, target, image@, effect.multipliers@),
        device.size.1 == 0 && image@.len() > MAX_PALETTE_BYTES ==> r == Err::<
            Animation,
            AnimationError,
        >(AnimationError::PaletteFailed),
        device.size.1 == 0 && image@.len() <= MAX_PALETTE_BYTES ==> match palette_of(image@) {
            None => r == Err::<Animation, AnimationError>(AnimationError::PaletteFailed),
            Some(p) => r is Ok && assembled(r->Ok_0, target, first_colour(p), effect.multipliers@),
        },
{
    if device.size.1 == 0 {
        if image.len() > MAX_PALETTE_BYTES {
            return Err(AnimationError::PaletteFailed);
        }
        match dominant_palette(image) {
            Ok(palette) => match palette_animation(target, &palette, effect) {
                Some(a) => Ok(a),
                None => Err(AnimationError::PaletteFailed),
            },
            Err(_) => Err(AnimationError::PaletteFailed),
        }
    } else {
        Ok(Animation::new(target, image.clone(), copy_effect(effect)))
    }
}

/// Whether an animation can be assembled for `device` from `image`.
pub open spec fn device_ok(device: Target, image: Seq<u8>) -> bool {
    device.size.1 != 0 || (image.len() <= MAX_PALETTE_BYTES && palette_of(image) is Some)
}

/// `a` is the animation of `device` at `target`, as `get_animation_for_device`
/// assembles it.
pub open spec fn device_animation(
    a: Animation,
    device: Target,
    target: String,
    image: Seq<u8>,
    ms: Seq<i64>,
) -> bool {
    if device.size.1 != 0 {
        assembled(a, target, image, ms)
    } else {
        assembled(a, target, first_colour(palette_of(image)->0), ms)
    }
}

/// One animation per fixture, fixture `i` at `addresses[i]`; the first failure
/// ends the assembly.
pub fn assemble_animations(
    devices: &Vec<Target>,
    addresses: &Vec<String>,
    image: &Vec<u8>,
    effect: &RenderedEffect,
) -> (r: Result<Vec<Animation>, AnimationError>)
    ensures
        effect.multipliers@.len() == 0 ==> r == Err::<Vec<Animation>, AnimationError>(
            AnimationError::EmptyEffect,
        ),
        effect.multipliers@.len() > 0 && devices@.len() != addresses@.len() ==> r == Err::<
            Vec<Animation>,
            AnimationError,
        >(AnimationError::MissingAddress),
        effect.multipliers@.len() > 0 && devices@.len() == addresses@.len() ==> (r is Ok <==> forall|
            i: int,
        |
            0 <= i < devices@.len() ==> device_ok(#[trigger] devices@[i], image@)),
        effect.multipliers@.len() > 0 && devices@.len() == addresses@.len() && r is Err ==> r
            == Err::<Vec<Animation>, AnimationError>(AnimationError::PaletteFailed),
        r is Ok ==> r->Ok_0@.len() == devices@.len() && forall|i: int|
            0 <= i < devices@.len() ==> device_animation(
                #[trigger] r->Ok_0@[i],
                devices@[i],
                addresses@[i],
                image@,
                effect.multipliers@,
            ),
{
    if effect.multipliers.len() == 0 {
        return Err(AnimationError::EmptyEffect);
    }
    if devices.len() != addresses.len() {
        return Err(AnimationError::MissingAddress);
    }
    let mut result: Vec<Animation> = Vec::new();
    let mut i: usize = 0;
    while i < devices.len()
        invariant
            effect.multipliers@.len() > 0,
            devices@.len() == addresses@.len(),
            i <= devices@.len(),
            result@.len() == i,
            forall|j: int| 0 <= j < i ==> device_ok(#[trigger] devices@[j], image@),
            forall|j: int|
                0 <= j < i ==> device_animation(
                    #[trigger] result@[j],
                    devices@[j],
                    addresses@[j],
                    image@,
                    effect.multipliers@,
                ),
        decreases devices@.len() - i,
    {
        match get_animation_for_device(&devices[i], addresses[i].clone(), image, effect) {
            Ok(a) => {
                result.push(a);
            },
            Err(e) => {
                assert(!device_ok(devices@[i as int], image@));
                return Err(e);
            },
        }
        i = i + 1;
    }
    Ok(result)
}

impl AnimationController {
    /// A controller with nothing playing.
    pub fn new(idle_image_url: Option<String>) -> (r: Self)
        ensures
            r.phase == Phase::Idle,
            is_idle(r.current_playing),
            r.current_playing.cover_url == idle_image_url,
            r.pending is None,
    {
        AnimationController {
            phase: Phase::Idle,
            current_playing: PlaybackState::none(idle_image_url),
            pending: None,
        }
    }

    /// Whether the controller takes commands now, rather than waiting for a
    /// render or for the old transmitter.
    pub fn accepts_commands(&self) -> (r: bool)
        ensures
            r == (self.phase == Phase::Idle || self.phase == Phase::Playing),
    {
        match self.phase {
            Phase::Idle | Phase::Playing => true,
            _ => false,
        }
    }

    /// Stops the running transmitter, if there is one.
    pub fn stop_animation(&mut self) -> (r: ControllerAction)
        ensures
            (*final(self), r) == stop_step(*old(self)),
    {
        if self.phase == Phase::Playing {
            self.phase = Phase::Idle;
            ControllerAction::SignalStop
        } else {
            ControllerAction::Nothing
        }
    }

    fn dispatch(&mut self) -> (r: ControllerAction)
        ensures
            (*final(self), r) == dispatch_step(*old(self)),
    {
        let pending = self.pending.take();
        match pending {
            Some(s) => {
                self.current_playing = s;
            },
            None => {},
        }
        self.phase = Phase::Playing;
        ControllerAction::Dispatch
    }

    /// Takes one event and returns what the runner is to do.
    pub fn handle(&mut self, event: ControllerEvent) -> (r: ControllerAction)
        ensures
            (*final(self), r) == controller_step(*old(self), event),
    {
        if self.phase == Phase::Terminated {
            return ControllerAction::Nothing;
        }
        match event {
            ControllerEvent::Command(AnimationControllerMessage::Terminate) => {
                self.phase = Phase::Terminated;
                ControllerAction::Exit
            },
            ControllerEvent::Command(AnimationControllerMessage::Animate(s)) => {
                match self.phase {
                    Phase::Idle | Phase::Playing => {
                        let replacing = self.phase == Phase::Playing;
                        self.phase = Phase::Rendering { replacing };
                        self.pending = Some(s.duplicate());
                        ControllerAction::Render(s)
                    },
                    _ => ControllerAction::Nothing,
                }
            },
            ControllerEvent::Command(AnimationControllerMessage::Stop) => {
                match self.phase {
                    Phase::Idle | Phase::Playing => self.stop_animation(),
                    _ => ControllerAction::Nothing,
                }
            },
            ControllerEvent::Command(AnimationControllerMessage::Timeout) => {
                match self.phase {
                    Phase::Idle | Phase::Playing => {
                        if self.current_playing.is_none() {
                            self.stop_animation()
                        } else {
                            ControllerAction::Nothing
                        }
                    },
                    _ => ControllerAction::Nothing,
                }
            },
            ControllerEvent::Rendered => {
                match self.phase {
                    Phase::Rendering { replacing } => {
                        if replacing {
                            self.phase = Phase::StoppingOld;
                            ControllerAction::SignalStop
                        } else {
                            self.dispatch()
                        }
                    },
                    _ => ControllerAction::Nothing,
                }
            },
            ControllerEvent::RenderFailed => {
                match self.phase {
                    Phase::Rendering { replacing } => {
                        self.phase = if replacing {
                            Phase::Playing
                        } else {
                            Phase::Idle
                        };
                        self.pending = None;
                        ControllerAction::Nothing
                    },
                    _ => ControllerAction::Nothing,
                }
            },
            ControllerEvent::OldStopped => {
                match self.phase {
                    Phase::StoppingOld => self.dispatch(),
                    _ => ControllerAction::Nothing,
                }
            },
        }
    }
}

/// Stopping a controller that runs no transmitter changes nothing.
pub proof fn lemma_stop_when_idle(c: AnimationController)
    requires
        c.phase == Phase::Idle,
    ensures
        controller_step(c, ControllerEvent::Command(AnimationControllerMessage::Stop)) == (
            c,
            ControllerAction::Nothing,
        ),
{
}

/// The old transmitter is told to stop only once the new animation is
/// assembled, and the new one starts only after the old one has stopped.
pub proof fn lemma_handoff_order(c: AnimationController, e: ControllerEvent)
    ensures
        (c.phase is Rendering && controller_step(c, e).1 is SignalStop) ==> (e is Rendered),
        (c.phase is Rendering && controller_step(c, e).1 is Dispatch) ==> (e is Rendered && c.phase
            == (Phase::Rendering { replacing: false })),
        (c.phase == Phase::StoppingOld && controller_step(c, e).1 is Dispatch) ==> (e is OldStopped),
        (c.phase == (Phase::Rendering { replacing: true }) && e is Rendered) ==> (controller_step(
            c,
            e,
        ).0.phase == Phase::StoppingOld && controller_step(c, e).1 is SignalStop),
{
}

} // verus!
