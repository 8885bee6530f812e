use rustify_wled::controller::{
    assemble_animations, get_animation_for_device, palette_animation, select_effect, AnimationController,
    AnimationControllerMessage, AnimationError, ControllerAction, ControllerEvent, Phase,
};
use rustify_wled::effect::RenderedEffect;
use rustify_wled::playback_state::{AudioFeatures, PlaybackState};
use rustify_wled::recipes::PlaybackEffects;
use rustify_wled::settings::Target;
use rustify_wled::waveform::SineTable;

fn track(id: &str, playing: bool) -> PlaybackState {
    PlaybackState {
        is_playing: playing,
        track_name: Some(format!("name of {id}")),
        track_id: Some(id.to_string()),
        cover_url: Some(format!("http://covers/{id}")),
        features: None,
    }
}

fn command(m: AnimationControllerMessage) -> ControllerEvent {
    ControllerEvent::Command(m)
}

#[test]
fn equality_ignores_audio_features() {
    let mut a = track("abc", true);
    let mut b = track("abc", true);
    a.add_features(Some(AudioFeatures { tempo: 120_000_000, energy: 500_000 }));
    b.add_features(Some(AudioFeatures { tempo: 90_000_000, energy: 900_000 }));
    b.track_name = Some("another name".to_string());
    assert!(a == b);
    assert!(a != track("abc", false));
    assert!(a != track("xyz", true));
}

#[test]
fn idle_state_equals_the_sentinel() {
    let idle = PlaybackState::none(Some("http://idle".to_string()));
    assert!(idle.is_none());
    assert!(idle == PlaybackState::none(None));
    assert!(!track("abc", false).is_none());
}

#[test]
fn stop_without_a_transmitter_changes_nothing() {
    let mut c = AnimationController::new(None);
    let action = c.handle(command(AnimationControllerMessage::Stop));
    assert!(matches!(action, ControllerAction::Nothing));
    assert_eq!(c.phase, Phase::Idle);
    assert!(c.pending.is_none());
    assert!(c.current_playing.is_none());
}

#[test]
fn first_animation_starts_once_rendered() {
    let mut c = AnimationController::new(None);
    let s = track("a", true);
    assert!(matches!(c.handle(command(AnimationControllerMessage::Animate(s.clone()))), ControllerAction::Render(r) if r == s));
    assert_eq!(c.phase, Phase::Rendering { replacing: false });
    assert!(matches!(c.handle(ControllerEvent::Rendered), ControllerAction::Dispatch));
    assert_eq!(c.phase, Phase::Playing);
    assert!(c.current_playing == s);
}

#[test]
fn old_animation_stops_only_after_the_new_one_is_rendered() {
    let mut c = AnimationController::new(None);
    c.handle(command(AnimationControllerMessage::Animate(track("a", true))));
    c.handle(ControllerEvent::Rendered);
    let mut log = Vec::new();
    let events = vec![
        command(AnimationControllerMessage::Animate(track("b", true))),
        ControllerEvent::OldStopped,
        ControllerEvent::Rendered,
        ControllerEvent::OldStopped,
    ];
    for e in events {
        let label = match &e {
            ControllerEvent::Rendered => "rendered",
            ControllerEvent::OldStopped => "stopped",
            _ => "command",
        };
        log.push(label.to_string());
        match c.handle(e) {
            ControllerAction::SignalStop => log.push("signal stop".to_string()),
            ControllerAction::Dispatch => log.push("dispatch".to_string()),
            ControllerAction::Render(_) => log.push("render".to_string()),
            _ => {}
        }
    }
    assert_eq!(log, vec!["command", "render", "stopped", "rendered", "signal stop", "stopped", "dispatch"]);
    assert!(c.current_playing == track("b", true));
}

#[test]
fn failed_render_keeps_the_old_animation() {
    let mut c = AnimationController::new(None);
    c.handle(command(AnimationControllerMessage::Animate(track("a", true))));
    c.handle(ControllerEvent::Rendered);
    c.handle(command(AnimationControllerMessage::Animate(track("b", true))));
    assert!(matches!(c.handle(ControllerEvent::RenderFailed), ControllerAction::Nothing));
    assert_eq!(c.phase, Phase::Playing);
    assert!(c.current_playing == track("a", true));
}

#[test]
fn stop_signals_a_running_transmitter() {
    let mut c = AnimationController::new(None);
    c.handle(command(AnimationControllerMessage::Animate(track("a", true))));
    c.handle(ControllerEvent::Rendered);
    assert!(matches!(c.handle(command(AnimationControllerMessage::Stop)), ControllerAction::SignalStop));
    assert_eq!(c.phase, Phase::Idle);
}

#[test]
fn timeout_acts_only_when_idle() {
    let mut c = AnimationController::new(None);
    c.handle(command(AnimationControllerMessage::Animate(track("a", true))));
    c.handle(ControllerEvent::Rendered);
    assert!(matches!(c.handle(command(AnimationControllerMessage::Timeout)), ControllerAction::Nothing));
    assert_eq!(c.phase, Phase::Playing);
    c.handle(command(AnimationControllerMessage::Animate(PlaybackState::none(None))));
    c.handle(ControllerEvent::Rendered);
    c.handle(ControllerEvent::OldStopped);
    assert!(matches!(c.handle(command(AnimationControllerMessage::Timeout)), ControllerAction::SignalStop));
    assert_eq!(c.phase, Phase::Idle);
}

#[test]
fn terminate_ends_processing() {
    let mut c = AnimationController::new(None);
    assert!(matches!(c.handle(command(AnimationControllerMessage::Terminate)), ControllerAction::Exit));
    assert_eq!(c.phase, Phase::Terminated);
    assert!(matches!(c.handle(command(AnimationControllerMessage::Animate(track("a", true)))), ControllerAction::Nothing));
    assert!(!c.accepts_commands());
}

fn table() -> SineTable {
    let values = (0..360)
        .map(|i| ((2.0 * std::f64::consts::PI * i as f64 / 360.0).sin() * 1e6).round() as i64)
        .collect();
    SineTable { values }
}

#[test]
fn recipe_follows_the_playback_state() {
    let t = table();
    let playing = select_effect(&track("a", true), 30, &t);
    assert_eq!(playing.multipliers, PlaybackEffects::play(30, &t).multipliers);
    assert_eq!(playing.multipliers.len(), 30);
    let paused = select_effect(&track("a", false), 30, &t);
    assert_eq!(paused.multipliers, PlaybackEffects::pause(30, &t).multipliers);
    assert_eq!(paused.multipliers.len(), 90);
    let mut with_features = track("a", true);
    with_features.add_features(Some(AudioFeatures { tempo: 120_000_000, energy: 640_000 }));
    let e = select_effect(&with_features, 30, &t);
    // 120 bpm: one crest per beat gives a one-second period
    assert_eq!(e.multipliers.len(), 30);
    assert_eq!(e.multipliers, PlaybackEffects::play_features(AudioFeatures { tempo: 120_000_000, energy: 640_000 }, 30, &t).multipliers);
    // energy 0.64 gives exponent 6: the first sample is 0.6 - 0.3 * 0^6
    assert_eq!(e.multipliers[0], 600_000);
}

#[test]
fn two_dimensional_fixture_gets_the_whole_image() {
    let device = Target { host: "panel".to_string(), size: (2, 1) };
    let effect = RenderedEffect { multipliers: vec![1_000_000, 500_000] };
    let a = get_animation_for_device(&device, "10.0.0.9".to_string(), &vec![10, 20, 30, 40, 50, 60], &effect).unwrap();
    assert_eq!(a.target, "10.0.0.9");
    assert_eq!(a.frames_loop.len(), 2);
    assert_eq!(a.frames_loop[1].data, vec![5, 10, 15, 20, 25, 30]);
}

#[test]
fn one_dimensional_fixture_gets_the_dominant_colour() {
    let device = Target { host: "strip".to_string(), size: (30, 0) };
    let effect = RenderedEffect { multipliers: vec![1_000_000] };
    let image: Vec<u8> = [200u8, 16, 16].repeat(64);
    let a = get_animation_for_device(&device, "10.0.0.8".to_string(), &image, &effect).unwrap();
    assert_eq!(a.frames_loop[0].data.len(), 3);
    assert_eq!(a.get_frame_pixels(), 1);
    let c = &a.frames_loop[0].data;
    assert!(c[0] > 150 && c[1] < 60 && c[2] < 60, "{c:?}");
    assert_ne!(a.image, image);
}

#[test]
fn palette_animation_uses_the_first_colour() {
    let effect = RenderedEffect { multipliers: vec![500_000] };
    let a = palette_animation("t".to_string(), &vec![(10, 20, 30), (1, 2, 3)], &effect).unwrap();
    assert_eq!(a.image, vec![10, 20, 30]);
    assert_eq!(a.frames_loop[0].data, vec![5, 10, 15]);
    assert!(palette_animation("t".to_string(), &vec![], &effect).is_none());
    let _ = AnimationError::PaletteFailed;
}

#[test]
fn oversized_image_gives_no_dominant_colour() {
    let device = Target { host: "strip".to_string(), size: (30, 0) };
    let effect = RenderedEffect { multipliers: vec![1_000_000] };
    let image = vec![100u8; rustify_wled::controller::MAX_PALETTE_BYTES + 1];
    assert_eq!(
        get_animation_for_device(&device, "10.0.0.8".to_string(), &image, &effect).unwrap_err(),
        AnimationError::PaletteFailed
    );
}

#[test]
fn new_controller_shows_the_idle_image() {
    let c = AnimationController::new(Some("http://idle".to_string()));
    assert_eq!(c.current_playing.cover_url.as_deref(), Some("http://idle"));
}

#[test]
fn beat_pulse_counts_samples_from_the_tempo() {
    // 144 bpm at 3 fps: 3 * 60 / 72 = 2.5 samples, rounded to 3
    let f = AudioFeatures { tempo: 144_000_000, energy: 0 };
    let e = PlaybackEffects::play_features(f, 3, &table());
    assert_eq!(e.multipliers.len(), 3);
    // exponent 0: every sample is 0.6 - 0.3
    assert!(e.multipliers.iter().all(|m| *m == 300_000));
}

#[test]
fn animations_are_assembled_per_fixture() {
    let devices = vec![
        Target { host: "panel".to_string(), size: (1, 1) },
        Target { host: "strip".to_string(), size: (5, 0) },
    ];
    let addresses = vec!["10.0.0.1".to_string(), "10.0.0.2".to_string()];
    let image = vec![200u8, 16, 16];
    let effect = RenderedEffect { multipliers: vec![1_000_000] };
    let all = assemble_animations(&devices, &addresses, &image, &effect).unwrap();
    assert_eq!(all.len(), 2);
    assert_eq!(all[0].target, "10.0.0.1");
    assert_eq!(all[0].frames_loop[0].data, image);
    assert_eq!(all[1].target, "10.0.0.2");
    assert_eq!(all[1].frames_loop[0].data.len(), 3);
    let empty = RenderedEffect { multipliers: vec![] };
    assert_eq!(assemble_animations(&devices, &addresses, &image, &empty).unwrap_err(), AnimationError::EmptyEffect);
    assert_eq!(
        assemble_animations(&devices, &addresses[..1].to_vec(), &image, &effect).unwrap_err(),
        AnimationError::MissingAddress
    );
}
