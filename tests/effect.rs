use rustify_wled::animation::Animation;
use rustify_wled::effect::{scale, RenderedEffect};
use rustify_wled::frame::AnimationFrame;
use rustify_wled::recipes::StaticEffect;

#[test]
fn half_multiplier_halves_each_byte() {
    let e = RenderedEffect { multipliers: vec![500_000] };
    let frames = e.apply(&vec![100, 150, 200]);
    assert_eq!(frames.len(), 1);
    assert_eq!(frames[0].data, vec![50, 75, 100]);
}

#[test]
fn apply_is_pointwise() {
    let image = vec![0u8, 1, 99, 255];
    let ms = vec![0i64, 333_333, 1_000_000, 1_500_000, -200_000];
    let frames = RenderedEffect { multipliers: ms.clone() }.apply(&image);
    assert_eq!(frames.len(), ms.len());
    for (k, f) in frames.iter().enumerate() {
        for (j, b) in f.data.iter().enumerate() {
            let exact = (image[j] as f64 * ms[k] as f64 / 1e6).round().clamp(0.0, 255.0) as u8;
            assert_eq!(*b, exact);
        }
    }
}

#[test]
fn scaling_rounds_halves_up_and_clamps() {
    assert_eq!(scale(3, 500_000), 2);
    assert_eq!(scale(1, 499_999), 0);
    assert_eq!(scale(200, 2_000_000), 255);
    assert_eq!(scale(200, -1), 0);
    assert_eq!(scale(255, 1_000_000), 255);
}

#[test]
fn animation_loops_over_the_effect() {
    let e = RenderedEffect { multipliers: vec![0, 1_000_000] };
    let a = Animation::new("10.0.0.2".to_string(), vec![10, 20, 30, 40, 50, 60], e);
    assert_eq!(a.frames_loop.len(), 2);
    assert_eq!(a.frames_loop[0].data, vec![0; 6]);
    assert_eq!(a.frames_loop[1].data, vec![10, 20, 30, 40, 50, 60]);
    assert!(a.frames_in.is_none() && a.frames_out.is_none());
    assert_eq!(a.get_frame_pixels(), 2);
    assert_eq!(a.target, "10.0.0.2");
}

#[test]
fn transitions_use_the_stored_image() {
    let mut a = Animation::new("h".to_string(), vec![100], RenderedEffect { multipliers: vec![1_000_000] });
    a.add_transition_in(RenderedEffect { multipliers: vec![0, 500_000] });
    a.add_transition_out(RenderedEffect { multipliers: vec![250_000] });
    let lead_in: Vec<Vec<u8>> = a.frames_in.unwrap().into_iter().map(|f| f.data).collect();
    assert_eq!(lead_in, vec![vec![0], vec![50]]);
    assert_eq!(a.frames_out.unwrap()[0].data, vec![25]);
}

#[test]
fn static_effect_repeats_the_image() {
    let frames = StaticEffect.apply(&vec![1, 2, 3]);
    assert_eq!(frames.len(), 10);
    assert!(frames.iter().all(|f| f.data == vec![1, 2, 3]));
}

#[test]
fn frame_copies_its_data() {
    let data = vec![7u8, 8, 9];
    assert_eq!(AnimationFrame::new(&data).data, data);
}
