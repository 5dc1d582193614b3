use photowall::config::Config;
use photowall::detect::{merge_detections, Detection};
use photowall::push_box::engine::PushBoxEngine;
use photowall::push_box::slide::Slide;
use photowall::push_box::state::PushBoxState;

fn detection(x_min: i64, y_min: i64, x_max: i64, y_max: i64, confidence: i64) -> Detection {
    Detection { x_min, y_min, x_max, y_max, confidence }
}

#[test]
fn merge_ignores_low_confidence_detections() {
    assert!(merge_detections(&vec![]).is_none());
    let low = vec![detection(10, 10, 50, 50, 500), detection(0, 0, 5, 5, 800)];
    // the threshold is strict: exactly 0.8 does not qualify
    assert!(merge_detections(&low).is_none());
}

#[test]
fn merge_takes_min_max_extents_over_qualifying_boxes() {
    let ds = vec![
        detection(100, 200, 300, 400, 900),
        detection(50, 250, 250, 500, 850),
        detection(0, 0, 1000, 1000, 700), // not confident enough
    ];
    let b = merge_detections(&ds).unwrap();
    assert_eq!((b.x_min, b.y_min, b.x_max, b.y_max), (50, 200, 300, 500));
}

#[test]
fn ken_burns_stays_at_full_frame_without_subject() {
    let cfg = Config::standard();
    let mut s = Slide::new(0, 800, 600, None, &cfg);
    s.visible = true;
    s.is_animating = true;
    let mut ticks: u32 = 0;
    while s.is_animating {
        s.update(1);
        assert_eq!(s.ken_burns_scale, 1000);
        assert_eq!(s.ken_burns_pan_x, 0);
        assert_eq!(s.ken_burns_pan_y, 0);
        ticks += 1;
        assert!(ticks <= 1000);
    }
}

#[test]
fn ken_burns_scale_never_leaves_the_clamp_with_subject() {
    let cfg = Config::standard();
    let ds = vec![detection(100, 100, 400, 300, 900)];
    let merged = merge_detections(&ds);
    let mut s = Slide::new(0, 800, 600, merged, &cfg);
    // subject 300x200 in an 800x600 image: 300/800 halved plus one half
    // is 0.6875, clamped up to 0.7
    assert_eq!(s.tween_ken_burns_scale.end, 700);
    s.visible = true;
    s.is_animating = true;
    let mut ticks: u32 = 0;
    while s.is_animating {
        s.update(1);
        assert!(s.ken_burns_scale >= 700 && s.ken_burns_scale <= 1000);
        ticks += 1;
        assert!(ticks <= 1000);
    }
    assert_eq!(ticks, 240);
}

#[test]
fn ken_burns_pan_heads_toward_the_subject_center() {
    let cfg = Config::standard();
    let ds = vec![detection(100, 100, 400, 300, 900)];
    let merged = merge_detections(&ds);
    let s = Slide::new(0, 800, 600, merged, &cfg);
    // subject center (250, 200) against image center (400, 300)
    assert_eq!(s.tween_ken_burns_pan_x.end, (2 * 100 + 300 - 800) * 500);
    assert_eq!(s.tween_ken_burns_pan_y.end, (2 * 100 + 200 - 600) * 500);
}

#[test]
fn slide_walks_its_phases_forward() {
    let cfg = Config::standard();
    let mut s = Slide::new(0, 800, 600, None, &cfg);
    assert_eq!(s.state, PushBoxState::Entering);
    // an 800x600 image fits the frame: full scale displayed, half on entry
    assert_eq!(s.final_scale, 1000);
    assert_eq!(s.initial_scale, 500);
    assert_eq!(s.scale, 500);
    s.visible = true;
    s.is_animating = true;
    for _ in 0..30 {
        s.update(1);
    }
    assert_eq!(s.state, PushBoxState::ZoomingIn);
    for _ in 0..30 {
        s.update(1);
    }
    assert_eq!(s.state, PushBoxState::Displaying);
    for _ in 0..120 {
        s.update(1);
    }
    assert_eq!(s.state, PushBoxState::ZoomingOut);
    for _ in 0..30 {
        s.update(1);
    }
    assert_eq!(s.state, PushBoxState::Exiting);
    assert!(s.is_animating);
    for _ in 0..30 {
        s.update(1);
    }
    assert_eq!(s.state, PushBoxState::Exiting);
    assert!(!s.is_animating);
    assert!(!s.visible);
}

#[test]
fn carousel_steers_the_crop_by_its_detections() {
    let cfg = Config::standard();
    let mut e = PushBoxEngine::new(cfg);
    // a qualifying detection: subject 300x200 at (100, 100) in 800x600
    e.add_image(0, 800, 600, &vec![detection(100, 100, 400, 300, 900)]);
    // low confidence everywhere: the crop defaults to the image center
    e.add_image(1, 800, 600, &vec![detection(100, 100, 400, 300, 700)]);
    let steered = &e.slides[0];
    assert_eq!(steered.tween_ken_burns_scale.end, 700);
    assert_eq!(steered.tween_ken_burns_pan_x.end, (2 * 100 + 300 - 800) * 500);
    assert_eq!(steered.tween_ken_burns_pan_y.end, (2 * 100 + 200 - 600) * 500);
    let centered = &e.slides[1];
    assert_eq!(centered.tween_ken_burns_scale.end, 1000);
    assert_eq!(centered.tween_ken_burns_pan_x.end, 0);
    assert_eq!(centered.tween_ken_burns_pan_y.end, 0);
}

#[test]
fn carousel_activates_the_next_slide_on_exit() {
    let cfg = Config::standard();
    let mut e = PushBoxEngine::new(cfg);
    e.add_image(0, 800, 600, &vec![]);
    e.add_image(1, 800, 600, &vec![]);
    assert!(e.initialize());
    assert!(e.slides[0].visible && e.slides[0].is_animating);
    assert!(!e.slides[1].visible);
    // the first slide reaches Exiting after entering, zooming, display
    // and zoom-out: 30 + 30 + 120 + 30 ticks
    for _ in 0..210 {
        assert!(e.render_frame());
    }
    assert_eq!(e.current_slide_index, 1);
    assert!(e.slides[1].visible && e.slides[1].is_animating);
    assert_eq!(e.slides[0].state, PushBoxState::Exiting);
}

#[test]
fn carousel_reports_completion_when_nothing_animates() {
    let cfg = Config::standard();
    let mut e = PushBoxEngine::new(cfg);
    e.add_image(0, 800, 600, &vec![]);
    assert!(e.initialize());
    let mut frames: u64 = 0;
    while e.render_frame() {
        frames += 1;
        assert!(frames <= 1000);
    }
    // one full cycle is 240 ticks; the tick that finishes it reports
    // completion
    assert_eq!(frames, 239);
    assert!(!e.slides[0].visible);
}

#[test]
fn empty_carousel_refuses_to_start() {
    let cfg = Config::standard();
    let mut e = PushBoxEngine::new(cfg);
    assert!(!e.initialize());
}

#[test]
fn carousel_draws_only_visible_slides() {
    let cfg = Config::standard();
    let mut e = PushBoxEngine::new(cfg);
    e.add_image(0, 800, 600, &vec![]);
    e.add_image(1, 800, 600, &vec![]);
    assert!(e.initialize());
    assert_eq!(e.draw_order(), vec![0]);
    for _ in 0..210 {
        e.render_frame();
    }
    assert_eq!(e.draw_order(), vec![0, 1]);
}

#[test]
fn push_draw_command_crops_once_displaying() {
    let cfg = Config::standard();
    let mut s = Slide::new(2, 800, 600, None, &cfg);
    s.visible = true;
    s.is_animating = true;
    let cmd = s.draw(&cfg).unwrap();
    // before the Displaying phase the whole image is the source
    assert_eq!((cmd.src_x, cmd.src_y, cmd.src_w, cmd.src_h), (0, 0, 800_000, 600_000));
    for _ in 0..60 {
        s.update(1);
    }
    assert_eq!(s.state, PushBoxState::Displaying);
    let cmd = s.draw(&cfg).unwrap();
    // without a subject the crop still covers the whole image
    assert_eq!((cmd.src_w, cmd.src_h), (800_000, 600_000));
    assert_eq!(cmd.width, 800 * s.scale);
}
