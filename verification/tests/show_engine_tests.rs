use photowall::config::Config;
use photowall::engine::LinearEngine;
use photowall::frame::FrameDriver;
use photowall::slide::Slide;
use photowall::state::SlideshowState;
use photowall::transform::Transform;

fn linear_show(images: usize) -> LinearEngine {
    let cfg = Config::standard();
    let mut e = LinearEngine::new(cfg);
    for i in 0..images {
        e.add_image(i, 800, 600);
    }
    assert!(e.initialize());
    e
}

#[test]
fn three_slides_produce_exactly_486_frames() {
    // 3 * (120 + 30 + 12) ticks at one frame per tick
    let mut e = linear_show(3);
    let mut frames: u64 = 0;
    while e.show.tick() {
        frames += 1;
        assert!(frames <= 1000);
    }
    assert_eq!(frames, 486);
    assert_eq!(e.show.frames, 486);
    assert_eq!(e.show.state, SlideshowState::Finished);
}

#[test]
fn one_slide_produces_exactly_162_frames() {
    // display + animation + cleanup: 120 + 30 + 12 ticks
    let mut e = linear_show(1);
    let mut frames: u64 = 0;
    while e.show.tick() {
        frames += 1;
        assert!(frames <= 1000);
    }
    assert_eq!(frames, 162);
    assert_eq!(e.show.state, SlideshowState::Finished);
}

#[test]
fn render_frame_counts_like_tick() {
    let mut e = linear_show(2);
    let mut frames: u64 = 0;
    while e.render_frame() {
        frames += 1;
        assert!(frames <= 1000);
    }
    assert_eq!(frames, 2 * 162);
    assert!(!e.render_frame());
}

#[test]
fn largest_supported_image_still_fits() {
    let cfg = Config::standard();
    let s = Slide::new(0, 16384, 16384, &cfg);
    // fitted against the height: 90% of 1080 over 16384 pixels
    assert_eq!(s.transform.scale, 900 * 1080 / 16384);
    assert!(s.transform.scale > 0);
}

#[test]
fn finished_show_produces_nothing_more() {
    let mut e = linear_show(1);
    while e.show.tick() {}
    assert!(!e.show.tick());
    assert!(!e.show.tick());
    assert_eq!(e.show.frames, 162);
}

#[test]
fn cleanup_hides_slides_in_strictly_decreasing_order() {
    let mut e = linear_show(3);
    // All slides are visible until the cleanup phase.
    for _ in 0..450 {
        assert!(e.show.tick());
    }
    assert_eq!(e.show.state, SlideshowState::Cleanup);
    assert!(e.show.slides.iter().all(|s| s.visible));
    // One slide disappears per cleanup interval, last index first.
    for _ in 0..12 {
        assert!(e.show.tick());
    }
    let visible: Vec<bool> = e.show.slides.iter().map(|s| s.visible).collect();
    assert_eq!(visible, vec![true, true, false]);
    for _ in 0..12 {
        assert!(e.show.tick());
    }
    let visible: Vec<bool> = e.show.slides.iter().map(|s| s.visible).collect();
    assert_eq!(visible, vec![true, false, false]);
    for _ in 0..12 {
        assert!(e.show.tick());
    }
    let visible: Vec<bool> = e.show.slides.iter().map(|s| s.visible).collect();
    assert_eq!(visible, vec![false, false, false]);
    assert_eq!(e.show.state, SlideshowState::Finished);
    assert!(!e.show.tick());
}

#[test]
fn draw_rule_shows_only_revealed_slides() {
    let mut e = linear_show(3);
    e.show.tick();
    // During the first display phase only slide 0 is drawn.
    assert_eq!(e.show.draw_order(), vec![0]);
    // After slide 0 has scattered, slides 0 and 1 are drawn.
    for _ in 0..150 {
        e.show.tick();
    }
    assert_eq!(e.show.draw_order(), vec![0, 1]);
}

#[test]
fn scatter_targets_stay_in_configured_ranges() {
    let e = linear_show(5);
    for s in e.show.slides.iter() {
        assert!(s.end.x >= 50 && s.end.x < 950);
        assert!(s.end.y >= 50 && s.end.y < 950);
        assert!(s.end.rotation >= -15000 && s.end.rotation < 15000);
        // prominent scale for 800x600 is 1000, so the scatter scale is
        // between 20% and 30% of it
        assert!(s.end.scale >= 200 && s.end.scale < 300);
    }
}

#[test]
fn slide_untouched_without_background_animation() {
    let cfg = Config::standard();
    let mut s = Slide::new(7, 800, 600, &cfg);
    let prominent = s.transform;
    assert_eq!(prominent.x, 500);
    assert_eq!(prominent.y, 500);
    assert_eq!(prominent.scale, 1000);
    assert_eq!(prominent.rotation, 0);
    s.update(50);
    assert_eq!(s.transform, prominent);
    assert!(!s.is_animating);
    assert!(s.visible);
}

#[test]
fn prominent_scale_fits_large_images() {
    let cfg = Config::standard();
    // 3840 wide against a 1920-wide frame: fit to 90% of the width
    let s = Slide::new(0, 3840, 2160, &cfg);
    assert_eq!(s.transform.scale, 900 * 1920 / 3840);
    // a tall image is fitted against the height
    let t = Slide::new(0, 600, 2000, &cfg);
    assert_eq!(t.transform.scale, 900 * 1080 / 2000);
}

#[test]
fn slide_snaps_exactly_onto_target() {
    let cfg = Config::standard();
    let mut s = Slide::new(0, 800, 600, &cfg);
    let target = Transform { x: 200, y: 300, scale: 250, rotation: -9000 };
    s.set_final_position(target);
    s.start_background_animation();
    for _ in 0..cfg.animation_ticks {
        s.update(1);
    }
    assert!(!s.is_animating);
    assert_eq!(s.transform, target);
}

#[test]
fn frame_driver_hands_out_one_order_per_tick() {
    let e = linear_show(1);
    let mut d = FrameDriver::new(e.show);
    let mut produced: u64 = 0;
    while let Some(order) = d.advance() {
        if produced == 0 {
            assert_eq!(order, vec![0]);
        }
        produced += 1;
        assert!(produced <= 1000);
    }
    assert_eq!(produced, 162);
    assert!(d.advance().is_none());
}

#[test]
fn draw_commands_scale_with_the_transform() {
    let cfg = Config::standard();
    let s = Slide::new(3, 800, 600, &cfg);
    let cmd = s.draw(&cfg).unwrap();
    assert_eq!(cmd.texture, 3);
    assert_eq!(cmd.center_x, 1920 * 500);
    assert_eq!(cmd.center_y, 1080 * 500);
    assert_eq!(cmd.width, 800 * 1000);
    assert_eq!(cmd.height, 600 * 1000);
    assert_eq!(cmd.rotation, 0);
    let mut hidden = s;
    hidden.visible = false;
    assert!(hidden.draw(&cfg).is_none());
}
