use blackhole::camera::smooth_step;
use blackhole::session::{InputEvent, Session};
use blackhole::texture::{Texture, TextureError};

#[test]
fn smoothing_covers_a_quarter_per_step() {
    assert_eq!(smooth_step(0, 65536), 16384);
    assert_eq!(smooth_step(65536, 0), 49152);
}

#[test]
fn smoothing_holds_its_fixed_point() {
    // A raw position equal to the effective position never moves it,
    // however many frames pass.
    let mut s = Session::new(1600, 1200, false);
    let start_x = s.eff_x;
    let start_y = s.eff_y;
    assert_eq!(start_x, 1600 * 65536 / 2);
    assert_eq!(start_y, 1200 * 65536 / 2);
    for _ in 0..50 {
        s.begin_frame();
        assert_eq!(s.eff_x, start_x);
        assert_eq!(s.eff_y, start_y);
    }
}

#[test]
fn pointer_motion_updates_only_the_raw_position() {
    let mut s = Session::new(1600, 1200, false);
    let eff_before = (s.eff_x, s.eff_y);
    s.apply_event(InputEvent::MouseMotion { x: 100, y: 50 });
    assert_eq!(s.raw_x, 100 * 65536);
    assert_eq!(s.raw_y, 50 * 65536);
    assert_eq!((s.eff_x, s.eff_y), eff_before);
    assert!(s.running);
    // The next frame then moves the effective position a quarter of the
    // way toward the raw one.
    s.begin_frame();
    assert_eq!(s.eff_x, 52428800 - (52428800 - 6553600) / 4);
    assert_eq!(s.eff_y, 39321600 - (39321600 - 3276800) / 4);
}

#[test]
fn quit_and_escape_terminate() {
    let mut s = Session::new(800, 600, false);
    s.apply_event(InputEvent::Quit);
    assert!(!s.running);

    let mut s = Session::new(800, 600, false);
    s.apply_event(InputEvent::EscapeKey);
    assert!(!s.running);

    let mut s = Session::new(800, 600, false);
    s.apply_event(InputEvent::OtherKey);
    s.apply_event(InputEvent::Other);
    assert!(s.running);
}

#[test]
fn frame_rate_reports_every_hundred_frames() {
    let mut s = Session::new(800, 600, true);
    for i in 1..=250u32 {
        let report = s.begin_frame();
        assert_eq!(report, i % 100 == 0);
    }
    let mut quiet = Session::new(800, 600, false);
    for _ in 0..200 {
        assert!(!quiet.begin_frame());
    }
}

#[test]
fn texture_construction_checks_its_buffer() {
    assert_eq!(
        Texture::new(0, 1, vec![]).err().unwrap(),
        TextureError::BadDimensions
    );
    assert_eq!(
        Texture::new(2, 2, vec![0; 15]).err().unwrap(),
        TextureError::BadLength
    );
    let t = Texture::new(2, 2, vec![7; 16]).unwrap();
    assert_eq!(t.width, 2);
    assert_eq!(t.height, 2);
}
