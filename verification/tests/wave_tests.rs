//! Wave growth, expiry, visual shaping, and deferred waves.

use resonance::geom::Vec2i;
use resonance::timer::Timer;
use resonance::wave::{DelayedWave, Wave, WaveKind};

fn live_wave(radius: i64) -> Wave {
    Wave { kind: WaveKind::Positive, radius, max_radius: 400_000, speed: 100 }
}

#[test]
fn radius_grows_by_speed_times_dt() {
    let mut w = live_wave(0);
    let expired = w.advance(16);
    assert!(!expired);
    assert_eq!(w.radius, 1600);
    let expired = w.advance(1000);
    assert!(!expired);
    assert_eq!(w.radius, 101_600);
}

#[test]
fn radius_never_shrinks_over_many_ticks() {
    let mut w = live_wave(0);
    let mut prev = w.radius;
    for _ in 0..100 {
        let expired = w.advance(17);
        assert!(w.radius >= prev);
        prev = w.radius;
        if expired {
            break;
        }
    }
}

#[test]
fn wave_expires_exactly_at_max_radius() {
    let mut w = live_wave(399_999);
    // 100 mu/ms for 1 ms pushes the radius past the maximum
    let expired = w.advance(1);
    assert!(expired);
    assert_eq!(w.radius, 400_099);
    // a tick that stays below the maximum does not expire
    let mut w2 = live_wave(399_899);
    assert!(!w2.advance(1));
    assert_eq!(w2.radius, 399_999);
    assert!(w2.advance(1));
}

#[test]
fn age_fraction_is_squared() {
    // radius half the maximum: (1/2)^2 = 250 permille
    let w = live_wave(200_000);
    assert_eq!(w.age_fraction(), 250);
    let newborn = live_wave(0);
    assert_eq!(newborn.age_fraction(), 0);
}

#[test]
fn stroke_width_and_opacity_track_age() {
    let w = live_wave(200_000);
    // 2 + 30 * 0.25 world units
    assert_eq!(w.stroke_width(), 2000 + 30 * 250);
    assert_eq!(w.opacity(), 750);
    let newborn = live_wave(0);
    assert_eq!(newborn.stroke_width(), 2000);
    assert_eq!(newborn.opacity(), 1000);
}

#[test]
fn wave_colors_by_polarity() {
    assert_eq!(WaveKind::Positive.color_rgb(), (255, 0, 0));
    assert_eq!(WaveKind::Negative.color_rgb(), (0, 0, 255));
}

#[test]
fn delayed_wave_resolves_once_countdown_elapses() {
    let w = live_wave(0);
    let pos = Vec2i { x: 5000, y: -2000 };
    let mut d = DelayedWave::new(w, pos, 500);
    assert!(!d.tick(200));
    assert!(!d.tick(200));
    assert!(d.tick(200));
    assert_eq!(d.wave, w);
    assert_eq!(d.position, pos);
}

#[test]
fn timer_repeating_wraps_and_fires() {
    let mut t = Timer::repeating(500);
    assert!(!t.tick(300));
    assert!(t.tick(300));
    assert_eq!(t.elapsed_ms, 100);
    assert!(!t.finished());
}

#[test]
fn timer_once_saturates() {
    let mut t = Timer::once(500);
    assert!(!t.tick(499));
    assert!(t.tick(1));
    assert!(t.finished());
    assert!(t.tick(1000));
    assert_eq!(t.elapsed_ms, 500);
    t.reset();
    assert!(!t.finished());
    assert_eq!(t.fraction_permille(), 0);
}

#[test]
fn timer_fraction_is_permille_of_duration() {
    let mut t = Timer::once(1000);
    t.tick(250);
    assert_eq!(t.fraction_permille(), 250);
    t.tick(750);
    assert_eq!(t.fraction_permille(), 1000);
}
