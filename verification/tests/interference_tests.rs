//! The detector: pair rejection, merged and split events, classification,
//! strength, propagation direction, and the all-pairs sweep.

use resonance::geom::Vec2i;
use resonance::interference::{classify, detect_interference, detect_pair, strength_of,
    InterferenceKind};
use resonance::wave::{Wave, WaveKind};

fn wave(kind: WaveKind, radius: i64) -> Wave {
    Wave { kind, radius, max_radius: 400_000, speed: 100 }
}

fn at(x: i64, y: i64) -> Vec2i {
    Vec2i { x, y }
}

#[test]
fn coincident_centers_are_rejected() {
    let p = at(1000, 2000);
    let events = detect_pair(&p, &wave(WaveKind::Positive, 50_000), &p, &wave(
        WaveKind::Positive,
        60_000,
    ));
    assert_eq!(events.len(), 0);
}

#[test]
fn distant_circles_are_rejected() {
    // centers 1000 units apart, radii 50 + 60 units: far out of reach
    let events = detect_pair(
        &at(0, 0),
        &wave(WaveKind::Positive, 50_000),
        &at(1_000_000, 0),
        &wave(WaveKind::Positive, 60_000),
    );
    assert_eq!(events.len(), 0);
}

#[test]
fn contained_circle_is_rejected() {
    // a 10-unit circle one unit away from a 100-unit circle's center
    let events = detect_pair(
        &at(0, 0),
        &wave(WaveKind::Positive, 100_000),
        &at(1000, 0),
        &wave(WaveKind::Positive, 10_000),
    );
    assert_eq!(events.len(), 0);
}

#[test]
fn tangent_circles_merge_into_one_event() {
    // centers 100 units apart, radii 50 + 50: the intersection points
    // coincide at (50, 0)
    let events = detect_pair(
        &at(0, 0),
        &wave(WaveKind::Positive, 50_000),
        &at(100_000, 0),
        &wave(WaveKind::Negative, 50_000),
    );
    assert_eq!(events.len(), 1);
    assert_eq!(events[0].position, at(50_000, 0));
    assert_eq!(events[0].kind, InterferenceKind::Destructive);
    // the backward-stepped radii no longer reach each other: no direction
    assert_eq!(events[0].direction, at(0, 0));
    // ages are (50/400)^2 = 15.625 -> 15 permille
    assert_eq!(events[0].strength, 985);
}

#[test]
fn crossing_circles_give_two_events_with_outward_directions() {
    // centers 100 units apart, radii 60 + 60
    let events = detect_pair(
        &at(0, 0),
        &wave(WaveKind::Positive, 60_000),
        &at(100_000, 0),
        &wave(WaveKind::Positive, 60_000),
    );
    assert_eq!(events.len(), 2);
    // a = d/2 = 50 units; h = floor(sqrt(60^2 - 50^2)) = 33.166 units
    assert_eq!(events[0].position, at(50_000, -33_166));
    assert_eq!(events[1].position, at(50_000, 33_166));
    assert_eq!(events[0].kind, InterferenceKind::Positive);
    assert_eq!(events[1].kind, InterferenceKind::Positive);
    // ages are (60/400)^2 = 22.5 -> 22 permille
    assert_eq!(events[0].strength, 978);
    assert_eq!(events[1].strength, 978);
    // the locus slides straight outward along y as the radii grow
    assert_eq!(events[0].direction, at(0, -1000));
    assert_eq!(events[1].direction, at(0, 1000));
}

#[test]
fn polarity_classification_table() {
    assert_eq!(
        classify(WaveKind::Positive, WaveKind::Positive),
        InterferenceKind::Positive
    );
    assert_eq!(
        classify(WaveKind::Negative, WaveKind::Negative),
        InterferenceKind::Negative
    );
    assert_eq!(
        classify(WaveKind::Positive, WaveKind::Negative),
        InterferenceKind::Destructive
    );
    assert_eq!(
        classify(WaveKind::Negative, WaveKind::Positive),
        InterferenceKind::Destructive
    );
}

#[test]
fn classification_ignores_argument_order() {
    let kinds = [WaveKind::Positive, WaveKind::Negative];
    for a in kinds {
        for b in kinds {
            assert_eq!(classify(a, b), classify(b, a));
        }
    }
}

#[test]
fn strength_is_full_for_newborn_waves() {
    let s = strength_of(&wave(WaveKind::Positive, 0), &wave(WaveKind::Negative, 0));
    assert_eq!(s, 1000);
}

#[test]
fn strength_stays_in_range_and_decays() {
    let fresh = strength_of(&wave(WaveKind::Positive, 0), &wave(WaveKind::Positive, 0));
    let mid = strength_of(
        &wave(WaveKind::Positive, 200_000),
        &wave(WaveKind::Positive, 200_000),
    );
    let old = strength_of(
        &wave(WaveKind::Positive, 399_999),
        &wave(WaveKind::Positive, 399_999),
    );
    assert!(old <= mid && mid <= fresh);
    assert!(0 < old && fresh <= 1000);
    // (399999/400000)^2 rounds down to 999 permille: strength 1
    assert_eq!(old, 1);
    assert_eq!(mid, 750);
}

#[test]
fn sweep_emits_only_for_intersecting_pairs() {
    let waves = vec![
        (at(0, 0), wave(WaveKind::Positive, 60_000)),
        (at(100_000, 0), wave(WaveKind::Positive, 60_000)),
        // far away: rejected against both others
        (at(5_000_000, 0), wave(WaveKind::Negative, 60_000)),
    ];
    let events = detect_interference(&waves);
    assert_eq!(events.len(), 2);
    assert_eq!(events[0].position, at(50_000, -33_166));
    assert_eq!(events[1].position, at(50_000, 33_166));
}

#[test]
fn sweep_covers_every_unordered_pair() {
    // three mutually tangent circles on a line: radii 50, 50, 50 with
    // centers at 0, 100, 200 units; adjacent pairs merge to one event
    // each, the outer pair is tangent too (d = 200 > 100): rejected
    let waves = vec![
        (at(0, 0), wave(WaveKind::Positive, 50_000)),
        (at(100_000, 0), wave(WaveKind::Positive, 50_000)),
        (at(200_000, 0), wave(WaveKind::Positive, 50_000)),
    ];
    let events = detect_interference(&waves);
    assert_eq!(events.len(), 2);
    assert_eq!(events[0].position, at(50_000, 0));
    assert_eq!(events[1].position, at(150_000, 0));
}

#[test]
fn sweep_of_one_wave_is_empty() {
    let waves = vec![(at(0, 0), wave(WaveKind::Positive, 60_000))];
    let events = detect_interference(&waves);
    assert_eq!(events.len(), 0);
}
