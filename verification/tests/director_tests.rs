//! The round director: interlude, budget economy, eligibility, spawning,
//! and the session state machine.

use resonance::director::{director_reset, director_start, perimeter_point, spawn_tick,
    tick_round_delay, Archetype, EnemyKind, SPAWN_PERIOD_MS, START_BUDGET};
use resonance::geom::Vec2i;
use resonance::session::{end_game_transition, menu_click_transition, play_click_transition,
    GameState};

#[test]
fn perimeter_point_walks_the_four_edges() {
    // a 100 x 60 unit viewport, centered
    let w = 100_000;
    let h = 60_000;
    assert_eq!(perimeter_point(0, w, h), Vec2i { x: -50_000, y: -30_000 });
    assert_eq!(perimeter_point(30_000, w, h), Vec2i { x: -20_000, y: -30_000 });
    // right edge
    assert_eq!(perimeter_point(100_000, w, h), Vec2i { x: 50_000, y: -30_000 });
    assert_eq!(perimeter_point(130_000, w, h), Vec2i { x: 50_000, y: 0 });
    // top edge
    assert_eq!(perimeter_point(160_000, w, h), Vec2i { x: -50_000, y: 30_000 });
    assert_eq!(perimeter_point(200_000, w, h), Vec2i { x: -10_000, y: 30_000 });
    // left edge
    assert_eq!(perimeter_point(260_000, w, h), Vec2i { x: -50_000, y: -30_000 });
    assert_eq!(perimeter_point(290_000, w, h), Vec2i { x: -50_000, y: 0 });
}

#[test]
fn interlude_heals_counts_rounds_and_arms_the_spawner() {
    let (budget, mut delay, mut status) = director_start();
    let mut rounds = resonance::director::Rounds(0);
    // enemies alive: nothing happens
    let heal = tick_round_delay(&mut rounds, &budget, &mut delay, &mut status, true, true, 1000);
    assert_eq!(heal, 0);
    assert_eq!(rounds.0, 0);
    // interlude: heal at 15 hit points per second
    let heal = tick_round_delay(&mut rounds, &budget, &mut delay, &mut status, false, true, 1000);
    assert_eq!(heal, 15_000);
    assert!(!status.enabled);
    tick_round_delay(&mut rounds, &budget, &mut delay, &mut status, false, true, 1000);
    // the third second wraps the 3000 ms clock: round one begins
    tick_round_delay(&mut rounds, &budget, &mut delay, &mut status, false, true, 1000);
    assert_eq!(rounds.0, 1);
    assert!(status.enabled);
    assert_eq!(status.budget, START_BUDGET);
}

#[test]
fn spawner_spends_budget_and_disarms_when_spent() {
    let (mut budget, _delay, mut status) = director_start();
    status.enabled = true;
    status.budget = START_BUDGET;
    let mut spawned = 0u64;
    let mut guard = 0;
    while status.enabled {
        guard += 1;
        assert!(guard < 100);
        if let Some(command) = spawn_tick(&mut budget, &mut status, 1_000_000, 800_000,
            SPAWN_PERIOD_MS)
        {
            // with a budget of 5, only the cheapest archetype is eligible
            assert!(matches!(command.kind, EnemyKind::Normie));
            // the position sits on the perimeter of the viewport inflated
            // by the spawn margin (10 units beyond each edge)
            let x = command.position.x;
            let y = command.position.y;
            assert!(
                x == -510_000 || x == 510_000 || y == -410_000 || y == 410_000,
                "spawn off the perimeter: ({x}, {y})"
            );
            assert!(-510_000 <= x && x <= 510_000 && -410_000 <= y && y <= 410_000);
            spawned += 1;
        }
    }
    assert_eq!(spawned, START_BUDGET);
    assert_eq!(status.budget, 0);
    // 5 * 7 / 5 = 7 for the next round
    assert_eq!(budget.0, 7);
}

#[test]
fn armed_spawner_always_fires_when_its_clock_wraps() {
    let (mut budget, _delay, mut status) = director_start();
    status.enabled = true;
    status.budget = START_BUDGET;
    // a full period elapses: the spawner must produce a command
    let command = spawn_tick(&mut budget, &mut status, 1_000_000, 800_000, SPAWN_PERIOD_MS);
    assert!(command.is_some());
}

#[test]
fn disarmed_spawner_does_nothing() {
    let (mut budget, _delay, mut status) = director_start();
    let command = spawn_tick(&mut budget, &mut status, 1_000_000, 800_000, SPAWN_PERIOD_MS);
    assert!(command.is_none());
    assert_eq!(budget.0, START_BUDGET);
}

#[test]
fn reset_returns_to_the_starting_state() {
    let (mut budget, mut delay, mut status) = director_start();
    budget.0 = 99;
    status.enabled = true;
    status.budget = 42;
    director_reset(&mut budget, &mut delay, &mut status);
    assert_eq!(budget.0, START_BUDGET);
    assert_eq!(status.budget, START_BUDGET);
    assert!(!status.enabled);
}

#[test]
fn archetype_costs_and_thresholds() {
    assert_eq!(EnemyKind::Normie.cost(), 1);
    assert_eq!(EnemyKind::Layer.cost(), 2);
    assert_eq!(EnemyKind::Ranger.cost(), 5);
    assert_eq!(EnemyKind::Normie.required_budget(), 0);
    assert_eq!(EnemyKind::Layer.required_budget(), 6);
    assert_eq!(EnemyKind::Ranger.required_budget(), 10);
    assert_eq!(EnemyKind::Normie.spawn_delay_ms(), 1000);
    assert_eq!(EnemyKind::Layer.spawn_delay_ms(), 2000);
    assert_eq!(EnemyKind::Ranger.spawn_delay_ms(), 2000);
}

#[test]
fn archetype_stat_blocks() {
    let Archetype { body, health, hitbox, shot } = EnemyKind::Normie.archetype();
    assert_eq!(body.speed, 80);
    assert_eq!(health.max, 30_000);
    assert_eq!(hitbox.damage, 10_000);
    assert!(!hitbox.once);
    assert!(shot.is_none());

    let ranger = EnemyKind::Ranger.archetype();
    let shot = ranger.shot.unwrap();
    assert_eq!(ranger.body.speed, 30);
    assert_eq!(ranger.health.max, 10_000);
    assert_eq!(shot.speed, 400);
    assert_eq!(shot.damage, 7000);
    assert_eq!(shot.lifespan_ms, 5000);
    assert_eq!(shot.timer.duration_ms, 1000);

    let layer = EnemyKind::Layer.archetype();
    let shot = layer.shot.unwrap();
    assert_eq!(layer.body.speed, 40);
    assert_eq!(layer.health.max, 20_000);
    assert_eq!(shot.speed, 4);
    assert_eq!(shot.damage, 10_000);
    assert_eq!(shot.lifespan_ms, 60_000);
    assert_eq!(shot.timer.duration_ms, 2000);
}

#[test]
fn session_transitions() {
    let s = GameState::MainMenu;
    assert!(matches!(play_click_transition(s, true, false), GameState::MainMenu));
    assert!(matches!(play_click_transition(s, false, true), GameState::MainMenu));
    let s = play_click_transition(s, true, true);
    assert!(matches!(s, GameState::InGame));
    let s = end_game_transition(s, true);
    assert!(matches!(s, GameState::InGame));
    let s = end_game_transition(s, false);
    assert!(matches!(s, GameState::GameOver));
    let s = menu_click_transition(s, true, true);
    assert!(matches!(s, GameState::MainMenu));
}
