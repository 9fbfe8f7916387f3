use mechanics::Racer;
use mechanics::AI;

fn circuit(values: &[isize]) -> Vec<isize> {
    values.to_vec()
}

#[test]
fn new_racer_defaults() {
    let r = Racer::new(String::from("Ayrton"), AI::Human);
    assert_eq!(r.name, "Ayrton");
    assert_eq!(r.hp, 0);
    assert_eq!(r.position.lap, 0);
    assert_eq!(r.position.turn, 0);
    assert_eq!(r.speed, -2);
    assert!(r.alive);
    assert_eq!(r.turn, 0);
    assert_eq!(r.log.len(), 1);
    assert!(r.log[0].is_empty());
}

#[test]
fn shortname_takes_first_letter() {
    let r = Racer::new(String::from("Nigel"), AI::Human);
    assert_eq!(r.shortname(), "N");
    let empty = Racer::new(String::new(), AI::Human);
    assert_eq!(empty.shortname(), "");
}

#[test]
fn reset_hp_is_two_over_max_ranking() {
    // A circuit whose highest ranking is 5 gives exactly 7 HP.
    let path = circuit(&[1, 5, 3]);
    let mut r = Racer::new(String::from("Jim"), AI::Human);
    r.reset_hp(&path);
    assert_eq!(r.hp, 7);
}

#[test]
fn speed_stays_clamped() {
    let mut r = Racer::new(String::from("Stig"), AI::Human);
    for _ in 0..10 {
        r.speed_up();
        assert!(-2 <= r.speed && r.speed <= 3);
    }
    assert_eq!(r.speed, 3);
    for _ in 0..10 {
        r.slow_down();
        assert!(-2 <= r.speed && r.speed <= 3);
    }
    assert_eq!(r.speed, -2);
}

#[test]
fn move_range_by_speed() {
    let mut r = Racer::new(String::from("Mika"), AI::Human);
    let expected: [(isize, isize); 6] =
        [(-2, 1), (-1, 1), (0, 2), (1, 3), (2, 3), (3, 3)];
    for (speed, range) in expected {
        r.speed = speed;
        assert_eq!(r.move_range(), range);
    }
}

#[test]
fn next_turn_wraps_past_circuit_end() {
    let path = circuit(&[1, 2, 1]);
    let mut r = Racer::new(String::from("Juan"), AI::Human);
    r.speed = 1; // move range 3
    r.position.turn = 2;
    // Window is indices {2, 0, 1}: the same values as concatenating the
    // tail [1] with the wrapped head [1, 2] by hand.
    let manual = [path[2], path[0], path[1]];
    let manual_max = *manual.iter().max().unwrap();
    assert_eq!(r.next_turn(&path), manual_max);
    assert_eq!(r.next_turn(&path), 2);
}

#[test]
fn next_turn_without_wrap() {
    let path = circuit(&[1, 4, 2, 1]);
    let mut r = Racer::new(String::from("Jack"), AI::Human);
    r.speed = 0; // move range 2
    r.position.turn = 0;
    assert_eq!(r.next_turn(&path), 4);
}

#[test]
fn eval_difficulty_adds_speed() {
    let path = circuit(&[4, 2]);
    let mut r = Racer::new(String::from("John"), AI::Human);
    r.speed = 3; // move range 3: window {0, 1, 0} -> max 4
    assert_eq!(r.eval_difficulty(&path), 7);
    r.speed = -2; // move range 1: window {0} -> max 4
    assert_eq!(r.eval_difficulty(&path), 2);
}

#[test]
fn take_damage_reduces_hp() {
    let mut r = Racer::new(String::from("Niki"), AI::Human);
    r.hp = 5;
    r.take_damage(&3);
    assert_eq!(r.hp, 2);
    assert!(r.alive);
}

#[test]
fn take_damage_past_zero_eliminates() {
    // However far below zero the damage pushes, hp floors at 0 and the
    // racer is out.
    let mut r = Racer::new(String::from("Gilles"), AI::Human);
    r.hp = 5;
    r.take_damage(&100);
    assert_eq!(r.hp, 0);
    assert!(!r.alive);
}

#[test]
fn take_damage_to_exactly_zero_eliminates() {
    let mut r = Racer::new(String::from("Jo"), AI::Human);
    r.hp = 4;
    r.take_damage(&4);
    assert_eq!(r.hp, 0);
    assert!(!r.alive);
}

#[test]
fn move_steps_without_lap_end() {
    let mut r = Racer::new(String::from("Alain"), AI::Human);
    r.move_steps(2, 28);
    assert_eq!(r.position.lap, 0);
    assert_eq!(r.position.turn, 2);
}

#[test]
fn move_steps_past_lap_end_resets_turn() {
    let mut r = Racer::new(String::from("Jackie"), AI::Human);
    r.position.turn = 27;
    r.move_steps(2, 28);
    assert_eq!(r.position.lap, 1);
    // The overflow remainder is discarded: the turn resets to exactly 0.
    assert_eq!(r.position.turn, 0);
}

#[test]
fn resolve_turn_success_crosses_lap() {
    // Circuit [1,2,1], speed 0 (move range 2), position turn 2: the window
    // is {2, 0} -> max(1,1) = 1, so difficulty is 0+1 = 1. A roll of 3
    // succeeds and the racer crosses the lap boundary.
    let path = circuit(&[1, 2, 1]);
    let mut r = Racer::new(String::from("Emerson"), AI::Human);
    r.hp = 5;
    r.speed = 0;
    r.position.turn = 2;
    r.resolve_turn(&path, 3);
    assert_eq!(r.position.lap, 1);
    assert_eq!(r.position.turn, 0);
    assert_eq!(r.hp, 5);
    assert!(r.alive);
}

#[test]
fn resolve_turn_failure_costs_shortfall() {
    // Difficulty 6, roll 4: two short, so two points of damage, and the
    // racer moves one step fewer than its move range.
    let path = circuit(&[6, 6, 6, 6]);
    let mut r = Racer::new(String::from("Jody"), AI::Human);
    r.hp = 5;
    r.speed = 0; // move range 2, difficulty 0 + 6 = 6
    r.resolve_turn(&path, 4);
    assert_eq!(r.hp, 3);
    assert!(r.alive);
    assert_eq!(r.position.turn, 1);
    assert_eq!(r.position.lap, 0);
}

#[test]
fn resolve_turn_failing_roll_eliminates_and_then_never_moves() {
    // hp 2 and a forced roll three short of the difficulty: 3 damage
    // drives hp to -1, floored to 0, and the racer is out.
    let path = circuit(&[6, 6, 6, 6]);
    let mut r = Racer::new(String::from("Ronnie"), AI::Human);
    r.hp = 2;
    r.speed = 0; // difficulty 6
    r.resolve_turn(&path, 3);
    assert_eq!(r.hp, 0);
    assert!(!r.alive);
    assert_eq!(r.position.turn, 0);
    // A further failing turn neither moves the racer nor reduces hp below 0.
    r.resolve_turn(&path, 0);
    assert_eq!(r.hp, 0);
    assert!(!r.alive);
    assert_eq!(r.position.turn, 0);
    assert_eq!(r.position.lap, 0);
}

#[test]
fn resolve_turn_failure_at_slowest_speed_does_not_move() {
    // Move range 1: failure moves 1 - 1 = 0 steps.
    let path = circuit(&[6, 6, 6, 6]);
    let mut r = Racer::new(String::from("Carlos"), AI::Human);
    r.hp = 8;
    r.speed = -2; // difficulty -2 + 6 = 4
    r.resolve_turn(&path, 1);
    assert_eq!(r.hp, 5);
    assert!(r.alive);
    assert_eq!(r.position.turn, 0);
    assert_eq!(r.position.lap, 0);
}

#[test]
fn resolve_turn_roll_meeting_difficulty_succeeds() {
    // The roll must meet or exceed the difficulty: meeting it exactly is a
    // success.
    let path = circuit(&[6, 6, 6, 6]);
    let mut r = Racer::new(String::from("Keke"), AI::Human);
    r.hp = 5;
    r.speed = 0; // difficulty 6, move range 2
    r.resolve_turn(&path, 6);
    assert_eq!(r.hp, 5);
    assert!(r.alive);
    assert_eq!(r.position.turn, 2);
}

#[test]
fn make_turn_on_easy_circuit_always_succeeds() {
    // Difficulty is -2 + 1 = -1, so every die value 0..=6 succeeds: even
    // with a random roll the outcome is fully determined.
    let path = circuit(&[1, 1, 1, 1, 1]);
    let mut r = Racer::new(String::from("Jochen"), AI::Human);
    r.hp = 3;
    r.speed = -2; // move range 1
    r.make_turn(&path);
    assert_eq!(r.position.turn, 1);
    assert_eq!(r.position.lap, 0);
    assert_eq!(r.hp, 3);
    assert!(r.alive);
}

#[test]
fn roll_stays_in_outcome_space() {
    // The die has seven outcomes, 0 through 6.
    for _ in 0..1000 {
        let r = mechanics::roll();
        assert!(r < 7);
    }
}
