//! Estimator behaviour on synthetic event sequences with fabricated
//! timestamps.

use knx_blinds::tracking::{
    full_move, shortened_move, sweep, track_single_press, BlindEntry, StateStore,
};
use knx_blinds::types::{Angle, Blind, Direction, Pos};
use knx_blinds::{FULL_TRAVEL_TIME_NS, FULL_TURN_TIME_NS};

fn blind(letter: u8) -> Blind {
    Blind::from_port(letter)
}

#[test]
fn bootstrap_starts_at_opposite_endpoint() {
    let mut store = StateStore::new();
    let b = blind(b'b');
    track_single_press(1_000, Direction::Up, false, b, &mut store);
    let en = store.get(b).unwrap();
    assert_eq!(en.move_start, Some(1_000));
    assert_eq!(en.dir, Direction::Up);
    assert_eq!(en.pos, 0);
    assert_eq!(en.ang, 0);
}

#[test]
fn stop_on_tick() {
    // a full down move, stopped by a single step ten seconds later
    let mut store = StateStore::new();
    let c = blind(b'c');
    let t0 = 5_000_000_000;
    track_single_press(t0, Direction::Down, false, c, &mut store);
    track_single_press(t0 + 10_000_000_000, Direction::Up, true, c, &mut store);
    let en = store.get(c).unwrap();
    assert_eq!(en.move_start, None);
    assert_eq!(en.dir, Direction::Up);
    // 10 s of a 63.5 s travel: 15 position units below the top
    assert_eq!(en.pos, 85);
    // 10 s dwarfs the 2 s turn time: the angle saturates at the bottom
    assert_eq!(en.ang, 0);
}

#[test]
fn full_travel_then_stop_reaches_endpoint() {
    let mut store = StateStore::new();
    let d = blind(b'd');
    let t0 = 77;
    track_single_press(t0, Direction::Down, false, d, &mut store);
    track_single_press(t0 + FULL_TRAVEL_TIME_NS, Direction::Up, true, d, &mut store);
    let en = store.get(d).unwrap();
    assert_eq!(en.move_start, None);
    assert_eq!(en.pos, 0);
    assert_eq!(en.ang, 0);
}

#[test]
fn angle_finishes_turning_while_position_stays_low() {
    let mut store = StateStore::new();
    let e = blind(b'e');
    let t0 = 123;
    track_single_press(t0, Direction::Up, false, e, &mut store);
    track_single_press(t0 + FULL_TURN_TIME_NS, Direction::Down, true, e, &mut store);
    let en = store.get(e).unwrap();
    assert_eq!(en.move_start, None);
    assert_eq!(en.ang, 7);
    // 2 s of a 63.5 s travel: barely off the bottom
    assert_eq!(en.pos, 3);
}

#[test]
fn wind_alarm_restarts_all_eight_blinds() {
    let mut store = StateStore::new();
    // one blind already known, the others not: all get overwritten
    track_single_press(10, Direction::Down, false, blind(b'a'), &mut store);
    track_single_press(500, Direction::Up, false, Blind::wind(), &mut store);
    for letter in b'a'..=b'h' {
        let en = store.get(blind(letter)).unwrap();
        assert_eq!(en.move_start, Some(500));
        assert_eq!(en.dir, Direction::Up);
        assert_eq!(en.pos, 100);
        assert_eq!(en.ang, 7);
    }
}

#[test]
fn single_step_on_unknown_blind_is_ignored() {
    let mut store = StateStore::new();
    let f = blind(b'f');
    track_single_press(42, Direction::Up, true, f, &mut store);
    assert!(store.get(f).is_none());
}

#[test]
fn single_step_on_resting_blind_nudges_angle() {
    let mut store = StateStore::new();
    let g = blind(b'g');
    store.set(
        g,
        Some(BlindEntry { move_start: None, dir: Direction::Down, pos: 40, ang: 3 }),
    );
    track_single_press(9, Direction::Up, true, g, &mut store);
    let en = store.get(g).unwrap();
    assert_eq!(en.pos, 40);
    assert_eq!(en.ang, 4);
    track_single_press(10, Direction::Down, true, g, &mut store);
    track_single_press(11, Direction::Down, true, g, &mut store);
    assert_eq!(store.get(g).unwrap().ang, 2);
}

#[test]
fn nudge_saturates_at_scale_ends() {
    let mut store = StateStore::new();
    let h = blind(b'h');
    store.set(
        h,
        Some(BlindEntry { move_start: None, dir: Direction::Up, pos: 10, ang: 7 }),
    );
    track_single_press(1, Direction::Up, true, h, &mut store);
    assert_eq!(store.get(h).unwrap().ang, 7);
    store.set(
        h,
        Some(BlindEntry { move_start: None, dir: Direction::Up, pos: 10, ang: 0 }),
    );
    track_single_press(2, Direction::Down, true, h, &mut store);
    assert_eq!(store.get(h).unwrap().ang, 0);
}

#[test]
fn full_move_on_resting_blind_records_the_move() {
    let mut store = StateStore::new();
    let a = blind(b'a');
    store.set(
        a,
        Some(BlindEntry { move_start: None, dir: Direction::Down, pos: 60, ang: 2 }),
    );
    track_single_press(900, Direction::Up, false, a, &mut store);
    let en = store.get(a).unwrap();
    assert_eq!(en.move_start, Some(900));
    assert_eq!(en.dir, Direction::Up);
    assert_eq!(en.pos, 60);
    assert_eq!(en.ang, 2);
}

#[test]
fn new_full_move_credits_the_interrupted_one() {
    let mut store = StateStore::new();
    let b = blind(b'b');
    let t0 = 1_000;
    store.set(
        b,
        Some(BlindEntry { move_start: Some(t0), dir: Direction::Up, pos: 0, ang: 0 }),
    );
    // reversing after a fifth of the travel: 20 units and a saturated angle
    let t1 = t0 + FULL_TRAVEL_TIME_NS / 5;
    track_single_press(t1, Direction::Down, false, b, &mut store);
    let en = store.get(b).unwrap();
    assert_eq!(en.move_start, Some(t1));
    assert_eq!(en.dir, Direction::Down);
    assert_eq!(en.pos, 20);
    assert_eq!(en.ang, 7);
}

#[test]
fn sweep_completes_overdue_moves_only() {
    let mut store = StateStore::new();
    let a = blind(b'a');
    let b = blind(b'b');
    let t0 = 10_000;
    store.set(
        a,
        Some(BlindEntry { move_start: Some(t0), dir: Direction::Down, pos: 80, ang: 5 }),
    );
    store.set(
        b,
        Some(BlindEntry { move_start: Some(t0), dir: Direction::Up, pos: 10, ang: 1 }),
    );
    // too early: nothing is due
    let changed = sweep(t0 + FULL_TRAVEL_TIME_NS - 1, &mut store);
    assert!(changed.is_empty());
    assert_eq!(store.get(a).unwrap().pos, 80);
    // a full travel later both moves are complete
    let changed = sweep(t0 + FULL_TRAVEL_TIME_NS, &mut store);
    assert_eq!(changed.len(), 2);
    assert!(changed.contains(&a));
    assert!(changed.contains(&b));
    let ea = store.get(a).unwrap();
    assert_eq!((ea.move_start, ea.pos, ea.ang), (None, 0, 0));
    let eb = store.get(b).unwrap();
    assert_eq!((eb.move_start, eb.pos, eb.ang), (None, 100, 7));
}

#[test]
fn shortened_move_exact_values() {
    let mut pos = Pos::from_num(50);
    let mut ang = Angle::from_num(0);
    // one second down: one position unit, three and a half angle units
    shortened_move(blind(b'a'), 1_000_000_000, Direction::Down, &mut pos, &mut ang);
    assert_eq!(pos.as_num(), 49);
    assert_eq!(ang.as_num(), 0);
    let mut pos = Pos::from_num(50);
    let mut ang = Angle::from_num(0);
    shortened_move(blind(b'a'), 1_000_000_000, Direction::Up, &mut pos, &mut ang);
    assert_eq!(pos.as_num(), 51);
    assert_eq!(ang.as_num(), 3);
}

#[test]
fn full_move_snaps_to_endpoints() {
    let mut pos = Pos::from_num(33);
    let mut ang = Angle::from_num(4);
    full_move(blind(b'c'), Direction::Up, &mut pos, &mut ang);
    assert_eq!((pos.as_num(), ang.as_num()), (100, 7));
    full_move(blind(b'c'), Direction::Down, &mut pos, &mut ang);
    assert_eq!((pos.as_num(), ang.as_num()), (0, 0));
}
