//! Time-based position estimator.
//!
//! The hardware reports no positions, so the estimator infers each blind's
//! position and slat angle from observed bus events and elapsed time. It is
//! a reducer: every event maps the prior store to a new store; a periodic
//! sweep promotes long-running moves to their endpoints.

use vstd::prelude::*;

use crate::types::{moved_down, moved_up, Angle, Blind, Direction, Pos};
use crate::{FULL_TRAVEL_TIME_NS, FULL_TURN_TIME_NS};

verus! {

/// Believed state of one blind: the move-start timestamp when a move is in
/// progress, the last commanded direction, and the believed position and
/// angle.
#[derive(Debug, Clone, Copy, PartialEq, Eq)]
pub struct BlindEntry {
    /// Monotonic timestamp at which the believed-in-progress move started.
    pub move_start: Option<u64>,
    /// Last commanded direction.
    pub dir: Direction,
    /// Believed position, 0 (bottom) to 100 (top).
    pub pos: u8,
    /// Believed slat angle, 0 to 7.
    pub ang: u8,
}

impl BlindEntry {
    /// Position and angle are on their scales.
    pub open spec fn wf(self) -> bool {
        self.pos <= 100 && self.ang <= 7
    }

    /// A move is believed in progress.
    pub open spec fn moving(self) -> bool {
        self.move_start is Some
    }
}

/// Position endpoint a move in `dir` runs toward.
pub open spec fn spec_endpoint_pos(dir: Direction) -> u8 {
    match dir {
        Direction::Up => 100,
        Direction::Down => 0,
    }
}

/// Angle endpoint a move in `dir` runs toward.
pub open spec fn spec_endpoint_ang(dir: Direction) -> u8 {
    match dir {
        Direction::Up => 7,
        Direction::Down => 0,
    }
}

/// Position after moving in `dir` for `elapsed` nanoseconds.
pub open spec fn spec_shortened_pos(pos: int, dir: Direction, elapsed: u64) -> int {
    match dir {
        Direction::Up => moved_up(pos, 100, elapsed, FULL_TRAVEL_TIME_NS),
        Direction::Down => moved_down(pos, 100, elapsed, FULL_TRAVEL_TIME_NS),
    }
}

/// Angle after moving in `dir` for `elapsed` nanoseconds. The angle runs on
/// its own, much shorter, time scale and saturates independently of the
/// position.
pub open spec fn spec_shortened_ang(ang: int, dir: Direction, elapsed: u64) -> int {
    match dir {
        Direction::Up => moved_up(ang, 7, elapsed, FULL_TURN_TIME_NS),
        Direction::Down => moved_down(ang, 7, elapsed, FULL_TURN_TIME_NS),
    }
}

/// Angle after a single tick in `dir`, saturating at the scale ends.
pub open spec fn spec_nudged_ang(ang: int, dir: Direction) -> int {
    match dir {
        Direction::Up => if ang + 1 > 7 {
            7
        } else {
            ang + 1
        },
        Direction::Down => if ang >= 1 {
            ang - 1
        } else {
            0
        },
    }
}

/// One cover blind's entry after an event `(t, dir, single)` addressed to
/// it:
/// - a single step on an in-progress move stops it, crediting the elapsed
///   movement and recording the tick's direction as the last direction;
/// - a single step on a resting blind nudges the angle one unit;
/// - a single step on an unknown blind is ignored;
/// - a full move first credits any in-progress move, then records the new
///   move start and direction;
/// - a full move on an unknown blind bootstraps the entry at the endpoint
///   opposite the commanded direction.
pub open spec fn spec_entry_after_event(
    e: Option<BlindEntry>,
    t: u64,
    dir: Direction,
    single: bool,
) -> Option<BlindEntry> {
    match e {
        None => {
            if single {
                None
            } else {
                Some(
                    BlindEntry {
                        move_start: Some(t),
                        dir,
                        pos: spec_endpoint_pos(dir.spec_opposite()),
                        ang: spec_endpoint_ang(dir.spec_opposite()),
                    },
                )
            }
        },
        Some(en) => {
            if single {
                match en.move_start {
                    Some(start) => Some(
                        BlindEntry {
                            move_start: None,
                            dir,
                            pos: spec_shortened_pos(en.pos as int, en.dir, (t - start) as u64) as u8,
                            ang: spec_shortened_ang(en.ang as int, en.dir, (t - start) as u64) as u8,
                        },
                    ),
                    None => Some(
                        BlindEntry {
                            move_start: None,
                            dir: en.dir,
                            pos: en.pos,
                            ang: spec_nudged_ang(en.ang as int, dir) as u8,
                        },
                    ),
                }
            } else {
                match en.move_start {
                    Some(start) => Some(
                        BlindEntry {
                            move_start: Some(t),
                            dir,
                            pos: spec_shortened_pos(en.pos as int, en.dir, (t - start) as u64) as u8,
                            ang: spec_shortened_ang(en.ang as int, en.dir, (t - start) as u64) as u8,
                        },
                    ),
                    None => Some(
                        BlindEntry { move_start: Some(t), dir, pos: en.pos, ang: en.ang },
                    ),
                }
            }
        },
    }
}

/// The whole store after an event: a wind alarm restarts every blind as
/// moving up from the top; any other event rewrites only the addressed
/// cover's entry.
pub open spec fn spec_track(
    pre: Seq<Option<BlindEntry>>,
    t: u64,
    dir: Direction,
    single: bool,
    id: Blind,
) -> Seq<Option<BlindEntry>> {
    if id.is_wind() {
        Seq::new(
            8,
            |i: int| Some(BlindEntry { move_start: Some(t), dir, pos: 100, ang: 7 }),
        )
    } else {
        pre.update(id.spec_index(), spec_entry_after_event(pre[id.spec_index()], t, dir, single))
    }
}

/// An entry is due for the sweep: its move started a full travel time or
/// longer ago.
pub open spec fn spec_due(e: Option<BlindEntry>, now: u64) -> bool {
    e matches Some(en) && en.move_start matches Some(start) && now - start
        >= FULL_TRAVEL_TIME_NS
}

/// One entry after the periodic sweep at `now`: a due move is complete, so
/// the move-start clears and position and angle snap to the direction's
/// endpoint; anything else is untouched.
pub open spec fn spec_sweep_entry(e: Option<BlindEntry>, now: u64) -> Option<BlindEntry> {
    if spec_due(e, now) {
        let en = e->Some_0;
        Some(
            BlindEntry {
                move_start: None,
                dir: en.dir,
                pos: spec_endpoint_pos(en.dir),
                ang: spec_endpoint_ang(en.dir),
            },
        )
    } else {
        e
    }
}

/// The whole store after the periodic sweep at `now`.
pub open spec fn spec_sweep(pre: Seq<Option<BlindEntry>>, now: u64) -> Seq<Option<BlindEntry>> {
    Seq::new(8, |i: int| spec_sweep_entry(pre[i], now))
}

/// Believed state of all eight covers, keyed by blind index. An absent
/// entry means the blind's position is unknown.
pub struct StateStore {
    slots: Vec<Option<BlindEntry>>,
}

impl View for StateStore {
    type V = Seq<Option<BlindEntry>>;

    closed spec fn view(&self) -> Seq<Option<BlindEntry>> {
        self.slots@
    }
}

impl StateStore {
    /// One slot per cover, every present entry on its scales.
    pub open spec fn wf(self) -> bool {
        self@.len() == 8 && forall|i: int|
            0 <= i < 8 ==> ((#[trigger] self@[i]) matches Some(en) ==> en.wf())
    }

    /// Every recorded move started no later than `t`.
    pub open spec fn starts_before(self, t: u64) -> bool {
        forall|i: int|
            0 <= i < self@.len() ==> ((#[trigger] self@[i]) matches Some(en) ==> (
            en.move_start matches Some(start) ==> start <= t))
    }

    /// Empty store: every blind unknown.
    pub fn new() -> (r: StateStore)
        ensures
            r.wf(),
            r@ == Seq::new(8, |i: int| None::<BlindEntry>),
    {
        let mut slots: Vec<Option<BlindEntry>> = Vec::new();
        let mut k: usize = 0;
        while k < 8
            invariant
                k <= 8,
                slots@.len() == k,
                forall|i: int| 0 <= i < k ==> slots@[i] is None,
            decreases 8 - k,
        {
            slots.push(None);
            k = k + 1;
        }
        proof {
            assert(slots@ =~= Seq::new(8, |i: int| None::<BlindEntry>));
        }
        StateStore { slots }
    }

    /// Store or overwrite one cover blind's entry.
    pub fn set(&mut self, id: Blind, entry: Option<BlindEntry>)
        requires
            old(self).wf(),
            id.is_cover(),
            entry matches Some(en) ==> en.wf(),
        ensures
            final(self).wf(),
            final(self)@ == old(self)@.update(id.spec_index(), entry),
    {
        let idx = id.index();
        self.slots[idx] = entry;
    }

    /// The entry of one cover blind, or `None` while it is unknown.
    pub fn get(&self, id: Blind) -> (r: Option<BlindEntry>)
        requires
            self.wf(),
            id.is_cover(),
        ensures
            r == self@[id.spec_index()],
    {
        self.slots[id.index()]
    }
}

/// Snap position and angle to the endpoints of a completed move in
/// `moves_up`.
pub fn full_move(id: Blind, moves_up: Direction, pos: &mut Pos, ang: &mut Angle)
    ensures
        final(pos)@ == spec_endpoint_pos(moves_up),
        final(ang)@ == spec_endpoint_ang(moves_up),
        final(pos).wf(),
        final(ang).wf(),
{
    let _ = id;
    match moves_up {
        Direction::Up => {
            *pos = Pos::top();
            *ang = Angle::top();
        },
        Direction::Down => {
            *pos = Pos::bottom();
            *ang = Angle::bottom();
        },
    }
}

/// Credit `time_moving` nanoseconds of movement in `moves_up` to a blind's
/// position and angle, each on its own time scale, saturating at the
/// endpoints.
pub fn shortened_move(
    id: Blind,
    time_moving: u64,
    moves_up: Direction,
    pos: &mut Pos,
    ang: &mut Angle,
)
    requires
        old(pos).wf(),
        old(ang).wf(),
    ensures
        final(pos)@ == spec_shortened_pos(old(pos)@ as int, moves_up, time_moving),
        final(ang)@ == spec_shortened_ang(old(ang)@ as int, moves_up, time_moving),
        final(pos).wf(),
        final(ang).wf(),
{
    let _ = id;
    match moves_up {
        Direction::Up => {
            pos.up(time_moving);
            ang.up(time_moving);
        },
        Direction::Down => {
            pos.down(time_moving);
            ang.down(time_moving);
        },
    }
}

/// Fold one bus event into the store, as `spec_track` describes: a wind
/// alarm restarts all eight covers moving up from the top; otherwise the
/// addressed cover's entry is rewritten by `spec_entry_after_event`.
pub fn track_single_press(
    time: u64,
    goes_up: Direction,
    is_single_step: bool,
    id: Blind,
    states: &mut StateStore,
)
    requires
        old(states).wf(),
        old(states).starts_before(time),
        id.wf(),
    ensures
        final(states).wf(),
        final(states)@ == spec_track(old(states)@, time, goes_up, is_single_step, id),
{
    if id.is_wind() {
        // wind alarm: every cover is moving up from the top
        let entry = BlindEntry { move_start: Some(time), dir: goes_up, pos: 100, ang: 7 };
        let mut k: usize = 0;
        while k < 8
            invariant
                k <= 8,
                states@.len() == 8,
                forall|i: int| 0 <= i < k ==> states@[i] == Some(entry),
                forall|i: int| k <= i < 8 ==> states@[i] == old(states)@[i],
                old(states).wf(),
            decreases 8 - k,
        {
            states.slots[k] = Some(entry);
            k = k + 1;
        }
        proof {
            assert(states@ =~= spec_track(old(states)@, time, goes_up, is_single_step, id));
        }
        return ;
    }
    let idx = id.index();
    let cur = states.slots[idx];
    match cur {
        None => {
            if is_single_step {
                // a lone tick on an unknown blind is too ambiguous to
                // bootstrap from
                proof {
                    assert(states@ =~= spec_track(
                        old(states)@,
                        time,
                        goes_up,
                        is_single_step,
                        id,
                    ));
                }
            } else {
                // bootstrap at the endpoint opposite the commanded move
                let mut pos = Pos::bottom();
                let mut ang = Angle::bottom();
                full_move(id, goes_up.opposite(), &mut pos, &mut ang);
                states.slots[idx] = Some(
                    BlindEntry {
                        move_start: Some(time),
                        dir: goes_up,
                        pos: pos.as_num(),
                        ang: ang.as_num(),
                    },
                );
            }
        },
        Some(en) => {
            if is_single_step {
                match en.move_start {
                    Some(start) => {
                        // the tick stops the move: credit the elapsed motion
                        let elapsed = time - start;
                        let mut pos = Pos::from_num(en.pos);
                        let mut ang = Angle::from_num(en.ang);
                        shortened_move(id, elapsed, en.dir, &mut pos, &mut ang);
                        states.slots[idx] = Some(
                            BlindEntry {
                                move_start: None,
                                dir: goes_up,
                                pos: pos.as_num(),
                                ang: ang.as_num(),
                            },
                        );
                    },
                    None => {
                        // nudge the slats one unit
                        let mut ang = Angle::from_num(en.ang);
                        match goes_up {
                            Direction::Up => {
                                let _ = ang.step_up(1);
                            },
                            Direction::Down => {
                                let _ = ang.step_down(1);
                            },
                        }
                        states.slots[idx] = Some(
                            BlindEntry {
                                move_start: None,
                                dir: en.dir,
                                pos: en.pos,
                                ang: ang.as_num(),
                            },
                        );
                    },
                }
            } else {
                match en.move_start {
                    Some(start) => {
                        // record the implicit stop, then the new move
                        let elapsed = time - start;
                        let mut pos = Pos::from_num(en.pos);
                        let mut ang = Angle::from_num(en.ang);
                        shortened_move(id, elapsed, en.dir, &mut pos, &mut ang);
                        states.slots[idx] = Some(
                            BlindEntry {
                                move_start: Some(time),
                                dir: goes_up,
                                pos: pos.as_num(),
                                ang: ang.as_num(),
                            },
                        );
                    },
                    None => {
                        states.slots[idx] = Some(
                            BlindEntry {
                                move_start: Some(time),
                                dir: goes_up,
                                pos: en.pos,
                                ang: en.ang,
                            },
                        );
                    },
                }
            }
        },
    }
}

/// The periodic sweep: complete every move that started a full travel time
/// or longer ago, snapping it to its endpoint. Returns the blinds whose
/// entries changed, for reporting.
pub fn sweep(now: u64, states: &mut StateStore) -> (changed: Vec<Blind>)
    requires
        old(states).wf(),
        old(states).starts_before(now),
    ensures
        final(states).wf(),
        final(states)@ == spec_sweep(old(states)@, now),
        forall|m: int|
            0 <= m < changed@.len() ==> changed@[m].is_cover() && spec_due(
                old(states)@[changed@[m].spec_index()],
                now,
            ),
        forall|i: int|
            0 <= i < 8 && spec_due(old(states)@[i], now) ==> exists|m: int|
                0 <= m < changed@.len() && changed@[m].spec_index() == i,
{
    let mut changed: Vec<Blind> = Vec::new();
    let mut k: usize = 0;
    while k < 8
        invariant
            k <= 8,
            states@.len() == 8,
            old(states).wf(),
            old(states).starts_before(now),
            forall|i: int| 0 <= i < k ==> states@[i] == spec_sweep_entry(old(states)@[i], now),
            forall|i: int| k <= i < 8 ==> states@[i] == old(states)@[i],
            forall|m: int|
                0 <= m < changed@.len() ==> changed@[m].is_cover() && spec_due(
                    old(states)@[changed@[m].spec_index()],
                    now,
                ),
            forall|i: int|
                0 <= i < k && spec_due(old(states)@[i], now) ==> exists|m: int|
                    0 <= m < changed@.len() && changed@[m].spec_index() == i,
        decreases 8 - k,
    {
        let cur = states.slots[k];
        match cur {
            Some(en) => {
                match en.move_start {
                    Some(start) => {
                        if now - start >= FULL_TRAVEL_TIME_NS {
                            states.slots[k] = Some(
                                BlindEntry {
                                    move_start: None,
                                    dir: en.dir,
                                    pos: match en.dir {
                                        Direction::Up => 100,
                                        Direction::Down => 0,
                                    },
                                    ang: match en.dir {
                                        Direction::Up => 7,
                                        Direction::Down => 0,
                                    },
                                },
                            );
                            let id = Blind::from_port(97 + k as u8);
                            let ghost prev = changed@;
                            changed.push(id);
                            proof {
                                assert(changed@[prev.len() as int].spec_index() == k as int);
                                assert forall|i: int|
                                    0 <= i < k + 1 && spec_due(old(states)@[i], now) implies exists|
                                    m: int,
                                |
                                    0 <= m < changed@.len() && changed@[m].spec_index() == i by {
                                    if i == k {
                                        assert(0 <= prev.len() < changed@.len() && changed@[
                                        prev.len() as int].spec_index() == i);
                                    } else {
                                        let m = choose|m: int|
                                            0 <= m < prev.len() && prev[m].spec_index() == i;
                                        assert(0 <= m < changed@.len() && changed@[m].spec_index()
                                            == i);
                                    }
                                }
                            }
                        }
                    },
                    None => {},
                }
            },
            None => {},
        }
        k = k + 1;
    }
    proof {
        assert(states@ =~= spec_sweep(old(states)@, now));
    }
    changed
}

/// A full move followed, a full travel time later, by a single-step stop
/// leaves the blind at the endpoint of the move's direction: position and
/// angle both at that endpoint, no move in progress. Stated here for a down
/// move from any prior entry.
pub proof fn lemma_full_travel_then_stop(
    pre: Seq<Option<BlindEntry>>,
    t0: u64,
    id: Blind,
    d2: Direction,
)
    requires
        pre.len() == 8,
        id.is_cover(),
        t0 + FULL_TRAVEL_TIME_NS <= u64::MAX,
    ensures
        ({
            let s1 = spec_track(pre, t0, Direction::Down, false, id);
            let s2 = spec_track(
                s1,
                (t0 + FULL_TRAVEL_TIME_NS) as u64,
                d2,
                true,
                id,
            );
            s2[id.spec_index()] matches Some(en) && en.move_start is None && en.pos == 0
                && en.ang == 0
        }),
{
    let s1 = spec_track(pre, t0, Direction::Down, false, id);
    let t1 = (t0 + FULL_TRAVEL_TIME_NS) as u64;
    let idx = id.spec_index();
    assert(s1[idx] matches Some(en1) && en1.move_start == Some(t0) && en1.dir
        == Direction::Down);
    let en1 = s1[idx]->Some_0;
    assert((t1 - t0) as u64 == FULL_TRAVEL_TIME_NS);
    assert(spec_shortened_pos(en1.pos as int, Direction::Down, FULL_TRAVEL_TIME_NS) == 0);
    assert(spec_shortened_ang(en1.ang as int, Direction::Down, FULL_TRAVEL_TIME_NS) == 0);
}

/// Angle independence: on a blind bootstrapped by a full up move, a stop one
/// full turn time later finds the slats already fully turned while the
/// position has barely left the bottom — the angle runs on its own time
/// scale.
pub proof fn lemma_angle_turns_before_position(pre: Seq<Option<BlindEntry>>, t0: u64, id: Blind)
    requires
        pre.len() == 8,
        id.is_cover(),
        pre[id.spec_index()] is None,
        t0 + FULL_TURN_TIME_NS <= u64::MAX,
    ensures
        ({
            let s1 = spec_track(pre, t0, Direction::Up, false, id);
            let s2 = spec_track(
                s1,
                (t0 + FULL_TURN_TIME_NS) as u64,
                Direction::Down,
                true,
                id,
            );
            s2[id.spec_index()] matches Some(en) && en.move_start is None && en.ang == 7
                && en.pos == (100 * (FULL_TURN_TIME_NS as int)) / (FULL_TRAVEL_TIME_NS as int)
        }),
{
    let s1 = spec_track(pre, t0, Direction::Up, false, id);
    let t1 = (t0 + FULL_TURN_TIME_NS) as u64;
    let idx = id.spec_index();
    assert(s1[idx] matches Some(en1) && en1.move_start == Some(t0) && en1.dir == Direction::Up
        && en1.pos == 0 && en1.ang == 0);
    assert((t1 - t0) as u64 == FULL_TURN_TIME_NS);
    assert(spec_shortened_ang(0, Direction::Up, FULL_TURN_TIME_NS) == 7);
    assert((100 * (FULL_TURN_TIME_NS as int)) / (FULL_TRAVEL_TIME_NS as int) < 100);
    assert(spec_shortened_pos(0, Direction::Up, FULL_TURN_TIME_NS) == (100 * (
    FULL_TURN_TIME_NS as int)) / (FULL_TRAVEL_TIME_NS as int));
}

} // verus!
