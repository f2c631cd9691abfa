//! Address model and per-blind position / slat-angle values.
//!
//! A blind is one of eight logical covers `a..h`, carried on the bus as the
//! byte `0xAA + (letter - 'a')`; the value 0 is the reserved wind-alarm
//! pseudo-blind. Positions run 0 (bottom) to 100 (top), slat angles 0
//! (closed down) to 7 (closed up).

use vstd::arithmetic::div_mod::lemma_multiply_divide_lt;
use vstd::prelude::*;

use crate::{FULL_TRAVEL_TIME_NS, FULL_TURN_TIME_NS};

verus! {

/// Direction of a blind move: `Up` opens, `Down` closes.
#[derive(Debug, Clone, Copy, PartialEq, Eq, Structural)]
pub enum Direction {
    Up,
    Down,
}

impl Direction {
    /// Wire encoding of the direction in a group-write payload byte.
    pub fn code(self) -> (r: u8)
        ensures
            r == self.spec_code(),
    {
        match self {
            Direction::Up => 0,
            Direction::Down => 1,
        }
    }

    /// Wire encoding: 0 for up, 1 for down.
    pub open spec fn spec_code(self) -> u8 {
        match self {
            Direction::Up => 0,
            Direction::Down => 1,
        }
    }

    /// The other direction.
    pub fn opposite(self) -> (r: Direction)
        ensures
            r == self.spec_opposite(),
    {
        match self {
            Direction::Up => Direction::Down,
            Direction::Down => Direction::Up,
        }
    }

    /// The other direction.
    pub open spec fn spec_opposite(self) -> Direction {
        match self {
            Direction::Up => Direction::Down,
            Direction::Down => Direction::Up,
        }
    }
}

/// Bus identity of a blind: its group-address low byte, or 0 for the
/// wind-alarm pseudo-blind.
#[derive(Debug, Clone, Copy, PartialEq, Eq, Structural, Hash)]
pub struct Blind(u8);

/// Group-address low byte of blind `a`.
pub const BUS_START_ADDR: u8 = 0xaa;

/// High byte family of single-step (stop / slat tick) commands.
pub const CMD_SINGLE_STEP: u16 = 0x1100;

/// High byte family of full-move commands.
pub const CMD_FULL_MOVE: u16 = 0x1000;

impl View for Blind {
    type V = u8;

    closed spec fn view(&self) -> u8 {
        self.0
    }
}

impl Blind {
    /// The identity is one of the eight covers `a..h`.
    pub open spec fn spec_is_cover(self) -> bool {
        BUS_START_ADDR <= self@ <= BUS_START_ADDR + 7
    }

    /// Whether the identity is one of the eight covers `a..h`.
    #[verifier::when_used_as_spec(spec_is_cover)]
    pub fn is_cover(self) -> (r: bool)
        ensures
            r == self.spec_is_cover(),
    {
        BUS_START_ADDR <= self.0 && self.0 <= BUS_START_ADDR + 7
    }

    /// The identity is the reserved wind-alarm pseudo-blind.
    pub open spec fn spec_is_wind(self) -> bool {
        self@ == 0
    }

    /// Whether the identity is the reserved wind-alarm pseudo-blind.
    #[verifier::when_used_as_spec(spec_is_wind)]
    pub fn is_wind(self) -> (r: bool)
        ensures
            r == self.spec_is_wind(),
    {
        self.0 == 0
    }

    /// A valid identity: a cover or the wind pseudo-blind.
    pub open spec fn wf(self) -> bool {
        self.is_cover() || self.is_wind()
    }

    /// Index of a cover blind in `0..8`, counted from blind `a`.
    pub open spec fn spec_index(self) -> int {
        self@ - BUS_START_ADDR
    }

    /// Convert the port letter on the KNX controller (`a..h`) to a `Blind`.
    pub fn from_port(c: u8) -> (r: Blind)
        requires
            97 <= c <= 104,  // letters 'a' to 'h'
        ensures
            r@ == c - 97 + BUS_START_ADDR,
            r.is_cover(),
    {
        Blind(c - 97 + BUS_START_ADDR)
    }

    /// Classify a KNX group address: `Ok((blind, is_single_step))` when the
    /// low byte names one of the eight covers and the high byte is one of the
    /// two command families, else the raw `(low, high)` parts for logging.
    pub fn from_bus_addr(addr: u16) -> (r: Result<(Blind, bool), (u8, u16)>)
        ensures
            ({
                let lower = addr % 256;
                let upper = (addr - addr % 256) as u16;
                if BUS_START_ADDR <= lower <= BUS_START_ADDR + 7 && (upper == CMD_FULL_MOVE
                    || upper == CMD_SINGLE_STEP) {
                    r matches Ok((b, ss)) && b@ == lower && ss == (upper == CMD_SINGLE_STEP)
                } else {
                    r == Err::<(Blind, bool), (u8, u16)>((lower as u8, upper))
                }
            }),
    {
        let lower: u8 = (addr % 256) as u8;
        let upper: u16 = addr - addr % 256;
        if BUS_START_ADDR <= lower && lower <= BUS_START_ADDR + 7 && (upper == CMD_FULL_MOVE
            || upper == CMD_SINGLE_STEP) {
            Ok((Blind(lower), upper == CMD_SINGLE_STEP))
        } else {
            Err((lower, upper))
        }
    }

    /// Group address that commands this blind: the single-step family when
    /// `single_step` is set, else the full-move family.
    pub fn to_bus_addr(self, single_step: bool) -> (r: u16)
        requires
            self.is_cover(),
        ensures
            r == (if single_step {
                CMD_SINGLE_STEP + self@
            } else {
                CMD_FULL_MOVE + self@
            }),
    {
        if single_step {
            CMD_SINGLE_STEP + self.0 as u16
        } else {
            CMD_FULL_MOVE + self.0 as u16
        }
    }

    /// Port letter (`a..h`) of a cover blind.
    pub fn letter(self) -> (r: char)
        requires
            self.is_cover(),
        ensures
            r as int == self.spec_index() + 97,
    {
        (self.0 - BUS_START_ADDR + 97) as char
    }

    /// The reserved wind-alarm pseudo-blind.
    pub fn wind() -> (r: Blind)
        ensures
            r.is_wind(),
    {
        Blind(0)
    }

    /// Index of a cover blind in `0..8`, for keying the estimator store.
    pub fn index(self) -> (r: usize)
        requires
            self.is_cover(),
        ensures
            r == self.spec_index(),
            r < 8,
    {
        (self.0 - BUS_START_ADDR) as usize
    }
}

/// Distance a moving part covers in `elapsed` nanoseconds, on a scale whose
/// endpoint is `max` and whose full traversal takes `full_time` nanoseconds.
pub open spec fn travel_steps(max: int, elapsed: u64, full_time: u64) -> int {
    max * elapsed / full_time as int
}

/// Scale value after moving up from `cur` for `elapsed` nanoseconds:
/// saturating at `max`, and snapping to `max` once a full traversal has
/// elapsed.
pub open spec fn moved_up(cur: int, max: int, elapsed: u64, full_time: u64) -> int {
    if elapsed >= full_time {
        max
    } else if cur + travel_steps(max, elapsed, full_time) >= max {
        max
    } else {
        cur + travel_steps(max, elapsed, full_time)
    }
}

/// Scale value after moving down from `cur` for `elapsed` nanoseconds:
/// saturating at 0, and snapping to 0 once a full traversal has elapsed.
pub open spec fn moved_down(cur: int, max: int, elapsed: u64, full_time: u64) -> int {
    if elapsed >= full_time {
        0
    } else if cur - travel_steps(max, elapsed, full_time) <= 0 {
        0
    } else {
        cur - travel_steps(max, elapsed, full_time)
    }
}

/// Steps covered in `elapsed < full_time` nanoseconds on a scale of `max`
/// steps per `full_time`; always below `max`.
fn travel_delta(max: u64, elapsed: u64, full_time: u64) -> (r: u64)
    requires
        0 < full_time,
        elapsed < full_time,
        max <= 100,
        max * full_time <= u64::MAX,
    ensures
        r == travel_steps(max as int, elapsed, full_time),
        r < max || max == 0,
{
    proof {
        assert((max as int) * (elapsed as int) <= (max as int) * (full_time as int)) by (nonlinear_arith)
            requires
                elapsed <= full_time,
                max >= 0,
        ;
        if max > 0 {
            assert((max as int) * (elapsed as int) < (full_time as int) * (max as int)) by (nonlinear_arith)
                requires
                    elapsed < full_time,
                    max > 0,
            ;
            lemma_multiply_divide_lt((max as int) * (elapsed as int), full_time as int, max as int);
        }
    }
    max * elapsed / full_time
}

/// Slat angle of a blind: 0 (closed down) to 7 (closed up).
#[derive(Debug, Clone, Copy, PartialEq, Eq, Structural)]
pub struct Angle(u8);

/// Highest slat angle.
pub const ANGLE_MAX: u8 = 7;

impl View for Angle {
    type V = u8;

    closed spec fn view(&self) -> u8 {
        self.0
    }
}

impl Angle {
    /// The stored angle is on the scale.
    pub open spec fn wf(self) -> bool {
        self@ <= ANGLE_MAX
    }

    /// Fully open slats.
    pub fn top() -> (r: Angle)
        ensures
            r@ == ANGLE_MAX,
            r.wf(),
    {
        Angle(ANGLE_MAX)
    }

    /// Fully closed slats.
    pub fn bottom() -> (r: Angle)
        ensures
            r@ == 0,
            r.wf(),
    {
        Angle(0)
    }

    /// Angle after the slats turned upward for `time_moving` nanoseconds.
    pub fn up(&mut self, time_moving: u64)
        requires
            old(self).wf(),
        ensures
            final(self).wf(),
            final(self)@ == moved_up(old(self)@ as int, ANGLE_MAX as int, time_moving, FULL_TURN_TIME_NS),
    {
        if time_moving >= FULL_TURN_TIME_NS {
            self.0 = ANGLE_MAX;
            return ;
        }
        let div = travel_delta(ANGLE_MAX as u64, time_moving, FULL_TURN_TIME_NS);
        let t = self.0 + div as u8;
        if t > ANGLE_MAX {
            self.0 = ANGLE_MAX;
        } else {
            self.0 = t;
        }
    }

    /// Angle after the slats turned downward for `time_moving` nanoseconds.
    pub fn down(&mut self, time_moving: u64)
        requires
            old(self).wf(),
        ensures
            final(self).wf(),
            final(self)@ == moved_down(
                old(self)@ as int,
                ANGLE_MAX as int,
                time_moving,
                FULL_TURN_TIME_NS,
            ),
    {
        if time_moving >= FULL_TURN_TIME_NS {
            self.0 = 0;
            return ;
        }
        let div = travel_delta(ANGLE_MAX as u64, time_moving, FULL_TURN_TIME_NS) as u8;
        if self.0 >= div {
            self.0 = self.0 - div;
        } else {
            self.0 = 0;
        }
    }

    /// Nudge the angle up by `arg` units, saturating at the top; reports
    /// whether it saturated.
    pub fn step_up(&mut self, arg: u8) -> (saturated: bool)
        requires
            old(self).wf(),
            arg <= 248,  // the sum must fit the byte
        ensures
            final(self).wf(),
            final(self)@ == (if old(self)@ + arg > ANGLE_MAX {
                ANGLE_MAX as int
            } else {
                old(self)@ + arg
            }),
            saturated == (old(self)@ + arg > ANGLE_MAX),
    {
        let t = self.0 + arg;
        if t > ANGLE_MAX {
            self.0 = ANGLE_MAX;
            true
        } else {
            self.0 = t;
            false
        }
    }

    /// Nudge the angle down by `arg` units, saturating at 0; reports whether
    /// it saturated.
    pub fn step_down(&mut self, arg: u8) -> (saturated: bool)
        requires
            old(self).wf(),
        ensures
            final(self).wf(),
            final(self)@ == (if old(self)@ >= arg {
                old(self)@ - arg
            } else {
                0
            }),
            saturated == (old(self)@ < arg),
    {
        if self.0 >= arg {
            self.0 = self.0 - arg;
            false
        } else {
            self.0 = 0;
            true
        }
    }

    /// Nanoseconds of movement that cover `steps` angle units.
    pub fn step_time(steps: u8) -> (r: u64)
        requires
            steps <= ANGLE_MAX,
        ensures
            r == FULL_TURN_TIME_NS as int * steps / ANGLE_MAX as int,
    {
        FULL_TURN_TIME_NS * steps as u64 / ANGLE_MAX as u64
    }

    /// Direction and unit count from this angle to `other`: down when
    /// `other` is smaller, else up.
    pub fn delta(&self, other: Angle) -> (r: (Direction, u8))
        ensures
            self@ > other@ ==> r == (Direction::Down, (self@ - other@) as u8),
            self@ <= other@ ==> r == (Direction::Up, (other@ - self@) as u8),
    {
        if self.0 > other.0 {
            (Direction::Down, self.0 - other.0)
        } else {
            (Direction::Up, other.0 - self.0)
        }
    }

    /// Angle from a raw unit count on the scale.
    pub fn from_num(n: u8) -> (r: Angle)
        requires
            n <= ANGLE_MAX,
        ensures
            r@ == n,
            r.wf(),
    {
        Angle(n)
    }

    /// Raw unit count of the angle.
    pub fn as_num(self) -> (r: u8)
        ensures
            r == self@,
    {
        self.0
    }
}

/// Position of a blind: 0 (bottom) to 100 (top).
#[derive(Debug, Clone, Copy, PartialEq, Eq, Structural)]
pub struct Pos(u8);

/// Highest position.
pub const POS_MAX: u8 = 100;

impl View for Pos {
    type V = u8;

    closed spec fn view(&self) -> u8 {
        self.0
    }
}

impl Pos {
    /// The stored position is on the scale.
    pub open spec fn wf(self) -> bool {
        self@ <= POS_MAX
    }

    /// Fully open (at the top).
    pub fn top() -> (r: Pos)
        ensures
            r@ == POS_MAX,
            r.wf(),
    {
        Pos(POS_MAX)
    }

    /// Fully closed (at the bottom).
    pub fn bottom() -> (r: Pos)
        ensures
            r@ == 0,
            r.wf(),
    {
        Pos(0)
    }

    /// Position after the blind moved up for `time_moving` nanoseconds.
    pub fn up(&mut self, time_moving: u64)
        requires
            old(self).wf(),
        ensures
            final(self).wf(),
            final(self)@ == moved_up(old(self)@ as int, POS_MAX as int, time_moving, FULL_TRAVEL_TIME_NS),
    {
        if time_moving >= FULL_TRAVEL_TIME_NS {
            self.0 = POS_MAX;
            return ;
        }
        let div = travel_delta(POS_MAX as u64, time_moving, FULL_TRAVEL_TIME_NS);
        let t = self.0 + div as u8;
        if t > POS_MAX {
            self.0 = POS_MAX;
        } else {
            self.0 = t;
        }
    }

    /// Position after the blind moved down for `time_moving` nanoseconds.
    pub fn down(&mut self, time_moving: u64)
        requires
            old(self).wf(),
        ensures
            final(self).wf(),
            final(self)@ == moved_down(
                old(self)@ as int,
                POS_MAX as int,
                time_moving,
                FULL_TRAVEL_TIME_NS,
            ),
    {
        if time_moving >= FULL_TRAVEL_TIME_NS {
            self.0 = 0;
            return ;
        }
        let div = travel_delta(POS_MAX as u64, time_moving, FULL_TRAVEL_TIME_NS) as u8;
        if self.0 >= div {
            self.0 = self.0 - div;
        } else {
            self.0 = 0;
        }
    }

    /// Nanoseconds of movement that cover `steps` position units.
    pub fn step_time(steps: u8) -> (r: u64)
        requires
            steps <= POS_MAX,
        ensures
            r == FULL_TRAVEL_TIME_NS as int * steps / POS_MAX as int,
    {
        FULL_TRAVEL_TIME_NS * steps as u64 / POS_MAX as u64
    }

    /// Direction and unit count from this position to `other`: down when
    /// `other` is smaller, else up.
    pub fn delta(&self, other: Pos) -> (r: (Direction, u8))
        ensures
            self@ > other@ ==> r == (Direction::Down, (self@ - other@) as u8),
            self@ <= other@ ==> r == (Direction::Up, (other@ - self@) as u8),
    {
        if self.0 > other.0 {
            (Direction::Down, self.0 - other.0)
        } else {
            (Direction::Up, other.0 - self.0)
        }
    }

    /// Position from a raw unit count on the scale.
    pub fn from_num(n: u8) -> (r: Pos)
        requires
            n <= POS_MAX,
        ensures
            r@ == n,
            r.wf(),
    {
        Pos(n)
    }

    /// Raw unit count of the position.
    pub fn as_num(self) -> (r: u8)
        ensures
            r == self@,
    {
        self.0
    }
}

} // verus!
