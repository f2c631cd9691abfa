//! Motion planner: decompose a "go to position, angle" request into a timed
//! sequence of momentary bus commands.
//!
//! The blinds expose only full-move and single-step commands, so reaching an
//! absolute target means moving for a computed time and then stopping. The
//! planner consults the estimator once, keeps a local mirror of position and
//! angle through the plan, and leaves the estimator itself to be updated by
//! the bus echoes of the emitted commands.

use vstd::prelude::*;

use crate::tracking::{
    spec_shortened_ang, spec_shortened_pos, StateStore,
};
use crate::types::{Angle, Blind, Direction, Pos, CMD_FULL_MOVE, CMD_SINGLE_STEP};
use crate::{FULL_TRAVEL_TIME_NS, FULL_TURN_TIME_NS};

verus! {

/// One step of a motion plan.
#[derive(Debug, Clone, Copy, PartialEq, Eq, Structural)]
pub enum PlanStep {
    /// Write the one-byte direction code to the group address.
    Send { addr: u16, direction: Direction },
    /// Wait this many nanoseconds before the next step.
    Sleep { ns: u64 },
}

/// Full-move group address of a blind.
pub open spec fn spec_addr_full(id: Blind) -> u16 {
    (CMD_FULL_MOVE + id@) as u16
}

/// Single-step group address of a blind.
pub open spec fn spec_addr_step(id: Blind) -> u16 {
    (CMD_SINGLE_STEP + id@) as u16
}

/// Nanoseconds of travel that cover `steps` position units.
pub open spec fn spec_pos_sleep(steps: int) -> u64 {
    (FULL_TRAVEL_TIME_NS * steps / 100) as u64
}

/// Nanoseconds of turning that cover `steps` angle units.
pub open spec fn spec_ang_sleep(steps: int) -> u64 {
    (FULL_TURN_TIME_NS * steps / 7) as u64
}

/// Direction and unit count from `cur` to `target` on one scale: down when
/// the target is smaller, else up.
pub open spec fn spec_delta(cur: int, target: int) -> (Direction, int) {
    if cur > target {
        (Direction::Down, cur - target)
    } else {
        (Direction::Up, target - cur)
    }
}

/// The estimator's belief the planner starts from: the stored position and
/// angle, or nothing while the blind is unknown.
pub open spec fn spec_current_belief(
    store: Seq<Option<crate::tracking::BlindEntry>>,
    id: Blind,
) -> Option<(int, int)> {
    match store[id.spec_index()] {
        Some(en) => Some((en.pos as int, en.ang as int)),
        None => None,
    }
}

/// The plan for driving blind `id` from belief `cur` to `(tp, ta)`:
/// - both targets at an endpoint: one full move, nothing else;
/// - unknown start: drive fully toward the endpoint nearer the target, wait
///   out a full travel, and continue from that endpoint;
/// - position phase: a full move held for the scaled travel time, with the
///   local mirror advanced by exactly that time;
/// - angle phase: a stop if the mirror already shows the target angle, else
///   a full move held for the scaled turn time and then a stop.
pub open spec fn spec_move_plan(id: Blind, tp: int, ta: int, cur: Option<(int, int)>) -> Seq<
    PlanStep,
> {
    if tp == 0 && ta == 0 {
        seq![PlanStep::Send { addr: spec_addr_full(id), direction: Direction::Down }]
    } else if tp == 100 && ta == 7 {
        seq![PlanStep::Send { addr: spec_addr_full(id), direction: Direction::Up }]
    } else {
        let (start, prefix): ((int, int), Seq<PlanStep>) = match cur {
            Some(c) => (c, Seq::empty()),
            None => {
                let bootstrap_dir = spec_delta(50, tp).0;
                (
                    (
                        match bootstrap_dir {
                            Direction::Up => (100int, 7int),
                            Direction::Down => (0int, 0int),
                        }
                    ),
                    seq![
                        PlanStep::Send { addr: spec_addr_full(id), direction: bootstrap_dir },
                        PlanStep::Sleep { ns: FULL_TRAVEL_TIME_NS },
                    ],
                )
            },
        };
        let (pdir, pdiv) = spec_delta(start.0, tp);
        let (mid, with_pos): ((int, int), Seq<PlanStep>) = if pdiv > 0 {
            let ttm = spec_pos_sleep(pdiv);
            (
                (
                    spec_shortened_pos(start.0, pdir, ttm),
                    spec_shortened_ang(start.1, pdir, ttm),
                ),
                prefix + seq![
                    PlanStep::Send { addr: spec_addr_full(id), direction: pdir },
                    PlanStep::Sleep { ns: ttm },
                ],
            )
        } else {
            (start, prefix)
        };
        if mid.1 == ta {
            if pdiv > 0 {
                with_pos + seq![PlanStep::Send { addr: spec_addr_step(id), direction: pdir }]
            } else {
                with_pos
            }
        } else {
            let (adir, adiv) = spec_delta(mid.1, ta);
            with_pos + seq![
                PlanStep::Send { addr: spec_addr_full(id), direction: adir },
                PlanStep::Sleep { ns: spec_ang_sleep(adiv) },
                PlanStep::Send { addr: spec_addr_step(id), direction: adir },
            ]
        }
    }
}

/// Compute the plan that drives `id` to `(target_p, target_a)`, starting
/// from the estimator's current belief. The plan is exactly
/// `spec_move_plan`; the estimator is not written — it learns of the
/// commands from their bus echoes.
#[verifier::rlimit(100)]
pub fn move_to_pos(id: Blind, target_p: Pos, target_a: Angle, states: &StateStore) -> (r: Vec<
    PlanStep,
>)
    requires
        id.is_cover(),
        target_p.wf(),
        target_a.wf(),
        states.wf(),
    ensures
        r@ == spec_move_plan(
            id,
            target_p@ as int,
            target_a@ as int,
            spec_current_belief(states@, id),
        ),
{
    let mut plan: Vec<PlanStep> = Vec::new();
    let full_addr = id.to_bus_addr(false);
    let step_addr = id.to_bus_addr(true);

    // short-circuit the two full-range targets
    if target_p.as_num() == 0 && target_a.as_num() == 0 {
        plan.push(PlanStep::Send { addr: full_addr, direction: Direction::Down });
        proof {
            assert(plan@ =~= spec_move_plan(
                id,
                target_p@ as int,
                target_a@ as int,
                spec_current_belief(states@, id),
            ));
        }
        return plan;
    }
    if target_p.as_num() == 100 && target_a.as_num() == 7 {
        plan.push(PlanStep::Send { addr: full_addr, direction: Direction::Up });
        proof {
            assert(plan@ =~= spec_move_plan(
                id,
                target_p@ as int,
                target_a@ as int,
                spec_current_belief(states@, id),
            ));
        }
        return plan;
    }

    let (mut current_position, mut current_angle): (Pos, Angle) = match states.get(id) {
        Some(en) => (Pos::from_num(en.pos), Angle::from_num(en.ang)),
        None => {
            // unknown: drive fully toward the endpoint nearer the target
            let (dir, _) = Pos::from_num(50).delta(target_p);
            plan.push(PlanStep::Send { addr: full_addr, direction: dir });
            plan.push(PlanStep::Sleep { ns: FULL_TRAVEL_TIME_NS });
            match dir {
                Direction::Up => (Pos::top(), Angle::top()),
                Direction::Down => (Pos::bottom(), Angle::bottom()),
            }
        },
    };

    let (pdir, pdiv) = current_position.delta(target_p);
    if pdiv > 0 {
        let ttm = Pos::step_time(pdiv);
        plan.push(PlanStep::Send { addr: full_addr, direction: pdir });
        plan.push(PlanStep::Sleep { ns: ttm });
        // advance the local mirror; bus echoes drive the estimator itself
        crate::tracking::shortened_move(id, ttm, pdir, &mut current_position, &mut current_angle);
    }
    if current_angle.as_num() == target_a.as_num() {
        if pdiv > 0 {
            plan.push(PlanStep::Send { addr: step_addr, direction: pdir });
        }
        proof {
            assert(plan@ =~= spec_move_plan(
                id,
                target_p@ as int,
                target_a@ as int,
                spec_current_belief(states@, id),
            ));
        }
        return plan;
    }
    let (adir, adiv) = current_angle.delta(target_a);
    plan.push(PlanStep::Send { addr: full_addr, direction: adir });
    plan.push(PlanStep::Sleep { ns: Angle::step_time(adiv) });
    plan.push(PlanStep::Send { addr: step_addr, direction: adir });
    proof {
        assert(plan@ =~= spec_move_plan(
            id,
            target_p@ as int,
            target_a@ as int,
            spec_current_belief(states@, id),
        ));
    }
    plan
}

} // verus!
