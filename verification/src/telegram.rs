//! Classification of received cEMI telegrams into estimator events.
//!
//! The estimator consumes only group writes on the wind-alarm address, the
//! legacy wind-speed address, and the per-blind cover addresses; every other
//! telegram is logged and ignored.

use vstd::prelude::*;

use crate::cemi::{
    cEMIMsg, spec_dest, spec_group_data, spec_is_group_write, MessageCode,
    KDRIVE_CEMI_L_DATA_CON, KDRIVE_CEMI_L_DATA_IND,
};
use crate::frame::KDriveErr;
use crate::types::{Blind, Direction, BUS_START_ADDR, CMD_SINGLE_STEP};

verus! {

/// Group address of the wind-alarm broadcast.
pub const WIND_ALARM_ADDR: u16 = 1;

/// Group address of the legacy wind-speed telemetry.
pub const WIND_SPEED_ADDR: u16 = 2;

/// The address commands one of the blind covers: the full-move family
/// `0x10..` or the single-step family `0x11..`.
pub open spec fn spec_is_cover_addr(addr: u16) -> bool {
    0x1000 <= addr <= 0x11FF
}

/// Whether the address commands one of the blind covers.
#[verifier::when_used_as_spec(spec_is_cover_addr)]
pub fn is_cover_addr(addr: u16) -> (r: bool)
    ensures
        r == spec_is_cover_addr(addr),
{
    0x1000 <= addr && addr <= 0x11FF
}

/// What a received telegram asks of the estimator.
#[derive(Debug, Clone, Copy, PartialEq, Eq, Structural)]
pub enum TelegramAction {
    /// Wind alarm: all blinds are driven up; the estimator restarts every
    /// entry.
    WindAlarm,
    /// Legacy wind-speed telemetry; informational only.
    WindSpeed(u16),
    /// A move or step command observed (or confirmed) on one cover.
    Cover { blind: Blind, direction: Direction, single_step: bool },
    /// Anything else: logged and ignored.
    Ignore,
}

/// The telegram is a wind-alarm broadcast: an unsolicited group write to the
/// alarm address whose payload is anything but the single byte 0.
pub open spec fn spec_wind_alarm_telegram(d: Seq<u8>) -> bool {
    &&& spec_is_group_write(d)
    &&& d[0] == KDRIVE_CEMI_L_DATA_IND
    &&& spec_dest(d) == Ok::<u16, KDriveErr>(WIND_ALARM_ADDR)
    &&& (spec_group_data(d) matches Ok(g) && g != seq![0u8])
}

/// The telegram carries wind-speed telemetry: an unsolicited group write to
/// the telemetry address with at least two data bytes.
pub open spec fn spec_wind_speed_telegram(d: Seq<u8>) -> bool {
    &&& spec_is_group_write(d)
    &&& d[0] == KDRIVE_CEMI_L_DATA_IND
    &&& spec_dest(d) == Ok::<u16, KDriveErr>(WIND_SPEED_ADDR)
    &&& (spec_group_data(d) matches Ok(g) && g.len() >= 2)
}

/// The telegram is a cover command the estimator tracks: a group write,
/// seen as an indication or as the confirmation of the host's own request,
/// to a cover address whose low byte names one of the eight blinds, with a
/// one-byte payload.
pub open spec fn spec_cover_telegram(d: Seq<u8>) -> bool {
    &&& spec_is_group_write(d)
    &&& (d[0] == KDRIVE_CEMI_L_DATA_IND || d[0] == KDRIVE_CEMI_L_DATA_CON)
    &&& (spec_dest(d) matches Ok(a) && spec_is_cover_addr(a) && BUS_START_ADDR <= a % 256
        <= BUS_START_ADDR + 7)
    &&& (spec_group_data(d) matches Ok(g) && g.len() == 1)
}

/// Classify one received telegram for the estimator. Exactly the wind-alarm,
/// wind-speed and tracked-cover telegrams are recognized; everything else —
/// non-group-writes, short frames, foreign addresses, multi-byte cover
/// payloads — is ignored.
pub fn on_telegram(data: &cEMIMsg) -> (r: TelegramAction)
    ensures
        spec_wind_alarm_telegram(data@) ==> r is WindAlarm,
        spec_wind_speed_telegram(data@) ==> (r matches TelegramAction::WindSpeed(w) && ({
            let g = spec_group_data(data@)->Ok_0;
            w == g[0] * 256 + g[1]
        })),
        spec_cover_telegram(data@) ==> (r matches TelegramAction::Cover {
            blind,
            direction,
            single_step,
        } && ({
            let a = spec_dest(data@)->Ok_0;
            let g = spec_group_data(data@)->Ok_0;
            &&& blind@ == a % 256
            &&& direction == (if g[0] == 0 {
                Direction::Up
            } else {
                Direction::Down
            })
            &&& single_step == ((a - a % 256) as u16 == CMD_SINGLE_STEP)
        })),
        !spec_wind_alarm_telegram(data@) && !spec_wind_speed_telegram(data@)
            && !spec_cover_telegram(data@) ==> r is Ignore,
{
    if !data.is_group_write() {
        return TelegramAction::Ignore;
    }
    let addr = match data.get_dest() {
        Ok(a) => a,
        Err(_) => {
            return TelegramAction::Ignore;
        },
    };
    let g = match data.get_group_data() {
        Ok(g) => g,
        Err(_) => {
            return TelegramAction::Ignore;
        },
    };
    let code = MessageCode::from_u8(data.get_msg_code());
    if code == MessageCode::LDataInd {
        if addr == WIND_ALARM_ADDR {
            if g.len() == 1 && g[0] == 0 {
                proof {
                    assert(g@ =~= seq![0u8]);
                }
                return TelegramAction::Ignore;
            }
            return TelegramAction::WindAlarm;
        }
        if addr == WIND_SPEED_ADDR {
            if g.len() >= 2 {
                return TelegramAction::WindSpeed((g[0] as u16) * 256 + g[1] as u16);
            }
            return TelegramAction::Ignore;
        }
        if is_cover_addr(addr) && g.len() == 1 {
            return cover_action(addr, g[0]);
        }
        return TelegramAction::Ignore;
    }
    if code == MessageCode::LDataCon && is_cover_addr(addr) && g.len() == 1 {
        return cover_action(addr, g[0]);
    }
    TelegramAction::Ignore
}

/// Cover event of a tracked group write: which blind, which direction, and
/// whether it was a single step; `Ignore` when the low byte does not name
/// one of the eight blinds.
fn cover_action(addr: u16, val: u8) -> (r: TelegramAction)
    requires
        spec_is_cover_addr(addr),
    ensures
        BUS_START_ADDR <= addr % 256 <= BUS_START_ADDR + 7 ==> (r
            matches TelegramAction::Cover { blind, direction, single_step } && blind@ == addr % 256
            && direction == (if val == 0 {
            Direction::Up
        } else {
            Direction::Down
        }) && single_step == ((addr - addr % 256) as u16 == CMD_SINGLE_STEP)),
        !(BUS_START_ADDR <= addr % 256 <= BUS_START_ADDR + 7) ==> r is Ignore,
{
    match Blind::from_bus_addr(addr) {
        Ok((blind, single_step)) => {
            let direction = if val == 0 {
                Direction::Up
            } else {
                Direction::Down
            };
            TelegramAction::Cover { blind, direction, single_step }
        },
        Err(_) => TelegramAction::Ignore,
    }
}

} // verus!
