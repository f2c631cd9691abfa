//! Decisions of the external collaborators' command surfaces: the
//! line-oriented TCP protocol and the broker topics.
//!
//! Only the decoding and reply computations live here; the sockets and the
//! broker client stay outside the library and call in with plain bytes.

use vstd::prelude::*;

use crate::tracking::BlindEntry;
use crate::types::{Angle, Blind, Direction};

verus! {

/// Why a command line was refused.
#[derive(Debug, Clone, Copy, PartialEq, Eq, Structural)]
pub enum CmdErr {
    /// The target token names no known blind or group.
    InvalidData,
}

/// End of the first space-separated token: the index of the first space, or
/// the whole length when there is none.
pub fn first_token_end(buf: &[u8]) -> (r: usize)
    ensures
        r <= buf@.len(),
        forall|j: int| 0 <= j < r ==> buf@[j] != 32,
        r < buf@.len() ==> buf@[r as int] == 32,
{
    let mut i: usize = 0;
    while i < buf.len() && buf[i] != 32
        invariant
            i <= buf@.len(),
            forall|j: int| 0 <= j < i ==> buf@[j] != 32,
        decreases buf@.len() - i,
    {
        i = i + 1;
    }
    i
}

/// Bus code a single-blind target name stands for, if any: the wall names
/// `W1..W4`, the balcony doors `BL`/`BR`, the bedroom `S` and the kitchen
/// `K`.
pub open spec fn spec_target_code(s: Seq<u8>) -> Option<u8> {
    if s.len() == 2 && s[0] == 87 && s[1] == 50 {  // "W2"
        Some(0xb1u8)
    } else if s.len() == 2 && s[0] == 66 && s[1] == 82 {  // "BR"
        Some(0xb0u8)
    } else if s.len() == 2 && s[0] == 87 && s[1] == 49 {  // "W1"
        Some(0xafu8)
    } else if s.len() == 2 && s[0] == 87 && s[1] == 52 {  // "W4"
        Some(0xaeu8)
    } else if s.len() == 2 && s[0] == 66 && s[1] == 76 {  // "BL"
        Some(0xadu8)
    } else if s.len() == 2 && s[0] == 87 && s[1] == 51 {  // "W3"
        Some(0xacu8)
    } else if s.len() == 1 && s[0] == 83 {  // "S"
        Some(0xabu8)
    } else if s.len() == 1 && s[0] == 75 {  // "K"
        Some(0xaau8)
    } else {
        None
    }
}

/// Resolve a single-blind target name to its blind.
pub fn get_addr(c: &[u8]) -> (r: Result<Blind, CmdErr>)
    ensures
        spec_target_code(c@) matches Some(code) ==> (r matches Ok(b) && b@ == code
            && b.is_cover()),
        spec_target_code(c@) is None ==> r == Err::<Blind, CmdErr>(CmdErr::InvalidData),
{
    if c.len() == 2 && c[0] == 87 && c[1] == 50 {
        Ok(Blind::from_port(104))  // 'h'
    } else if c.len() == 2 && c[0] == 66 && c[1] == 82 {
        Ok(Blind::from_port(103))  // 'g'
    } else if c.len() == 2 && c[0] == 87 && c[1] == 49 {
        Ok(Blind::from_port(102))  // 'f'
    } else if c.len() == 2 && c[0] == 87 && c[1] == 52 {
        Ok(Blind::from_port(101))  // 'e'
    } else if c.len() == 2 && c[0] == 66 && c[1] == 76 {
        Ok(Blind::from_port(100))  // 'd'
    } else if c.len() == 2 && c[0] == 87 && c[1] == 51 {
        Ok(Blind::from_port(99))  // 'c'
    } else if c.len() == 1 && c[0] == 83 {
        Ok(Blind::from_port(98))  // 'b'
    } else if c.len() == 1 && c[0] == 75 {
        Ok(Blind::from_port(97))  // 'a'
    } else {
        Err(CmdErr::InvalidData)
    }
}

/// Blind named by the first byte of a broker topic segment: the port
/// letters `a..h`.
pub fn blind_from_str(id: &[u8]) -> (r: Option<Blind>)
    ensures
        id@.len() >= 1 && 97 <= id@[0] <= 104 ==> (r matches Some(b) && b@ == id@[0] - 97 + 0xaa),
        !(id@.len() >= 1 && 97 <= id@[0] <= 104) ==> r is None,
{
    if id.len() == 0 {
        return None;
    }
    let c = id[0];
    if 97 <= c && c <= 104 {
        Some(Blind::from_port(c))
    } else {
        None
    }
}

/// Bus codes of the blinds a target token addresses, in command order:
/// `A` is all eight, `B` the balcony pair, `W` the wall four, anything else
/// a single named blind.
pub open spec fn spec_target_codes(s: Seq<u8>) -> Option<Seq<u8>> {
    if s.len() == 1 && s[0] == 65 {  // "A"
        Some(Seq::new(8, |i: int| (0xaa + i) as u8))
    } else if s.len() == 1 && s[0] == 66 {  // "B"
        Some(seq![0xb0u8, 0xadu8])
    } else if s.len() == 1 && s[0] == 87 {  // "W"
        Some(seq![0xb1u8, 0xafu8, 0xaeu8, 0xacu8])
    } else {
        match spec_target_code(s) {
            Some(code) => Some(seq![code]),
            None => None,
        }
    }
}

/// The blinds a target token addresses, handed out in order.
pub struct TargetIter {
    items: Vec<Blind>,
    at: usize,
}

impl View for TargetIter {
    type V = Seq<u8>;

    closed spec fn view(&self) -> Seq<u8> {
        self.items@.skip(self.at as int).map_values(|b: Blind| b@)
    }
}

impl TargetIter {
    /// Position and contents are consistent, and every target is a cover.
    pub closed spec fn wf(self) -> bool {
        self.at <= self.items@.len() && forall|i: int|
            0 <= i < self.items@.len() ==> (#[trigger] self.items@[i]).is_cover()
    }

    /// Resolve a target token to the blinds it addresses.
    pub fn new(target: &[u8]) -> (r: Result<TargetIter, CmdErr>)
        ensures
            spec_target_codes(target@) matches Some(codes) ==> (r matches Ok(it) && it.wf() && it@
                == codes),
            spec_target_codes(target@) is None ==> r == Err::<TargetIter, CmdErr>(
                CmdErr::InvalidData,
            ),
    {
        let mut items: Vec<Blind> = Vec::new();
        if target.len() == 1 && target[0] == 65 {
            let mut c: u8 = 97;
            while c < 105
                invariant
                    97 <= c <= 105,
                    items@.len() == c - 97,
                    forall|i: int|
                        0 <= i < items@.len() ==> (#[trigger] items@[i]).is_cover() && items@[i]@
                            == 0xaa + i,
                decreases 105 - c,
            {
                items.push(Blind::from_port(c));
                c = c + 1;
            }
            let it = TargetIter { items, at: 0 };
            proof {
                assert(it@ =~= Seq::new(8, |i: int| (0xaa + i) as u8));
            }
            return Ok(it);
        }
        if target.len() == 1 && target[0] == 66 {
            items.push(Blind::from_port(103));
            items.push(Blind::from_port(100));
            let it = TargetIter { items, at: 0 };
            proof {
                assert(it@ =~= seq![0xb0u8, 0xadu8]);
            }
            return Ok(it);
        }
        if target.len() == 1 && target[0] == 87 {
            items.push(Blind::from_port(104));
            items.push(Blind::from_port(102));
            items.push(Blind::from_port(101));
            items.push(Blind::from_port(99));
            let it = TargetIter { items, at: 0 };
            proof {
                assert(it@ =~= seq![0xb1u8, 0xafu8, 0xaeu8, 0xacu8]);
            }
            return Ok(it);
        }
        match get_addr(target) {
            Ok(b) => {
                items.push(b);
                let it = TargetIter { items, at: 0 };
                proof {
                    assert(it@ =~= seq![b@]);
                }
                Ok(it)
            },
            Err(e) => Err(e),
        }
    }

    /// The next addressed blind, until the targets run out.
    pub fn next(&mut self) -> (r: Option<Blind>)
        requires
            old(self).wf(),
        ensures
            final(self).wf(),
            old(self)@.len() > 0 ==> (r matches Some(b) && b@ == old(self)@[0] && b.is_cover()
                && final(self)@ == old(self)@.drop_first()),
            old(self)@.len() == 0 ==> r is None && final(self)@ == old(self)@,
    {
        if self.at < self.items.len() {
            let b = self.items[self.at];
            self.at = self.at + 1;
            proof {
                assert(self.items@.skip(self.at as int) =~= self.items@.skip(
                    self.at - 1,
                ).drop_first());
            }
            Some(b)
        } else {
            None
        }
    }
}

/// A decoded TCP command line action.
#[derive(Debug, Clone, Copy, PartialEq, Eq, Structural)]
pub enum Command {
    /// Drive the targets: a full move or a single step in a direction.
    Move { single_step: bool, direction: Direction },
    /// Report the targets' believed states.
    Query,
    /// Drive the targets to an absolute position and angle.
    MoveTo { pos: u8, ang: u8 },
    /// Anything else.
    Invalid,
}

/// Decoding of the action token: `1`/`Z` close, `0`/`A` open, `S`/`D` step
/// down, `U` steps up, `?` queries, and a two-byte token with the high bit
/// set in the first byte carries an absolute position (low seven bits,
/// 0..=100) and angle (0..=7).
pub open spec fn spec_parse_command(a: Seq<u8>) -> Command {
    if a.len() == 1 && (a[0] == 49 || a[0] == 90) {  // "1" | "Z"
        Command::Move { single_step: false, direction: Direction::Down }
    } else if a.len() == 1 && (a[0] == 48 || a[0] == 65) {  // "0" | "A"
        Command::Move { single_step: false, direction: Direction::Up }
    } else if a.len() == 1 && (a[0] == 83 || a[0] == 68) {  // "S" | "D"
        Command::Move { single_step: true, direction: Direction::Down }
    } else if a.len() == 1 && a[0] == 85 {  // "U"
        Command::Move { single_step: true, direction: Direction::Up }
    } else if a.len() == 1 && a[0] == 63 {  // "?"
        Command::Query
    } else if a.len() == 2 && a[0] & 0x80 == 0x80 && a[0] & 0x7f <= 100 && a[1] <= 7 {
        Command::MoveTo { pos: a[0] & 0x7f, ang: a[1] }
    } else {
        Command::Invalid
    }
}

/// Decode the action token of a TCP command line.
pub fn parse_command(a: &[u8]) -> (r: Command)
    ensures
        r == spec_parse_command(a@),
        r matches Command::MoveTo { pos, ang } ==> pos <= 100 && ang <= 7,
{
    if a.len() == 1 && (a[0] == 49 || a[0] == 90) {
        Command::Move { single_step: false, direction: Direction::Down }
    } else if a.len() == 1 && (a[0] == 48 || a[0] == 65) {
        Command::Move { single_step: false, direction: Direction::Up }
    } else if a.len() == 1 && (a[0] == 83 || a[0] == 68) {
        Command::Move { single_step: true, direction: Direction::Down }
    } else if a.len() == 1 && a[0] == 85 {
        Command::Move { single_step: true, direction: Direction::Up }
    } else if a.len() == 1 && a[0] == 63 {
        Command::Query
    } else if a.len() == 2 && a[0] & 0x80 == 0x80 && a[0] & 0x7f <= 100 && a[1] <= 7 {
        Command::MoveTo { pos: a[0] & 0x7f, ang: a[1] }
    } else {
        Command::Invalid
    }
}

/// Two-byte TCP reply describing one blind: its position and a status byte
/// holding the angle, with bits set while it is believed moving (one marks
/// motion, another an upward move); `(255, 255)` for an unknown blind.
pub fn query_reply(entry: Option<BlindEntry>) -> (r: (u8, u8))
    requires
        entry matches Some(en) ==> en.wf(),
    ensures
        entry matches Some(en) ==> r.0 == en.pos && r.1 == en.ang + (if en.moving() {
            match en.dir {
                Direction::Up => 48int,
                Direction::Down => 32int,
            }
        } else {
            0int
        }),
        entry is None ==> r == (255u8, 255u8),
{
    match entry {
        Some(en) => {
            let mut stat = en.ang;
            if en.move_start.is_some() {
                match en.dir {
                    Direction::Up => {
                        stat = stat + 48;
                    },
                    Direction::Down => {
                        stat = stat + 32;
                    },
                }
            }
            (en.pos, stat)
        },
        None => (255, 255),
    }
}

/// What a broker `set` payload asks for: open and close are full moves, stop
/// is a single step upward.
pub fn mqtt_set(cmd: &[u8]) -> (r: Option<(bool, Direction)>)
    ensures
        cmd@ =~= seq![79u8, 80u8, 69u8, 78u8] ==> r == Some((false, Direction::Up)),  // "OPEN"
        cmd@ =~= seq![67u8, 76u8, 79u8, 83u8, 69u8] ==> r == Some((false, Direction::Down)),  // "CLOSE"
        cmd@ =~= seq![83u8, 84u8, 79u8, 80u8] ==> r == Some((true, Direction::Up)),  // "STOP"
        !(cmd@ =~= seq![79u8, 80u8, 69u8, 78u8]) && !(cmd@ =~= seq![67u8, 76u8, 79u8, 83u8, 69u8])
            && !(cmd@ =~= seq![83u8, 84u8, 79u8, 80u8]) ==> r is None,
{
    if cmd.len() == 4 && cmd[0] == 79 && cmd[1] == 80 && cmd[2] == 69 && cmd[3] == 78 {
        proof {
            assert(cmd@ =~= seq![79u8, 80u8, 69u8, 78u8]);
        }
        Some((false, Direction::Up))
    } else if cmd.len() == 5 && cmd[0] == 67 && cmd[1] == 76 && cmd[2] == 79 && cmd[3] == 83
        && cmd[4] == 69 {
        proof {
            assert(cmd@ =~= seq![67u8, 76u8, 79u8, 83u8, 69u8]);
        }
        Some((false, Direction::Down))
    } else if cmd.len() == 4 && cmd[0] == 83 && cmd[1] == 84 && cmd[2] == 79 && cmd[3] == 80 {
        proof {
            assert(cmd@ =~= seq![83u8, 84u8, 79u8, 80u8]);
        }
        Some((true, Direction::Up))
    } else {
        None
    }
}

/// Target angle a broker `tilt` payload asks for: one digit `0..=7`.
pub fn mqtt_tilt_angle(cmd: &[u8]) -> (r: Option<Angle>)
    ensures
        cmd@.len() == 1 && 48 <= cmd@[0] <= 55 ==> (r matches Some(a) && a@ == cmd@[0] - 48),
        !(cmd@.len() == 1 && 48 <= cmd@[0] <= 55) ==> r is None,
{
    if cmd.len() == 1 && 48 <= cmd[0] && cmd[0] <= 55 {
        Some(Angle::from_num(cmd[0] - 48))
    } else {
        None
    }
}

/// Which command stream a broker topic belongs to.
#[derive(Debug, Clone, Copy, PartialEq, Eq, Structural)]
pub enum TopicKind {
    /// `cover/<blind>/set`: open, close or stop.
    Drive,
    /// `cover/<blind>/tilt`: an absolute slat angle.
    Tilt,
}

/// The topic opens with `cover/`.
pub open spec fn spec_topic_prefix_ok(t: Seq<u8>) -> bool {
    t.len() >= 6 && t[0] == 99 && t[1] == 111 && t[2] == 118 && t[3] == 101 && t[4] == 114
        && t[5] == 47
}

/// The topic ends with `/set` and leaves a blind letter between prefix and
/// suffix.
pub open spec fn spec_topic_set_ok(t: Seq<u8>) -> bool {
    t.len() >= 11 && t[t.len() - 4] == 47 && t[t.len() - 3] == 115 && t[t.len() - 2] == 101 && t[
        t.len() - 1
    ] == 116
}

/// The topic ends with `/tilt` and leaves a blind letter between prefix and
/// suffix.
pub open spec fn spec_topic_tilt_ok(t: Seq<u8>) -> bool {
    t.len() >= 12 && t[t.len() - 5] == 47 && t[t.len() - 4] == 116 && t[t.len() - 3] == 105 && t[
        t.len() - 2
    ] == 108 && t[t.len() - 1] == 116
}

/// Resolve a broker topic: `cover/<blind>/set` or `cover/<blind>/tilt`,
/// with the blind named by the letter after the prefix.
pub fn parse_cover_topic(topic: &[u8]) -> (r: Option<(Blind, TopicKind)>)
    ensures
        spec_topic_prefix_ok(topic@) && spec_topic_set_ok(topic@) && 97 <= topic@[6] <= 104 ==> (
        r matches Some((b, k)) && b@ == topic@[6] - 97 + 0xaa && k == TopicKind::Drive),
        spec_topic_prefix_ok(topic@) && spec_topic_tilt_ok(topic@) && 97 <= topic@[6] <= 104
            ==> (r matches Some((b, k)) && b@ == topic@[6] - 97 + 0xaa && k == TopicKind::Tilt),
        !(spec_topic_prefix_ok(topic@) && (spec_topic_set_ok(topic@) || spec_topic_tilt_ok(
            topic@,
        )) && 97 <= topic@[6] <= 104) ==> r is None,
{
    let n = topic.len();
    if n < 11 {
        return None;
    }
    if !(topic[0] == 99 && topic[1] == 111 && topic[2] == 118 && topic[3] == 101 && topic[4]
        == 114 && topic[5] == 47) {
        return None;
    }
    if !(97 <= topic[6] && topic[6] <= 104) {
        return None;
    }
    let b = Blind::from_port(topic[6]);
    if topic[n - 4] == 47 && topic[n - 3] == 115 && topic[n - 2] == 101 && topic[n - 1] == 116 {
        return Some((b, TopicKind::Drive));
    }
    if n >= 12 && topic[n - 5] == 47 && topic[n - 4] == 116 && topic[n - 3] == 105 && topic[n - 2]
        == 108 && topic[n - 1] == 116 {
        return Some((b, TopicKind::Tilt));
    }
    None
}

/// Believed state of one blind as the observers report it.
#[derive(Debug, Clone, Copy, PartialEq, Eq, Structural)]
pub enum CoverState {
    /// Moving up.
    Opening,
    /// Moving down.
    Closing,
    /// Resting at the top.
    Open,
    /// Resting at the bottom.
    Closed,
    /// Resting in between.
    Stopped,
}

impl CoverState {
    /// Label the observers publish for this state.
    pub fn label(self) -> &'static str {
        match self {
            CoverState::Opening => "opening",
            CoverState::Closing => "closing",
            CoverState::Open => "open",
            CoverState::Closed => "closed",
            CoverState::Stopped => "stopped",
        }
    }
}

/// Report an entry's state: its direction while a move is believed in
/// progress, else whether it rests at an endpoint or in between.
pub fn report_state(entry: &BlindEntry) -> (r: CoverState)
    ensures
        entry.moving() && entry.dir is Up ==> r == CoverState::Opening,
        entry.moving() && entry.dir is Down ==> r == CoverState::Closing,
        !entry.moving() && entry.pos == 100 ==> r == CoverState::Open,
        !entry.moving() && entry.pos == 0 ==> r == CoverState::Closed,
        !entry.moving() && 0 < entry.pos < 100 ==> r == CoverState::Stopped,
{
    if entry.move_start.is_some() {
        match entry.dir {
            Direction::Up => CoverState::Opening,
            Direction::Down => CoverState::Closing,
        }
    } else if entry.pos == 100 {
        CoverState::Open
    } else if entry.pos == 0 {
        CoverState::Closed
    } else {
        CoverState::Stopped
    }
}

} // verus!
