//! FT1.2 link layer: parity-alternating control bytes, the reset request,
//! the receive step classifier, and the scripted device initialization.
//!
//! Each direction keeps its own frame-count parity, starting odd after open
//! and after reset, and toggling after every successfully framed data
//! exchange in that direction. Acknowledgements and resets do not
//! participate in parity.

use vstd::prelude::*;
use vstd::slice::slice_subrange;

use crate::frame::{
    spec_frame_bytes, spec_parse_frame, Ft12Frame, KDriveErr, FT12_ACKNOWLEDGE, FT12_FRAME_END,
    FT12_FRAME_START, FT12_RESET_INDICATION, FT12_RESET_REQUEST,
};
use crate::cemi::{create_group_write_cemi, spec_group_write_cemi};

verus! {

/// Host-to-device data request with odd frame count.
pub const FT12_DATA_REQUEST_ODD: u8 = 0x73;

/// Host-to-device data request with even frame count.
pub const FT12_DATA_REQUEST_EVEN: u8 = 0x53;

/// Device-to-host indication with odd frame count.
pub const FT12_DATA_INDICATION_ODD: u8 = 0xF3;

/// Device-to-host indication with even frame count.
pub const FT12_DATA_INDICATION_EVEN: u8 = 0xD3;

/// Control byte of a host data request at the given send parity.
pub open spec fn spec_send_control(odd: bool) -> u8 {
    if odd {
        FT12_DATA_REQUEST_ODD
    } else {
        FT12_DATA_REQUEST_EVEN
    }
}

/// Control byte a device indication must carry at the given receive parity.
pub open spec fn spec_recv_control(odd: bool) -> u8 {
    if odd {
        FT12_DATA_INDICATION_ODD
    } else {
        FT12_DATA_INDICATION_EVEN
    }
}

/// Link-layer parity state: one frame-count bit per direction.
pub struct LinkState {
    /// The next host data request carries the odd control byte.
    pub send_odd: bool,
    /// The next device indication must carry the odd control byte.
    pub recv_odd: bool,
}

impl LinkState {
    /// Fresh link state: both directions start odd.
    pub fn new() -> (r: LinkState)
        ensures
            r.send_odd,
            r.recv_odd,
    {
        LinkState { send_odd: true, recv_odd: true }
    }

    /// Return both directions to odd, as the reset sequence demands.
    pub fn reset_parity(&mut self)
        ensures
            final(self).send_odd,
            final(self).recv_odd,
    {
        self.send_odd = true;
        self.recv_odd = true;
    }

    /// Control byte for the next host data request; toggles the send parity.
    pub fn next_send_control(&mut self) -> (r: u8)
        ensures
            r == spec_send_control(old(self).send_odd),
            final(self).send_odd == !old(self).send_odd,
            final(self).recv_odd == old(self).recv_odd,
    {
        let c = if self.send_odd {
            FT12_DATA_REQUEST_ODD
        } else {
            FT12_DATA_REQUEST_EVEN
        };
        self.send_odd = !self.send_odd;
        c
    }

    /// Check a received data frame's control byte against the receive
    /// parity: on the expected byte the parity toggles, on any other the
    /// state is unchanged and the exchange is a fatal parity desync.
    pub fn check_recv_control(&mut self, control: u8) -> (r: Result<(), KDriveErr>)
        ensures
            control == spec_recv_control(old(self).recv_odd) ==> (r matches Ok(())
                && final(self).recv_odd == !old(self).recv_odd && final(self).send_odd == old(
                self,
            ).send_odd),
            control != spec_recv_control(old(self).recv_odd) ==> (r matches Err(e) && e
                == KDriveErr::ParityDesync && *final(self) == *old(self)),
    {
        let expected = if self.recv_odd {
            FT12_DATA_INDICATION_ODD
        } else {
            FT12_DATA_INDICATION_EVEN
        };
        if control == expected {
            self.recv_odd = !self.recv_odd;
            Ok(())
        } else {
            Err(KDriveErr::ParityDesync)
        }
    }
}

/// The fixed four-byte reset request.
pub fn reset_frame() -> (r: Vec<u8>)
    ensures
        r@ == seq![
            FT12_RESET_REQUEST,
            FT12_RESET_INDICATION,
            FT12_RESET_INDICATION,
            FT12_FRAME_END,
        ],
{
    let mut v: Vec<u8> = Vec::new();
    v.push(FT12_RESET_REQUEST);
    v.push(FT12_RESET_INDICATION);
    v.push(FT12_RESET_INDICATION);
    v.push(FT12_FRAME_END);
    proof {
        assert(v@ =~= seq![
            FT12_RESET_REQUEST,
            FT12_RESET_INDICATION,
            FT12_RESET_INDICATION,
            FT12_FRAME_END,
        ]);
    }
    v
}

/// Judge the byte read after sending a frame: only the acknowledgement byte
/// completes the exchange.
pub fn check_ack(byte: u8) -> (r: Result<(), KDriveErr>)
    ensures
        byte == FT12_ACKNOWLEDGE <==> r matches Ok(()),
        byte != FT12_ACKNOWLEDGE <==> (r matches Err(e) && e == KDriveErr::WrongAcknowledge),
{
    if byte == FT12_ACKNOWLEDGE {
        Ok(())
    } else {
        Err(KDriveErr::WrongAcknowledge)
    }
}

/// Judge the byte read after sending a reset request.
pub fn check_reset_ack(byte: u8) -> (r: Result<(), KDriveErr>)
    ensures
        byte == FT12_ACKNOWLEDGE <==> r matches Ok(()),
        byte != FT12_ACKNOWLEDGE <==> (r matches Err(e) && e == KDriveErr::WrongResetAcknowledge),
{
    if byte == FT12_ACKNOWLEDGE {
        Ok(())
    } else {
        Err(KDriveErr::WrongResetAcknowledge)
    }
}

/// Serialize a group write to `addr` carrying `data` into one wire frame,
/// taking the control byte from the send parity and toggling it.
pub fn build_group_write(link: &mut LinkState, addr: u16, data: &[u8]) -> (r: Vec<u8>)
    requires
        1 <= data@.len() <= 14,
    ensures
        r@ == spec_frame_bytes(
            spec_send_control(old(link).send_odd),
            spec_group_write_cemi(addr, data@),
        ),
        final(link).send_odd == !old(link).send_odd,
        final(link).recv_odd == old(link).recv_odd,
{
    let control = link.next_send_control();
    let cemi = match create_group_write_cemi(addr, data) {
        Ok(v) => v,
        Err(_) => {
            proof {
                assert(false);
            }
            Vec::new()
        },
    };
    let frame = Ft12Frame::new(control, cemi);
    frame.to_bytes()
}

/// Outcome of looking at the bytes read so far, assumed to start at a frame
/// boundary of the device-to-host stream.
pub enum RecvStep {
    /// The bytes so far are a proper prefix of a frame; read on.
    NeedMore,
    /// The first byte is a stray acknowledgement: discard that one byte.
    StrayAck,
    /// The bytes cannot be a frame: the error, and how many bytes belong to
    /// the rejected frame (0 when its extent is unknown). No acknowledgement
    /// is owed.
    Reject { err: KDriveErr, consumed: usize },
    /// A complete well-formed frame: its control byte and data, and how many
    /// bytes it occupied. The reader owes the device one acknowledgement
    /// byte before it consumes anything further.
    Accept { control: u8, data: Vec<u8>, consumed: usize },
}

/// Classify the start of the receive buffer as the receive-and-ack
/// transaction demands: a stray acknowledgement is discarded, anything not
/// opening with the frame-start byte is rejected, a complete frame is parsed
/// and checked, and too-short input asks for more bytes. A rejected frame
/// gets no acknowledgement; an accepted one must be acknowledged before any
/// later byte is consumed.
pub fn recv_classify(buffer: &[u8]) -> (r: RecvStep)
    ensures
        buffer@.len() == 0 ==> r matches RecvStep::NeedMore,
        buffer@.len() > 0 && buffer@[0] == FT12_ACKNOWLEDGE ==> r matches RecvStep::StrayAck,
        buffer@.len() > 0 && buffer@[0] != FT12_ACKNOWLEDGE && buffer@[0] != FT12_FRAME_START
            ==> (r matches RecvStep::Reject { err, consumed } && err == KDriveErr::InvalidFrameStart
            && consumed == 0),
        buffer@.len() > 0 && buffer@[0] == FT12_FRAME_START && buffer@.len() < 4
            ==> r matches RecvStep::NeedMore,
        buffer@.len() >= 4 && buffer@[0] == FT12_FRAME_START && buffer@[3] != FT12_FRAME_START
            ==> (r matches RecvStep::Reject { err, consumed } && err == KDriveErr::InvalidFrameStart
            && consumed == 0),
        buffer@.len() >= 4 && buffer@[0] == FT12_FRAME_START && buffer@[3] == FT12_FRAME_START
            && buffer@[2] != buffer@[1] ==> (r matches RecvStep::Reject { err, consumed } && err
            == KDriveErr::LengthMismatch && consumed == 0),
        buffer@.len() >= 4 && buffer@[0] == FT12_FRAME_START && buffer@[3] == FT12_FRAME_START
            && buffer@[2] == buffer@[1] && buffer@.len() < buffer@[1] + 6
            ==> r matches RecvStep::NeedMore,
        buffer@.len() >= 4 && buffer@[0] == FT12_FRAME_START && buffer@[3] == FT12_FRAME_START
            && buffer@[2] == buffer@[1] && buffer@.len() >= buffer@[1] + 6 ==> match
            spec_parse_frame(buffer@.subrange(0, buffer@[1] + 6)) {
            Ok((c, d)) => (r matches RecvStep::Accept { control, data, consumed } && control == c
                && data@ == d && consumed == buffer@[1] + 6),
            Err(e) => (r matches RecvStep::Reject { err, consumed } && err == e && consumed
                == buffer@[1] + 6),
        },
{
    if buffer.len() == 0 {
        return RecvStep::NeedMore;
    }
    if buffer[0] == FT12_ACKNOWLEDGE {
        return RecvStep::StrayAck;
    }
    if buffer[0] != FT12_FRAME_START {
        return RecvStep::Reject { err: KDriveErr::InvalidFrameStart, consumed: 0 };
    }
    if buffer.len() < 4 {
        return RecvStep::NeedMore;
    }
    if buffer[3] != FT12_FRAME_START {
        return RecvStep::Reject { err: KDriveErr::InvalidFrameStart, consumed: 0 };
    }
    if buffer[2] != buffer[1] {
        return RecvStep::Reject { err: KDriveErr::LengthMismatch, consumed: 0 };
    }
    let total = buffer[1] as usize + 6;
    if buffer.len() < total {
        return RecvStep::NeedMore;
    }
    let frame_bytes = slice_subrange(buffer, 0, total);
    match Ft12Frame::from_bytes(frame_bytes) {
        Ok(f) => RecvStep::Accept { control: f.control, data: f.data, consumed: total },
        Err(e) => RecvStep::Reject { err: e, consumed: total },
    }
}

/// First position of a frame-start byte in `b` at or after `i`.
pub open spec fn spec_first_start_from(b: Seq<u8>, i: int) -> Option<int>
    decreases b.len() - i,
{
    if i < 0 || i >= b.len() {
        None
    } else if b[i] == FT12_FRAME_START {
        Some(i)
    } else {
        spec_first_start_from(b, i + 1)
    }
}

/// Cut one complete frame out of a raw byte buffer: scan to the first
/// frame-start byte, read the announced length, and return those bytes when
/// they have all arrived.
pub fn extract_complete_frame(buffer: &[u8]) -> (r: Option<Vec<u8>>)
    ensures
        match spec_first_start_from(buffer@, 0) {
            Some(p) => {
                if buffer@.len() >= p + 4 && buffer@.len() >= p + buffer@[p + 1] + 6 {
                    (r matches Some(v) && v@ == buffer@.subrange(p, p + buffer@[p + 1] + 6))
                } else {
                    r is None
                }
            },
            None => r is None,
        },
{
    let mut start: usize = 0;
    while start < buffer.len() && buffer[start] != FT12_FRAME_START
        invariant
            start <= buffer@.len(),
            spec_first_start_from(buffer@, 0) == spec_first_start_from(buffer@, start as int),
        decreases buffer@.len() - start,
    {
        start = start + 1;
    }
    if start >= buffer.len() {
        return None;
    }
    if buffer.len() - start < 4 {
        return None;
    }
    let length = buffer[start + 1] as usize;
    let total = length + 6;
    if buffer.len() - start < total {
        return None;
    }
    let frame = slice_subrange(buffer, start, start + total);
    let mut out: Vec<u8> = Vec::new();
    let mut i: usize = 0;
    while i < frame.len()
        invariant
            i <= frame@.len(),
            out@ == frame@.take(i as int),
        decreases frame@.len() - i,
    {
        out.push(frame[i]);
        proof {
            assert(frame@.take(i + 1) =~= frame@.take(i as int).push(frame@[i as int]));
        }
        i = i + 1;
    }
    proof {
        assert(frame@.take(frame@.len() as int) =~= frame@);
    }
    Some(out)
}

/// Number of scripted initialization exchanges.
pub const INIT_STEP_COUNT: usize = 6;

/// Data bytes of the host request of initialization step `step`.
pub open spec fn spec_init_request_data(step: int) -> Seq<u8> {
    if step == 0 {
        seq![0xa7u8]
    } else if step == 1 {
        seq![0xfcu8, 0x00, 0x08, 0x01, 0x40, 0x10, 0x01]
    } else if step == 2 {
        seq![0xf6u8, 0x00, 0x08, 0x01, 0x34, 0x10, 0x01, 0x00]
    } else if step == 3 {
        seq![0xfcu8, 0x00, 0x08, 0x01, 0x34, 0x10, 0x01]
    } else if step == 4 {
        seq![0xfcu8, 0x00, 0x08, 0x01, 0x33, 0x10, 0x01]
    } else {
        seq![0xfcu8, 0x00, 0x00, 0x01, 0x38, 0x10, 0x01]
    }
}

/// Data bytes the device must answer with in initialization step `step`.
pub open spec fn spec_init_expected_data(step: int) -> Seq<u8> {
    if step == 0 {
        seq![0xa8u8, 0xff, 0xff, 0x00, 0xc5, 0x01, 0x03, 0xa2, 0xe2, 0x00, 0x04]
    } else if step == 1 {
        seq![0xfbu8, 0x00, 0x08, 0x01, 0x40, 0x10, 0x01, 0x00, 0x0b]
    } else if step == 2 {
        seq![0xf5u8, 0x00, 0x08, 0x01, 0x34, 0x10, 0x01]
    } else if step == 3 {
        seq![0xfbu8, 0x00, 0x08, 0x01, 0x34, 0x10, 0x01, 0x00]
    } else if step == 4 {
        seq![0xfbu8, 0x00, 0x08, 0x01, 0x33, 0x10, 0x01, 0x00, 0x02]
    } else {
        seq![0xfbu8, 0x00, 0x00, 0x01, 0x38, 0x10, 0x01, 0x00, 0x37]
    }
}

/// Data bytes of the host request of initialization step `step`. The control
/// byte comes from the send parity, which starts odd after the reset.
pub fn init_request_data(step: usize) -> (r: Vec<u8>)
    requires
        step < INIT_STEP_COUNT,
    ensures
        r@ == spec_init_request_data(step as int),
{
    let mut v: Vec<u8> = Vec::new();
    if step == 0 {
        v.push(0xa7);
    } else if step == 1 {
        v.push(0xfc);
        v.push(0x00);
        v.push(0x08);
        v.push(0x01);
        v.push(0x40);
        v.push(0x10);
        v.push(0x01);
    } else if step == 2 {
        v.push(0xf6);
        v.push(0x00);
        v.push(0x08);
        v.push(0x01);
        v.push(0x34);
        v.push(0x10);
        v.push(0x01);
        v.push(0x00);
    } else if step == 3 {
        v.push(0xfc);
        v.push(0x00);
        v.push(0x08);
        v.push(0x01);
        v.push(0x34);
        v.push(0x10);
        v.push(0x01);
    } else if step == 4 {
        v.push(0xfc);
        v.push(0x00);
        v.push(0x08);
        v.push(0x01);
        v.push(0x33);
        v.push(0x10);
        v.push(0x01);
    } else {
        v.push(0xfc);
        v.push(0x00);
        v.push(0x00);
        v.push(0x01);
        v.push(0x38);
        v.push(0x10);
        v.push(0x01);
    }
    proof {
        assert(v@ =~= spec_init_request_data(step as int));
    }
    v
}

/// Data bytes the device must answer with in initialization step `step`.
pub fn init_expected_data(step: usize) -> (r: Vec<u8>)
    requires
        step < INIT_STEP_COUNT,
    ensures
        r@ == spec_init_expected_data(step as int),
{
    let mut v: Vec<u8> = Vec::new();
    if step == 0 {
        v.push(0xa8);
        v.push(0xff);
        v.push(0xff);
        v.push(0x00);
        v.push(0xc5);
        v.push(0x01);
        v.push(0x03);
        v.push(0xa2);
        v.push(0xe2);
        v.push(0x00);
        v.push(0x04);
    } else if step == 1 {
        v.push(0xfb);
        v.push(0x00);
        v.push(0x08);
        v.push(0x01);
        v.push(0x40);
        v.push(0x10);
        v.push(0x01);
        v.push(0x00);
        v.push(0x0b);
    } else if step == 2 {
        v.push(0xf5);
        v.push(0x00);
        v.push(0x08);
        v.push(0x01);
        v.push(0x34);
        v.push(0x10);
        v.push(0x01);
    } else if step == 3 {
        v.push(0xfb);
        v.push(0x00);
        v.push(0x08);
        v.push(0x01);
        v.push(0x34);
        v.push(0x10);
        v.push(0x01);
        v.push(0x00);
    } else if step == 4 {
        v.push(0xfb);
        v.push(0x00);
        v.push(0x08);
        v.push(0x01);
        v.push(0x33);
        v.push(0x10);
        v.push(0x01);
        v.push(0x00);
        v.push(0x02);
    } else {
        v.push(0xfb);
        v.push(0x00);
        v.push(0x00);
        v.push(0x01);
        v.push(0x38);
        v.push(0x10);
        v.push(0x01);
        v.push(0x00);
        v.push(0x37);
    }
    proof {
        assert(v@ =~= spec_init_expected_data(step as int));
    }
    v
}

/// Whether a received frame is the response the initialization script
/// expects at step `step`: the control byte of a device indication at the
/// parity the step reaches (odd steps from zero alternate starting odd) and
/// exactly the scripted data bytes.
pub fn init_response_matches(step: usize, frame: &Ft12Frame) -> (r: bool)
    requires
        step < INIT_STEP_COUNT,
    ensures
        r == (frame.control == spec_recv_control(step % 2 == 0) && frame.data@
            == spec_init_expected_data(step as int)),
{
    let expected_control = if step % 2 == 0 {
        FT12_DATA_INDICATION_ODD
    } else {
        FT12_DATA_INDICATION_EVEN
    };
    if frame.control != expected_control {
        return false;
    }
    let expected = init_expected_data(step);
    if frame.data.len() != expected.len() {
        proof {
            assert(frame.data@ != spec_init_expected_data(step as int));
        }
        return false;
    }
    let mut i: usize = 0;
    while i < expected.len()
        invariant
            i <= expected@.len(),
            frame.data@.len() == expected@.len(),
            frame.control == spec_recv_control(step % 2 == 0),
            expected@ == spec_init_expected_data(step as int),
            forall|j: int| 0 <= j < i ==> frame.data@[j] == expected@[j],
        decreases expected@.len() - i,
    {
        if frame.data[i] != expected[i] {
            return false;
        }
        i = i + 1;
    }
    proof {
        assert(frame.data@ =~= expected@);
    }
    true
}

/// Control bytes of `n` successive host data sends starting at parity `odd`.
pub open spec fn spec_send_controls_from(odd: bool, n: nat) -> Seq<u8>
    decreases n,
{
    if n == 0 {
        Seq::empty()
    } else {
        seq![spec_send_control(odd)] + spec_send_controls_from(!odd, (n - 1) as nat)
    }
}

/// `n` sends produce `n` control bytes.
proof fn lemma_send_controls_from_len(odd: bool, n: nat)
    ensures
        spec_send_controls_from(odd, n).len() == n,
    decreases n,
{
    if n > 0 {
        lemma_send_controls_from_len(!odd, (n - 1) as nat);
    }
}

proof fn lemma_send_controls_from(odd: bool, n: nat, i: int)
    requires
        0 <= i < n,
    ensures
        spec_send_controls_from(odd, n)[i] == spec_send_control(
            if i % 2 == 0 {
                odd
            } else {
                !odd
            },
        ),
    decreases n,
{
    lemma_send_controls_from_len(odd, n);
    lemma_send_controls_from_len(!odd, (n - 1) as nat);
    if i > 0 {
        lemma_send_controls_from(!odd, (n - 1) as nat, i - 1);
        assert(spec_send_controls_from(odd, n)[i] == spec_send_controls_from(
            !odd,
            (n - 1) as nat,
        )[i - 1]);
        assert((i - 1) % 2 == if i % 2 == 0 {
            1int
        } else {
            0int
        });
    }
}

/// Parity progression: starting from the odd parity that open and reset
/// establish, successive data sends use the odd and even request control
/// bytes alternately — the odd byte on every even-numbered send.
pub proof fn lemma_parity_progression(n: nat, i: int)
    requires
        0 <= i < n,
    ensures
        spec_send_controls_from(true, n)[i] == (if i % 2 == 0 {
            FT12_DATA_REQUEST_ODD
        } else {
            FT12_DATA_REQUEST_EVEN
        }),
{
    lemma_send_controls_from(true, n, i);
}

} // verus!
