//! FT1.2 link-layer frames.
//!
//! A variable frame on the wire is `0x68, L, L, 0x68, control, data...,
//! checksum, 0x16` where `L` counts the control byte plus the data bytes and
//! the checksum is the sum of control and data modulo 256. Reset requests and
//! single-byte acknowledgements use fixed byte sequences instead.

use vstd::arithmetic::div_mod::lemma_fundamental_div_mod;
use vstd::prelude::*;

verus! {

/// Single-byte acknowledgement exchanged after every frame.
pub const FT12_ACKNOWLEDGE: u8 = 0xE5;

/// First and fourth byte of a variable frame.
pub const FT12_FRAME_START: u8 = 0x68;

/// Last byte of a variable frame and of a reset request.
pub const FT12_FRAME_END: u8 = 0x16;

/// First byte of the fixed reset request.
pub const FT12_RESET_REQUEST: u8 = 0x10;

/// Second and third byte of the fixed reset request.
pub const FT12_RESET_INDICATION: u8 = 0x40;

/// Errors of the link layer, the initializer and the cEMI codec.
#[derive(Debug, Clone, Copy, PartialEq, Eq, Structural)]
pub enum KDriveErr {
    InvalidFrameLength,
    InvalidFrameStart,
    LengthMismatch,
    FrameLengthMismatch,
    InvalidFrameEnd,
    ChecksumMismatch,
    WriteError,
    WrongAcknowledge,
    ReadError,
    NotConnected,
    FailedToOpenSerialPort,
    ResetRequestFailed,
    ResetAcknowledgeFailed,
    WrongResetAcknowledge,
    ParityDesync,
    CemiFrameTooShortForDestination,
    CemiFrameTooShortForDataLength,
    CemiFrameTruncated,
    CemiDataTooLarge,
    FailedToSendResponseAck,
    TimeoutWaitingForInitializationResponse,
    FailedToAcknowledgeDeviceReadyIndication,
    TimeoutWaitingForDeviceReadyIndication,
    UnexpectedResponseDataDuringInitialization,
    ReadErrorDuringResponseValidation,
}

impl KDriveErr {
    /// Human-readable name of the error, for logs.
    pub fn message(&self) -> &'static str {
        match self {
            KDriveErr::InvalidFrameLength => "Invalid frame length",
            KDriveErr::InvalidFrameStart => "Invalid frame start",
            KDriveErr::LengthMismatch => "Length mismatch",
            KDriveErr::FrameLengthMismatch => "Frame length mismatch",
            KDriveErr::InvalidFrameEnd => "Invalid frame end",
            KDriveErr::ChecksumMismatch => "Checksum mismatch",
            KDriveErr::WriteError => "Write error",
            KDriveErr::WrongAcknowledge => "Wrong acknowledge",
            KDriveErr::ReadError => "Read error",
            KDriveErr::NotConnected => "Not connected",
            KDriveErr::FailedToOpenSerialPort => "Failed to open serial port",
            KDriveErr::ResetRequestFailed => "Reset request failed",
            KDriveErr::ResetAcknowledgeFailed => "Reset acknowledge failed",
            KDriveErr::WrongResetAcknowledge => "Wrong reset acknowledge",
            KDriveErr::ParityDesync => "Frame count parity desync",
            KDriveErr::CemiFrameTooShortForDestination => "cEMI frame too short for destination",
            KDriveErr::CemiFrameTooShortForDataLength => "cEMI frame too short for data length",
            KDriveErr::CemiFrameTruncated => "cEMI frame truncated",
            KDriveErr::CemiDataTooLarge => "cEMI data too large",
            KDriveErr::FailedToSendResponseAck => "Failed to send response acknowledgment",
            KDriveErr::TimeoutWaitingForInitializationResponse => "Timeout waiting for initialization response",
            KDriveErr::FailedToAcknowledgeDeviceReadyIndication => "Failed to acknowledge device ready indication",
            KDriveErr::TimeoutWaitingForDeviceReadyIndication => "Timeout waiting for device ready indication",
            KDriveErr::UnexpectedResponseDataDuringInitialization => "Unexpected response data during initialization",
            KDriveErr::ReadErrorDuringResponseValidation => "Read error during response validation",
        }
    }
}

/// Sum of all bytes of `data`, as an unbounded integer.
pub open spec fn byte_sum(data: Seq<u8>) -> int
    decreases data.len(),
{
    if data.len() == 0 {
        0
    } else {
        byte_sum(data.drop_last()) + data.last()
    }
}

/// Frame checksum: sum of the control byte and all data bytes, modulo 256.
pub open spec fn spec_checksum(control: u8, data: Seq<u8>) -> u8 {
    ((control + byte_sum(data)) % 256) as u8
}

/// Byte sequence of a variable frame carrying `control` and `data`.
pub open spec fn spec_frame_bytes(control: u8, data: Seq<u8>) -> Seq<u8> {
    seq![
        FT12_FRAME_START,
        (data.len() + 1) as u8,
        (data.len() + 1) as u8,
        FT12_FRAME_START,
        control,
    ] + data + seq![spec_checksum(control, data), FT12_FRAME_END]
}

/// Parse of a complete variable frame, with the error reported for each way
/// the bytes can fail to be one.
pub open spec fn spec_parse_frame(bytes: Seq<u8>) -> Result<(u8, Seq<u8>), KDriveErr> {
    if bytes.len() < 7 {
        Err(KDriveErr::InvalidFrameLength)
    } else if bytes[0] != FT12_FRAME_START || bytes[3] != FT12_FRAME_START {
        Err(KDriveErr::InvalidFrameStart)
    } else if bytes[2] != bytes[1] {
        Err(KDriveErr::LengthMismatch)
    } else if bytes.len() != bytes[1] + 6 {
        Err(KDriveErr::FrameLengthMismatch)
    } else if bytes[bytes.len() - 1] != FT12_FRAME_END {
        Err(KDriveErr::InvalidFrameEnd)
    } else if bytes[bytes.len() - 2] != spec_checksum(
        bytes[4],
        bytes.subrange(5, bytes.len() - 2),
    ) {
        Err(KDriveErr::ChecksumMismatch)
    } else {
        Ok((bytes[4], bytes.subrange(5, bytes.len() - 2)))
    }
}

/// An FT1.2 variable frame: the control byte and the data bytes it carries.
#[derive(Debug, Clone)]
pub struct Ft12Frame {
    /// Control field.
    pub control: u8,
    /// Data payload (without the control byte).
    pub data: Vec<u8>,
}

impl Ft12Frame {
    /// A frame is serializable when its data fits the one-byte length field,
    /// which also counts the control byte.
    pub open spec fn wf(self) -> bool {
        self.data@.len() <= 254
    }

    /// Pack a control byte and a payload into a frame value.
    pub fn new(control: u8, data: Vec<u8>) -> (r: Ft12Frame)
        ensures
            r.control == control,
            r.data@ == data@,
    {
        Ft12Frame { control, data }
    }

    /// Checksum over a control byte and a payload: their sum modulo 256.
    pub fn calculate_checksum(control: u8, data: &[u8]) -> (r: u8)
        requires
            data@.len() <= 254,
        ensures
            r == spec_checksum(control, data@),
    {
        let mut sum: u32 = control as u32;
        let mut i: usize = 0;
        while i < data.len()
            invariant
                i <= data@.len() <= 254,
                sum == control + byte_sum(data@.take(i as int)),
                sum <= 255 + 255 * i,
            decreases data@.len() - i,
        {
            proof {
                assert(data@.take(i + 1).drop_last() =~= data@.take(i as int));
                assert(data@.take(i + 1).last() == data@[i as int]);
            }
            sum = sum + data[i] as u32;
            i = i + 1;
        }
        proof {
            assert(data@.take(data@.len() as int) =~= data@);
        }
        (sum % 256) as u8
    }

    /// Serialize the frame for the wire: start, doubled length, start,
    /// control, data, checksum, end.
    pub fn to_bytes(&self) -> (r: Vec<u8>)
        requires
            self.wf(),
        ensures
            r@ == spec_frame_bytes(self.control, self.data@),
    {
        let length = (self.data.len() + 1) as u8;
        let checksum = Self::calculate_checksum(self.control, self.data.as_slice());
        let mut bytes: Vec<u8> = Vec::new();
        bytes.push(FT12_FRAME_START);
        bytes.push(length);
        bytes.push(length);
        bytes.push(FT12_FRAME_START);
        bytes.push(self.control);
        let mut i: usize = 0;
        while i < self.data.len()
            invariant
                i <= self.data@.len() <= 254,
                bytes@ == seq![
                    FT12_FRAME_START,
                    (self.data@.len() + 1) as u8,
                    (self.data@.len() + 1) as u8,
                    FT12_FRAME_START,
                    self.control,
                ] + self.data@.take(i as int),
                checksum == spec_checksum(self.control, self.data@),
            decreases self.data@.len() - i,
        {
            bytes.push(self.data[i]);
            proof {
                assert(self.data@.take(i + 1) =~= self.data@.take(i as int).push(
                    self.data@[i as int],
                ));
            }
            i = i + 1;
        }
        bytes.push(checksum);
        bytes.push(FT12_FRAME_END);
        proof {
            assert(self.data@.take(self.data@.len() as int) =~= self.data@);
            assert(bytes@ =~= spec_frame_bytes(self.control, self.data@));
        }
        bytes
    }

    /// Parse a complete variable frame, reporting exactly the error that
    /// `spec_parse_frame` gives for malformed bytes.
    pub fn from_bytes(bytes: &[u8]) -> (r: Result<Ft12Frame, KDriveErr>)
        ensures
            match spec_parse_frame(bytes@) {
                Ok((c, d)) => r matches Ok(f) && f.control == c && f.data@ == d && f.wf(),
                Err(e) => r matches Err(e2) && e2 == e,
            },
    {
        if bytes.len() < 7 {
            return Err(KDriveErr::InvalidFrameLength);
        }
        if bytes[0] != FT12_FRAME_START || bytes[3] != FT12_FRAME_START {
            return Err(KDriveErr::InvalidFrameStart);
        }
        let length = bytes[1];
        if bytes[2] != length {
            return Err(KDriveErr::LengthMismatch);
        }
        if bytes.len() != length as usize + 6 {
            return Err(KDriveErr::FrameLengthMismatch);
        }
        if bytes[bytes.len() - 1] != FT12_FRAME_END {
            return Err(KDriveErr::InvalidFrameEnd);
        }
        let control = bytes[4];
        let data_len = length as usize - 1;
        let mut data: Vec<u8> = Vec::new();
        let mut i: usize = 0;
        while i < data_len
            invariant
                data_len == bytes@.len() - 7,
                data_len <= 254,
                bytes@.len() >= 7,
                i <= data_len,
                data@ == bytes@.subrange(5, 5 + i as int),
            decreases data_len - i,
        {
            data.push(bytes[5 + i]);
            proof {
                assert(bytes@.subrange(5, 5 + (i + 1) as int) =~= bytes@.subrange(
                    5,
                    5 + i as int,
                ).push(bytes@[5 + i as int]));
            }
            i = i + 1;
        }
        proof {
            assert(data@ =~= bytes@.subrange(5, bytes@.len() - 2));
        }
        let checksum = bytes[bytes.len() - 2];
        let expected = Self::calculate_checksum(control, data.as_slice());
        if checksum != expected {
            return Err(KDriveErr::ChecksumMismatch);
        }
        Ok(Ft12Frame { control, data })
    }
}

/// The sum of a byte sequence is between 0 and 255 per byte.
pub proof fn lemma_byte_sum_bounds(s: Seq<u8>)
    ensures
        0 <= byte_sum(s) <= 255 * s.len(),
    decreases s.len(),
{
    if s.len() > 0 {
        lemma_byte_sum_bounds(s.drop_last());
    }
}

/// Replacing one byte shifts the sum by exactly the difference of the bytes.
pub proof fn lemma_byte_sum_update(s: Seq<u8>, i: int, v: u8)
    requires
        0 <= i < s.len(),
    ensures
        byte_sum(s.update(i, v)) == byte_sum(s) - s[i] + v,
    decreases s.len(),
{
    if i == s.len() - 1 {
        assert(s.update(i, v).drop_last() =~= s.drop_last());
    } else {
        assert(s.update(i, v).drop_last() =~= s.drop_last().update(i, v));
        lemma_byte_sum_update(s.drop_last(), i, v);
    }
}

/// Framing round trip: a serialized frame parses back to exactly the control
/// byte and data it was built from; it starts with the frame-start byte, ends
/// with the frame-end byte, and carries the modulo-256 checksum of control
/// plus data.
pub proof fn lemma_frame_round_trip(control: u8, data: Seq<u8>)
    requires
        data.len() <= 254,
    ensures
        spec_parse_frame(spec_frame_bytes(control, data)) == Ok::<_, KDriveErr>((control, data)),
        spec_frame_bytes(control, data)[0] == FT12_FRAME_START,
        spec_frame_bytes(control, data).last() == FT12_FRAME_END,
        spec_frame_bytes(control, data)[spec_frame_bytes(control, data).len() - 2]
            == spec_checksum(control, data),
{
    let f = spec_frame_bytes(control, data);
    assert(f.len() == data.len() + 7);
    assert(f.subrange(5, f.len() - 2) =~= data);
    assert(spec_parse_frame(f) == Ok::<_, KDriveErr>((control, data)));
}

/// Checksum rejection: corrupting any single data byte of a serialized frame
/// makes the parse fail with a checksum mismatch.
pub proof fn lemma_checksum_rejects_corruption(control: u8, data: Seq<u8>, i: int, v: u8)
    requires
        data.len() <= 254,
        0 <= i < data.len(),
        v != data[i],
    ensures
        spec_parse_frame(spec_frame_bytes(control, data).update(5 + i, v)) == Err::<
            (u8, Seq<u8>),
            _,
        >(KDriveErr::ChecksumMismatch),
{
    let f = spec_frame_bytes(control, data);
    let g = f.update(5 + i, v);
    let data2 = data.update(i, v);
    assert(g.len() == data.len() + 7);
    assert(g[0] == FT12_FRAME_START && g[3] == FT12_FRAME_START);
    assert(g[1] == g[2]);
    assert(g.len() == g[1] + 6);
    assert(g[g.len() - 1] == FT12_FRAME_END);
    assert(g.subrange(5, g.len() - 2) =~= data2);
    assert(g[g.len() - 2] == spec_checksum(control, data));
    lemma_byte_sum_update(data, i, v);
    lemma_byte_sum_bounds(data);
    lemma_byte_sum_bounds(data2);
    let a = control + byte_sum(data);
    let b = control + byte_sum(data2);
    assert(b - a == v - data[i]);
    assert(-255 <= b - a <= 255 && b != a);
    if a % 256 == b % 256 {
        lemma_fundamental_div_mod(a, 256);
        lemma_fundamental_div_mod(b, 256);
        assert(b - a == 256 * (b / 256) - 256 * (a / 256));
        assert(false);
    }
    assert(spec_checksum(control, data2) != spec_checksum(control, data));
}

} // verus!
