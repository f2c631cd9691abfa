//! cEMI telegrams: the payload an FT1.2 frame carries.
//!
//! Byte 0 is the message code; then additional-info length, two control
//! fields, source and destination addresses, the NPDU length `N`, the TPCI
//! and APCI bytes, and the group data. A one-byte group value is folded into
//! the low six bits of the APCI low byte with `N == 1`; longer values follow
//! the APCI byte and `N` counts them plus one.

use vstd::arithmetic::div_mod::lemma_fundamental_div_mod;
use vstd::prelude::*;

use crate::frame::KDriveErr;

verus! {

/// cEMI message code for L_Data.ind (unsolicited bus event).
pub const KDRIVE_CEMI_L_DATA_IND: u8 = 0x29;

/// cEMI message code for L_Data.req (request emitted by the host).
pub const KDRIVE_CEMI_L_DATA_REQ: u8 = 0x11;

/// cEMI message code for L_Data.con (device confirmation of a request).
pub const KDRIVE_CEMI_L_DATA_CON: u8 = 0x2E;

/// Largest group value carried in one telegram.
pub const KDRIVE_MAX_GROUP_VALUE_LEN: usize = 14;

/// The recognized cEMI message codes.
#[derive(Debug, Clone, Copy, PartialEq, Eq, Structural)]
pub enum MessageCode {
    /// L_Data.req: emitted by the host.
    LDataReq,
    /// L_Data.con: device confirmation of a host request.
    LDataCon,
    /// L_Data.ind: unsolicited bus event.
    LDataInd,
    /// Any other code.
    Other,
}

impl MessageCode {
    /// Classification of a raw message-code byte.
    pub open spec fn spec_from_u8(code: u8) -> MessageCode {
        if code == KDRIVE_CEMI_L_DATA_REQ {
            MessageCode::LDataReq
        } else if code == KDRIVE_CEMI_L_DATA_CON {
            MessageCode::LDataCon
        } else if code == KDRIVE_CEMI_L_DATA_IND {
            MessageCode::LDataInd
        } else {
            MessageCode::Other
        }
    }

    /// Classify a raw message-code byte.
    pub fn from_u8(code: u8) -> (r: MessageCode)
        ensures
            r == MessageCode::spec_from_u8(code),
    {
        if code == KDRIVE_CEMI_L_DATA_REQ {
            MessageCode::LDataReq
        } else if code == KDRIVE_CEMI_L_DATA_CON {
            MessageCode::LDataCon
        } else if code == KDRIVE_CEMI_L_DATA_IND {
            MessageCode::LDataInd
        } else {
            MessageCode::Other
        }
    }
}

/// The telegram is a group write: long enough to carry an APCI field whose
/// action code (bits 6..10 of the two APCI bytes read big-endian) is 2.
pub open spec fn spec_is_group_write(d: Seq<u8>) -> bool {
    d.len() >= 11 && ((d[9] * 256 + d[10]) / 64) % 16 == 2
}

/// Destination group address: the big-endian 16-bit value at bytes 6 and 7,
/// or an error when the telegram is shorter.
pub open spec fn spec_dest(d: Seq<u8>) -> Result<u16, KDriveErr> {
    if d.len() < 8 {
        Err(KDriveErr::CemiFrameTooShortForDestination)
    } else {
        Ok((d[6] * 256 + d[7]) as u16)
    }
}

/// Group data carried by the telegram. `N` is the NPDU length at byte 8:
/// no data when `N` is 0; the masked low six bits of the APCI low byte when
/// `N` is 1; the `N - 1` bytes after the APCI low byte otherwise. Errors:
/// too short to hold the length or the announced data, or `N` above the
/// largest supported group value.
pub open spec fn spec_group_data(d: Seq<u8>) -> Result<Seq<u8>, KDriveErr> {
    if d.len() < 9 {
        Err(KDriveErr::CemiFrameTooShortForDataLength)
    } else {
        let n = d[8] as int;
        if n == 0 {
            Ok(Seq::empty())
        } else if d.len() < 10 + n {
            Err(KDriveErr::CemiFrameTruncated)
        } else if n > KDRIVE_MAX_GROUP_VALUE_LEN {
            Err(KDriveErr::CemiDataTooLarge)
        } else if n == 1 {
            Ok(seq![(d[10] & 0x3F)])
        } else {
            Ok(d.subrange(11, 10 + n))
        }
    }
}

/// cEMI message: a borrowed view of the payload bytes of one frame.
#[allow(non_camel_case_types)]
pub struct cEMIMsg<'a> {
    data: &'a [u8],
}

impl<'a> View for cEMIMsg<'a> {
    type V = Seq<u8>;

    closed spec fn view(&self) -> Seq<u8> {
        self.data@
    }
}

impl<'a> cEMIMsg<'a> {
    /// Borrow a byte slice as a cEMI message.
    pub fn from_bytes(data: &'a [u8]) -> (r: cEMIMsg<'a>)
        ensures
            r@ == data@,
    {
        cEMIMsg { data }
    }

    /// The raw message-code byte.
    pub fn get_msg_code(&self) -> (r: u8)
        requires
            self@.len() >= 1,
        ensures
            r == self@[0],
    {
        self.data[0]
    }

    /// Whether the telegram is a group write.
    pub fn is_group_write(&self) -> (r: bool)
        ensures
            r == spec_is_group_write(self@),
    {
        if self.data.len() < 11 {
            return false;
        }
        let apci: u16 = (self.data[9] as u16) * 256 + (self.data[10] as u16);
        (apci / 64) % 16 == 2
    }

    /// Destination group address.
    pub fn get_dest(&self) -> (r: Result<u16, KDriveErr>)
        ensures
            r == spec_dest(self@),
    {
        if self.data.len() < 8 {
            return Err(KDriveErr::CemiFrameTooShortForDestination);
        }
        Ok((self.data[6] as u16) * 256 + self.data[7] as u16)
    }

    /// Extract the group data, as `spec_group_data` reads it.
    pub fn get_group_data(&self) -> (r: Result<Vec<u8>, KDriveErr>)
        ensures
            match spec_group_data(self@) {
                Ok(d) => r matches Ok(v) && v@ == d && d.len() <= KDRIVE_MAX_GROUP_VALUE_LEN,
                Err(e) => r matches Err(e2) && e2 == e,
            },
    {
        if self.data.len() < 9 {
            return Err(KDriveErr::CemiFrameTooShortForDataLength);
        }
        let n = self.data[8] as usize;
        let mut out: Vec<u8> = Vec::new();
        if n == 0 {
            return Ok(out);
        }
        if self.data.len() < 10 + n {
            return Err(KDriveErr::CemiFrameTruncated);
        }
        if n > KDRIVE_MAX_GROUP_VALUE_LEN {
            return Err(KDriveErr::CemiDataTooLarge);
        }
        if n == 1 {
            out.push(self.data[10] & 0x3F);
            return Ok(out);
        }
        let mut i: usize = 0;
        while i < n - 1
            invariant
                2 <= n <= KDRIVE_MAX_GROUP_VALUE_LEN,
                self@.len() >= 10 + n,
                i <= n - 1,
                out@ == self@.subrange(11, 11 + i as int),
            decreases n - i,
        {
            out.push(self.data[11 + i]);
            proof {
                assert(self@.subrange(11, 11 + (i + 1) as int) =~= self@.subrange(
                    11,
                    11 + i as int,
                ).push(self@[11 + i as int]));
            }
            i = i + 1;
        }
        Ok(out)
    }
}

/// Construct the cEMI byte sequence of a group write to `addr` carrying
/// `data`: a one-byte value is folded into the APCI low byte, a longer value
/// follows it.
pub open spec fn spec_group_write_cemi(addr: u16, data: Seq<u8>) -> Seq<u8> {
    let head = seq![
        KDRIVE_CEMI_L_DATA_REQ,
        0x00u8,
        0xBCu8,
        0xE0u8,
        0x00u8,
        0x00u8,
        (addr / 256) as u8,
        (addr % 256) as u8,
    ];
    if data.len() == 1 {
        head + seq![1u8, 0x00u8, (0x80u8 | (data[0] & 0x3F))]
    } else {
        head + seq![(data.len() + 1) as u8, 0x00u8, 0x80u8] + data
    }
}

/// Build the cEMI bytes of an L_Data.req group write.
pub fn create_group_write_cemi(addr: u16, data: &[u8]) -> (r: Result<Vec<u8>, KDriveErr>)
    requires
        1 <= data@.len() <= 254,
    ensures
        r matches Ok(v) && v@ == spec_group_write_cemi(addr, data@),
{
    let mut cemi: Vec<u8> = Vec::new();
    cemi.push(KDRIVE_CEMI_L_DATA_REQ);
    cemi.push(0x00);
    cemi.push(0xBC);
    cemi.push(0xE0);
    cemi.push(0x00);
    cemi.push(0x00);
    cemi.push((addr / 256) as u8);
    cemi.push((addr % 256) as u8);
    if data.len() == 1 {
        cemi.push(1);
        cemi.push(0x00);
        cemi.push(0x80 | (data[0] & 0x3F));
        proof {
            assert(cemi@ =~= spec_group_write_cemi(addr, data@));
        }
        return Ok(cemi);
    }
    cemi.push((data.len() + 1) as u8);
    cemi.push(0x00);
    cemi.push(0x80);
    let ghost head = cemi@;
    let mut i: usize = 0;
    while i < data.len()
        invariant
            i <= data@.len() <= 254,
            cemi@ == head + data@.take(i as int),
        decreases data@.len() - i,
    {
        cemi.push(data[i]);
        proof {
            assert(data@.take(i + 1) =~= data@.take(i as int).push(data@[i as int]));
        }
        i = i + 1;
    }
    proof {
        assert(data@.take(data@.len() as int) =~= data@);
        assert(cemi@ =~= spec_group_write_cemi(addr, data@));
    }
    Ok(cemi)
}

/// A constructed one-byte group write reads back as itself: it is recognized
/// as a group write, its message code is L_Data.req, its destination is the
/// address it was built for, and its group data is the written byte (whose
/// top two bits the APCI encoding cannot carry).
pub proof fn lemma_group_write_cemi_read_back(addr: u16, data: Seq<u8>)
    requires
        data.len() == 1,
    ensures
        spec_is_group_write(spec_group_write_cemi(addr, data)),
        spec_group_write_cemi(addr, data)[0] == KDRIVE_CEMI_L_DATA_REQ,
        spec_dest(spec_group_write_cemi(addr, data)) == Ok::<u16, KDriveErr>(addr),
        spec_group_data(spec_group_write_cemi(addr, data)) == Ok::<_, KDriveErr>(
            seq![(data[0] & 0x3F)],
        ),
{
    let m = spec_group_write_cemi(addr, data);
    let b = data[0];
    assert(m.len() == 11);
    assert(m[9] == 0x00u8 && m[10] == (0x80u8 | (b & 0x3F)));
    assert((0x80u8 | (b & 0x3F)) == 128 + (b & 0x3F) && (b & 0x3F) < 64) by (bit_vector);
    assert(((m[9] * 256 + m[10]) / 64) % 16 == 2);
    assert(m[6] == (addr / 256) as u8 && m[7] == (addr % 256) as u8);
    lemma_fundamental_div_mod(addr as int, 256);
    assert(m[6] * 256 + m[7] == addr);
    assert(m[8] == 1);
    assert((0x80u8 | (b & 0x3F)) & 0x3F == b & 0x3F) by (bit_vector);
    assert(spec_group_data(m) =~= Ok::<_, KDriveErr>(seq![(b & 0x3F)]));
}

} // verus!
