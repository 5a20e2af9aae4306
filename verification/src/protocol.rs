//! The framed command protocol: outbound frame layout, per-command
//! response shapes, status headers, and the boot-info payloads.
//!
//! Outbound frame: `[cmd_id:1][checksum:1 = 0][len:u16 LE][body:len]`.
//! Inbound: a two-byte status header (`OK` or `FL`), then a payload
//! whose shape is a static property of the command.

use vstd::prelude::*;

use crate::error::Error;
use crate::wire::u16_from_le;
use crate::wire::u16_from_le_spec;
use crate::wire::u16_le_spec;
use crate::wire::u32_from_le;
use crate::wire::u32_from_le_spec;
use crate::wire::u32_le_spec;
use crate::wire::lemma_u16_le_round_trip;
use crate::wire::push_u16_le;
use crate::wire::push_u32_le;
use crate::wire::subvec;

verus! {

/// One outbound command, carrying its body.
pub enum Command {
    /// Query boot info, v1 layout (command `0x10`).
    BootInfoReq,
    /// Query boot info, v2 layout (command `0x10`).
    BootInfoReqV2,
    /// Load the 176-byte boot header (command `0x11`).
    LoadBootHeader(Vec<u8>),
    /// Load a 16-byte segment header (command `0x17`).
    LoadSegmentHeaderReq(Vec<u8>),
    /// Load up to 4000 bytes of segment data (command `0x18`).
    LoadSegmentData(Vec<u8>),
    /// Verify the uploaded image (command `0x19`).
    CheckImage,
    /// Jump into the uploaded image (command `0x1a`).
    RunImage,
    /// Erase flash over `[start, end)` (command `0x30`).
    FlashErase(u32, u32),
    /// Program flash at an address (command `0x31`).
    FlashProgram(u32, Vec<u8>),
    /// Read back flash contents (command `0x32`).
    FlashRead(u32, u32),
    /// Read the SHA-256 of a flash range (command `0x3d`).
    Sha256Read(u32, u32),
}

/// The shape of a command's success payload: none at all, a fixed
/// number of bytes, or a `u16 LE` length prefix followed by that many
/// bytes.
#[derive(Clone, Copy, Debug, PartialEq, Eq, Structural)]
pub enum RespShape {
    NoPayload,
    Fixed(u16),
    LenPrefixed,
}

impl Command {
    /// The wire identifier of this command.
    pub open spec fn cmd_id_spec(&self) -> u8 {
        match self {
            Command::BootInfoReq => 0x10,
            Command::BootInfoReqV2 => 0x10,
            Command::LoadBootHeader(_) => 0x11,
            Command::LoadSegmentHeaderReq(_) => 0x17,
            Command::LoadSegmentData(_) => 0x18,
            Command::CheckImage => 0x19,
            Command::RunImage => 0x1a,
            Command::FlashErase(_, _) => 0x30,
            Command::FlashProgram(_, _) => 0x31,
            Command::FlashRead(_, _) => 0x32,
            Command::Sha256Read(_, _) => 0x3d,
        }
    }

    /// The body bytes of this command, all multi-byte fields
    /// little-endian.
    pub open spec fn body_spec(&self) -> Seq<u8> {
        match self {
            Command::BootInfoReq => seq![],
            Command::BootInfoReqV2 => seq![],
            Command::LoadBootHeader(h) => h@,
            Command::LoadSegmentHeaderReq(h) => h@,
            Command::LoadSegmentData(d) => d@,
            Command::CheckImage => seq![],
            Command::RunImage => seq![],
            Command::FlashErase(start, end) => u32_le_spec(*start) + u32_le_spec(*end),
            Command::FlashProgram(addr, d) => u32_le_spec(*addr) + d@,
            Command::FlashRead(addr, size) => u32_le_spec(*addr) + u32_le_spec(*size),
            Command::Sha256Read(addr, len) => u32_le_spec(*addr) + u32_le_spec(*len),
        }
    }

    /// The shape of the success payload this command expects.
    pub open spec fn resp_shape_spec(&self) -> RespShape {
        match self {
            Command::BootInfoReq => RespShape::Fixed(22),
            Command::BootInfoReqV2 => RespShape::Fixed(26),
            Command::LoadBootHeader(_) => RespShape::NoPayload,
            Command::LoadSegmentHeaderReq(_) => RespShape::LenPrefixed,
            Command::LoadSegmentData(_) => RespShape::NoPayload,
            Command::CheckImage => RespShape::NoPayload,
            Command::RunImage => RespShape::NoPayload,
            Command::FlashErase(_, _) => RespShape::NoPayload,
            Command::FlashProgram(_, _) => RespShape::NoPayload,
            Command::FlashRead(_, _) => RespShape::LenPrefixed,
            Command::Sha256Read(_, _) => RespShape::Fixed(34),
        }
    }

    /// The whole outbound frame: id, zero checksum, little-endian body
    /// length, body.
    pub open spec fn frame_spec(&self) -> Seq<u8> {
        seq![self.cmd_id_spec(), 0u8] + u16_le_spec(self.body_spec().len() as u16)
            + self.body_spec()
    }

    /// The wire identifier of this command.
    pub fn cmd_id(&self) -> (r: u8)
        ensures
            r == self.cmd_id_spec(),
    {
        match self {
            Command::BootInfoReq => 0x10,
            Command::BootInfoReqV2 => 0x10,
            Command::LoadBootHeader(_) => 0x11,
            Command::LoadSegmentHeaderReq(_) => 0x17,
            Command::LoadSegmentData(_) => 0x18,
            Command::CheckImage => 0x19,
            Command::RunImage => 0x1a,
            Command::FlashErase(_, _) => 0x30,
            Command::FlashProgram(_, _) => 0x31,
            Command::FlashRead(_, _) => 0x32,
            Command::Sha256Read(_, _) => 0x3d,
        }
    }

    /// The checksum field; the protocol keeps it but never computes it.
    pub fn checksum(&self) -> (r: u8)
        ensures
            r == 0u8,
    {
        0
    }

    /// The shape of the success payload this command expects.
    pub fn resp_shape(&self) -> (r: RespShape)
        ensures
            r == self.resp_shape_spec(),
    {
        match self {
            Command::BootInfoReq => RespShape::Fixed(22),
            Command::BootInfoReqV2 => RespShape::Fixed(26),
            Command::LoadBootHeader(_) => RespShape::NoPayload,
            Command::LoadSegmentHeaderReq(_) => RespShape::LenPrefixed,
            Command::LoadSegmentData(_) => RespShape::NoPayload,
            Command::CheckImage => RespShape::NoPayload,
            Command::RunImage => RespShape::NoPayload,
            Command::FlashErase(_, _) => RespShape::NoPayload,
            Command::FlashProgram(_, _) => RespShape::NoPayload,
            Command::FlashRead(_, _) => RespShape::LenPrefixed,
            Command::Sha256Read(_, _) => RespShape::Fixed(34),
        }
    }

    /// The body bytes of this command.
    pub fn body_bytes(&self) -> (r: Vec<u8>)
        ensures
            r@ == self.body_spec(),
    {
        match self {
            Command::BootInfoReq => Vec::new(),
            Command::BootInfoReqV2 => Vec::new(),
            Command::LoadBootHeader(h) => subvec(h, 0, h.len()),
            Command::LoadSegmentHeaderReq(h) => subvec(h, 0, h.len()),
            Command::LoadSegmentData(d) => subvec(d, 0, d.len()),
            Command::CheckImage => Vec::new(),
            Command::RunImage => Vec::new(),
            Command::FlashErase(start, end) => {
                let mut out: Vec<u8> = Vec::new();
                push_u32_le(&mut out, *start);
                push_u32_le(&mut out, *end);
                out
            },
            Command::FlashProgram(addr, d) => {
                let mut out: Vec<u8> = Vec::new();
                push_u32_le(&mut out, *addr);
                let mut rest = subvec(d, 0, d.len());
                out.append(&mut rest);
                out
            },
            Command::FlashRead(addr, size) => {
                let mut out: Vec<u8> = Vec::new();
                push_u32_le(&mut out, *addr);
                push_u32_le(&mut out, *size);
                out
            },
            Command::Sha256Read(addr, len) => {
                let mut out: Vec<u8> = Vec::new();
                push_u32_le(&mut out, *addr);
                push_u32_le(&mut out, *len);
                out
            },
        }
    }

    /// Serializes the whole frame.
    pub fn frame_bytes(&self) -> (r: Vec<u8>)
        requires
            self.body_spec().len() <= 0xFFFF,
        ensures
            r@ == self.frame_spec(),
    {
        let mut body = self.body_bytes();
        let mut out: Vec<u8> = Vec::new();
        out.push(self.cmd_id());
        out.push(self.checksum());
        push_u16_le(&mut out, body.len() as u16);
        out.append(&mut body);
        proof {
            assert(out@ =~= self.frame_spec());
        }
        out
    }
}

/// The frame that carries `body` under command identifier `id`.
pub open spec fn frame_of(id: u8, body: Seq<u8>) -> Seq<u8> {
    seq![id, 0u8] + u16_le_spec(body.len() as u16) + body
}

/// The `load_segment_data` frames that carry `blob[off..]`, in chunks
/// of up to 4000 bytes.
pub open spec fn chunk_frames(blob: Seq<u8>, off: int) -> Seq<u8>
    decreases blob.len() - off,
{
    if off >= blob.len() || off < 0 {
        Seq::empty()
    } else {
        let rem = blob.len() - off;
        let step = if rem > 4000 {
            4000int
        } else {
            rem
        };
        frame_of(0x18, blob.subrange(off, off + step)) + chunk_frames(blob, off + step)
    }
}

/// Everything a whole second-stage upload writes, burst aside: the
/// boot header, the segment header, the data chunks, then the check
/// and run commands.
pub open spec fn upload_frames(blob: Seq<u8>) -> Seq<u8> {
    frame_of(0x11, blob.subrange(0, 176)) + frame_of(0x17, blob.subrange(176, 192))
        + chunk_frames(blob, 192) + frame_of(0x19, Seq::empty()) + frame_of(
        0x1a,
        Seq::empty(),
    )
}

/// The auto-baud training burst: `n` bytes of `0x55`.
pub open spec fn training_burst(n: int) -> Seq<u8> {
    Seq::new(n as nat, |i: int| 0x55u8)
}

/// Every serialized frame is `[cmd_id, 0, len_lo, len_hi]` followed by
/// the body, and the length field decodes back to the body's length.
pub proof fn lemma_frame_round_trip(c: &Command)
    requires
        c.body_spec().len() <= 0xFFFF,
    ensures
        c.frame_spec().len() == 4 + c.body_spec().len(),
        c.frame_spec()[0] == c.cmd_id_spec(),
        c.frame_spec()[1] == 0u8,
        u16_from_le_spec(c.frame_spec()[2], c.frame_spec()[3]) == c.body_spec().len(),
        c.frame_spec().subrange(4, c.frame_spec().len() as int) == c.body_spec(),
{
    lemma_u16_le_round_trip(c.body_spec().len() as u16);
    assert(c.frame_spec().subrange(4, c.frame_spec().len() as int) =~= c.body_spec());
}

/// The meaning of a two-byte status header.
#[derive(Clone, Copy, Debug, PartialEq, Eq, Structural)]
pub enum RespStatus {
    /// `0x4F 0x4B`, "OK": success.
    Okay,
    /// `0x46 0x4C`, "FL": failure, an error code follows.
    Failed,
    /// Anything else: framing or synchronization loss.
    Bad,
}

/// Classifies a status header.
pub fn classify_status(b0: u8, b1: u8) -> (s: RespStatus)
    ensures
        (s == RespStatus::Okay) == (b0 == 0x4f && b1 == 0x4b),
        (s == RespStatus::Failed) == (b0 == 0x46 && b1 == 0x4c),
        (s == RespStatus::Bad) == (!(b0 == 0x4f && b1 == 0x4b) && !(b0 == 0x46 && b1 == 0x4c)),
{
    if b0 == 0x4f && b1 == 0x4b {
        RespStatus::Okay
    } else if b0 == 0x46 && b1 == 0x4c {
        RespStatus::Failed
    } else {
        RespStatus::Bad
    }
}

/// Boot information as the v1 (BL602) layout reports it.
pub struct BootInfo {
    pub len: u16,
    pub bootrom_version: u32,
    pub otp_info: Vec<u8>,
}

/// Boot information in the widened (v2) layout every caller sees.
pub struct BootInfoV2 {
    pub len: u16,
    pub bootrom_version: u32,
    pub otp_info: Vec<u8>,
    pub unknow_info: Vec<u8>,
}

impl BootInfo {
    /// The OTP field holds its 16 bytes.
    pub open spec fn well_formed(&self) -> bool {
        self.otp_info@.len() == 16
    }

    /// Widens to the v2 layout by zero-padding the extra bytes.
    pub fn to_v2(self) -> (r: BootInfoV2)
        ensures
            r.len == self.len,
            r.bootrom_version == self.bootrom_version,
            r.otp_info@ == self.otp_info@,
            r.unknow_info@ == seq![0u8, 0u8, 0u8, 0u8],
            self.well_formed() ==> r.well_formed(),
    {
        let mut pad: Vec<u8> = Vec::new();
        pad.push(0);
        pad.push(0);
        pad.push(0);
        pad.push(0);
        proof {
            assert(pad@ =~= seq![0u8, 0u8, 0u8, 0u8]);
        }
        BootInfoV2 {
            len: self.len,
            bootrom_version: self.bootrom_version,
            otp_info: self.otp_info,
            unknow_info: pad,
        }
    }
}

impl BootInfoV2 {
    /// Both byte fields hold their full width.
    pub open spec fn well_formed(&self) -> bool {
        self.otp_info@.len() == 16 && self.unknow_info@.len() == 4
    }
}

impl Default for BootInfoV2 {
    /// All-zero boot information, used before a device has answered.
    fn default() -> (r: Self)
        ensures
            r.len == 0,
            r.bootrom_version == 0,
            r.otp_info@ == Seq::new(16, |i: int| 0u8),
            r.unknow_info@ == Seq::new(4, |i: int| 0u8),
            r.well_formed(),
    {
        BootInfoV2 {
            len: 0,
            bootrom_version: 0,
            otp_info: crate::wire::zeroes(16),
            unknow_info: crate::wire::zeroes(4),
        }
    }
}

/// Parses the 22-byte v1 boot-info payload.
pub fn parse_boot_info(p: &Vec<u8>) -> (r: BootInfo)
    requires
        p@.len() == 22,
    ensures
        r.len == u16_from_le_spec(p@[0], p@[1]),
        r.bootrom_version == u32_from_le_spec(p@[2], p@[3], p@[4], p@[5]),
        r.otp_info@ == p@.subrange(6, 22),
        r.well_formed(),
{
    BootInfo {
        len: u16_from_le(p[0], p[1]),
        bootrom_version: u32_from_le(p[2], p[3], p[4], p[5]),
        otp_info: subvec(p, 6, 22),
    }
}

/// Parses the 26-byte v2 boot-info payload.
pub fn parse_boot_info_v2(p: &Vec<u8>) -> (r: BootInfoV2)
    requires
        p@.len() == 26,
    ensures
        r.len == u16_from_le_spec(p@[0], p@[1]),
        r.bootrom_version == u32_from_le_spec(p@[2], p@[3], p@[4], p@[5]),
        r.otp_info@ == p@.subrange(6, 22),
        r.unknow_info@ == p@.subrange(22, 26),
        r.well_formed(),
{
    BootInfoV2 {
        len: u16_from_le(p[0], p[1]),
        bootrom_version: u32_from_le(p[2], p[3], p[4], p[5]),
        otp_info: subvec(p, 6, 22),
        unknow_info: subvec(p, 22, 26),
    }
}

/// Extracts the digest from a `sha256_read` payload: the magic bytes
/// `0x20 0x00` followed by the 32-byte digest.
pub fn parse_sha256_resp(p: &Vec<u8>) -> (r: Result<Vec<u8>, Error>)
    requires
        p@.len() == 34,
    ensures
        (r is Ok) == (p@[0] == 0x20 && p@[1] == 0x00),
        r matches Ok(d) ==> d@ == p@.subrange(2, 34),
        r matches Err(e) ==> e == Error::ParseError,
{
    if p[0] == 0x20 && p[1] == 0x00 {
        Ok(subvec(p, 2, 34))
    } else {
        Err(Error::ParseError)
    }
}

} // verus!
