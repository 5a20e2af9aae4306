//! Error taxonomy of the flashing core.

use vstd::prelude::*;

verus! {

/// Error codes that the remote bootloader reports after a `FL` status
/// header.  Codes that the enumeration does not know map to `Unknow`.
#[derive(Clone, Copy, Debug, PartialEq, Eq, Structural)]
pub enum RomError {
    Success,
    FlashInitError,
    FlashEraseParaError,
    FlashEraseError,
    FlashWriteParaError,
    FlashWriteAddrError,
    FlashWriteError,
    FlashBootPara,
    CmdIdError,
    CmdLenError,
    CmdCrcError,
    CmdSeqError,
    ImgBootheaderLenError,
    ImgBootheaderNotLoadError,
    ImgBootheaderMagicError,
    ImgBootheaderCrcError,
    ImgBootheaderEncryptNotfit,
    ImgBootheaderSignNotfit,
    ImgSegmentCntError,
    ImgAesIvLenError,
    ImgAesIvCrcError,
    ImgPkLenError,
    ImgPkCrcError,
    ImgPkHashError,
    ImgSignatureLenError,
    ImgSignatureCrcError,
    ImgSectionheaderLenError,
    ImgSectionheaderCrcError,
    ImgSectionheaderDstError,
    ImgSectiondataLenError,
    ImgSectiondataDecError,
    ImgSectiondataTlenError,
    ImgSectiondataCrcError,
    ImgHalfbakedError,
    ImgHashError,
    ImgSignParseError,
    ImgSignError,
    ImgDecError,
    ImgAllInvalidError,
    IfRateLenError,
    IfRateParaError,
    IfPasswordError,
    IfPasswordClose,
    PllError,
    InvasionError,
    Polling,
    Fail,
    Unknow,
}

/// The ROM error that a 16-bit wire code denotes.
pub open spec fn rom_error_of_code(code: u16) -> RomError {
    if code == 0x0000 {
        RomError::Success
    } else if code == 0x0001 {
        RomError::FlashInitError
    } else if code == 0x0002 {
        RomError::FlashEraseParaError
    } else if code == 0x0003 {
        RomError::FlashEraseError
    } else if code == 0x0004 {
        RomError::FlashWriteParaError
    } else if code == 0x0005 {
        RomError::FlashWriteAddrError
    } else if code == 0x0006 {
        RomError::FlashWriteError
    } else if code == 0x0007 {
        RomError::FlashBootPara
    } else if code == 0x0101 {
        RomError::CmdIdError
    } else if code == 0x0102 {
        RomError::CmdLenError
    } else if code == 0x0103 {
        RomError::CmdCrcError
    } else if code == 0x0104 {
        RomError::CmdSeqError
    } else if code == 0x0201 {
        RomError::ImgBootheaderLenError
    } else if code == 0x0202 {
        RomError::ImgBootheaderNotLoadError
    } else if code == 0x0203 {
        RomError::ImgBootheaderMagicError
    } else if code == 0x0204 {
        RomError::ImgBootheaderCrcError
    } else if code == 0x0205 {
        RomError::ImgBootheaderEncryptNotfit
    } else if code == 0x0206 {
        RomError::ImgBootheaderSignNotfit
    } else if code == 0x0207 {
        RomError::ImgSegmentCntError
    } else if code == 0x0208 {
        RomError::ImgAesIvLenError
    } else if code == 0x0209 {
        RomError::ImgAesIvCrcError
    } else if code == 0x020a {
        RomError::ImgPkLenError
    } else if code == 0x020b {
        RomError::ImgPkCrcError
    } else if code == 0x020c {
        RomError::ImgPkHashError
    } else if code == 0x020d {
        RomError::ImgSignatureLenError
    } else if code == 0x020e {
        RomError::ImgSignatureCrcError
    } else if code == 0x020f {
        RomError::ImgSectionheaderLenError
    } else if code == 0x0210 {
        RomError::ImgSectionheaderCrcError
    } else if code == 0x0211 {
        RomError::ImgSectionheaderDstError
    } else if code == 0x0212 {
        RomError::ImgSectiondataLenError
    } else if code == 0x0213 {
        RomError::ImgSectiondataDecError
    } else if code == 0x0214 {
        RomError::ImgSectiondataTlenError
    } else if code == 0x0215 {
        RomError::ImgSectiondataCrcError
    } else if code == 0x0216 {
        RomError::ImgHalfbakedError
    } else if code == 0x0217 {
        RomError::ImgHashError
    } else if code == 0x0218 {
        RomError::ImgSignParseError
    } else if code == 0x0219 {
        RomError::ImgSignError
    } else if code == 0x021a {
        RomError::ImgDecError
    } else if code == 0x021b {
        RomError::ImgAllInvalidError
    } else if code == 0x0301 {
        RomError::IfRateLenError
    } else if code == 0x0302 {
        RomError::IfRateParaError
    } else if code == 0x0303 {
        RomError::IfPasswordError
    } else if code == 0x0304 {
        RomError::IfPasswordClose
    } else if code == 0xfffc {
        RomError::PllError
    } else if code == 0xfffd {
        RomError::InvasionError
    } else if code == 0xfffe {
        RomError::Polling
    } else if code == 0xffff {
        RomError::Fail
    } else {
        RomError::Unknow
    }
}

impl RomError {
    /// Decodes a 16-bit wire code; unknown codes become `Unknow`.
    pub fn from_code(code: u16) -> (r: RomError)
        ensures
            r == rom_error_of_code(code),
    {
        if code == 0x0000 {
            RomError::Success
        } else if code == 0x0001 {
            RomError::FlashInitError
        } else if code == 0x0002 {
            RomError::FlashEraseParaError
        } else if code == 0x0003 {
            RomError::FlashEraseError
        } else if code == 0x0004 {
            RomError::FlashWriteParaError
        } else if code == 0x0005 {
            RomError::FlashWriteAddrError
        } else if code == 0x0006 {
            RomError::FlashWriteError
        } else if code == 0x0007 {
            RomError::FlashBootPara
        } else if code == 0x0101 {
            RomError::CmdIdError
        } else if code == 0x0102 {
            RomError::CmdLenError
        } else if code == 0x0103 {
            RomError::CmdCrcError
        } else if code == 0x0104 {
            RomError::CmdSeqError
        } else if code == 0x0201 {
            RomError::ImgBootheaderLenError
        } else if code == 0x0202 {
            RomError::ImgBootheaderNotLoadError
        } else if code == 0x0203 {
            RomError::ImgBootheaderMagicError
        } else if code == 0x0204 {
            RomError::ImgBootheaderCrcError
        } else if code == 0x0205 {
            RomError::ImgBootheaderEncryptNotfit
        } else if code == 0x0206 {
            RomError::ImgBootheaderSignNotfit
        } else if code == 0x0207 {
            RomError::ImgSegmentCntError
        } else if code == 0x0208 {
            RomError::ImgAesIvLenError
        } else if code == 0x0209 {
            RomError::ImgAesIvCrcError
        } else if code == 0x020a {
            RomError::ImgPkLenError
        } else if code == 0x020b {
            RomError::ImgPkCrcError
        } else if code == 0x020c {
            RomError::ImgPkHashError
        } else if code == 0x020d {
            RomError::ImgSignatureLenError
        } else if code == 0x020e {
            RomError::ImgSignatureCrcError
        } else if code == 0x020f {
            RomError::ImgSectionheaderLenError
        } else if code == 0x0210 {
            RomError::ImgSectionheaderCrcError
        } else if code == 0x0211 {
            RomError::ImgSectionheaderDstError
        } else if code == 0x0212 {
            RomError::ImgSectiondataLenError
        } else if code == 0x0213 {
            RomError::ImgSectiondataDecError
        } else if code == 0x0214 {
            RomError::ImgSectiondataTlenError
        } else if code == 0x0215 {
            RomError::ImgSectiondataCrcError
        } else if code == 0x0216 {
            RomError::ImgHalfbakedError
        } else if code == 0x0217 {
            RomError::ImgHashError
        } else if code == 0x0218 {
            RomError::ImgSignParseError
        } else if code == 0x0219 {
            RomError::ImgSignError
        } else if code == 0x021a {
            RomError::ImgDecError
        } else if code == 0x021b {
            RomError::ImgAllInvalidError
        } else if code == 0x0301 {
            RomError::IfRateLenError
        } else if code == 0x0302 {
            RomError::IfRateParaError
        } else if code == 0x0303 {
            RomError::IfPasswordError
        } else if code == 0x0304 {
            RomError::IfPasswordClose
        } else if code == 0xfffc {
            RomError::PllError
        } else if code == 0xfffd {
            RomError::InvasionError
        } else if code == 0xfffe {
            RomError::Polling
        } else if code == 0xffff {
            RomError::Fail
        } else {
            RomError::Unknow
        }
    }
}

/// Everything that can go wrong while driving a device.
#[derive(Clone, Copy, Debug, PartialEq, Eq, Structural)]
pub enum Error {
    /// The underlying serial transport failed.
    Serial,
    /// Reading from or writing to a local byte source failed, or the
    /// source ran short.
    Io,
    /// The handshake did not succeed within the retry budget.
    ConnectionFailed,
    /// No response arrived within the configured window.
    Timeout,
    /// The response status header was neither `OK` nor `FL`.
    RespError,
    /// The outbound body exceeds what a frame can carry.
    OverSizedPacket,
    /// The firmware image is not a valid ELF file.
    InvalidElf,
    /// The ELF image cannot be run from RAM.
    ElfNotRamLoadable,
    /// The chip name was not recognized.
    UnrecognizedChip,
    /// The flash chip is not supported; carries the flash id.
    UnsupportedFlash(u8),
    /// The remote reported a failure status with this code.
    RomError(RomError),
    /// An inbound payload did not match the expected shape.
    ParseError,
    /// A configuration file could not be parsed.
    TomlError,
    /// A pin expression names an unknown wire.
    ArgsError,
}

} // verus!
