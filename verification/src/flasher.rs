//! The two-stage flashing pipeline: the boot-ROM driver, the
//! eflash-loader driver, and the orchestrator that connects, uploads
//! the second stage, switches speed and walks the segments.

use vstd::prelude::*;

use crate::chip::ChipType;
use crate::connection::Connection;
use crate::connection::pin_events_spec;
use crate::error::Error;
use crate::hashing::sha256_digest;
use crate::pins::PinExpr;
use crate::port::SerialIo;
use crate::protocol::chunk_frames;
use crate::protocol::frame_of;
use crate::protocol::training_burst;
use crate::protocol::upload_frames;
use crate::protocol::parse_boot_info;
use crate::protocol::parse_boot_info_v2;
use crate::protocol::parse_sha256_resp;
use crate::protocol::BootInfoV2;
use crate::protocol::Command;
use crate::wire::bytes_eq;
use crate::wire::lemma_u32_le_round_trip;
use crate::wire::subvec;
use crate::wire::u32_from_le_spec;
use crate::wire::u32_le_spec;

verus! {

/// The boot header an image starts with is this long.
pub const LOAD_BOOT_HEADER_LEN: usize = 176;

/// Each segment header is this long.
pub const LOAD_SEGMENT_HEADER_LEN: usize = 16;

/// The most bytes one data-bearing command may carry.
pub const CHUNK_LEN: usize = 4000;

/// A contiguous region destined for flash.
pub struct RomSegment {
    pub addr: u32,
    pub data: Vec<u8>,
}

impl RomSegment {
    /// The region fits the 32-bit address space: its one-past-the-end
    /// address is still a `u32`.
    pub open spec fn fits(&self) -> bool {
        self.addr + self.data@.len() <= 0xFFFF_FFFF
    }

    /// Wraps an address and the bytes to place there.
    pub fn from_vec(addr: u32, data: Vec<u8>) -> (r: RomSegment)
        ensures
            r.addr == addr,
            r.data == data,
    {
        RomSegment { addr, data }
    }

    /// The region's length in bytes.
    pub fn size(&self) -> (r: u32)
        requires
            self.fits(),
        ensures
            r == self.data@.len(),
    {
        self.data.len() as u32
    }
}

/// Whether an image is an ELF file: the magic `0x7F 'E' 'L' 'F'` at
/// offset 0.  Anything else is treated as a raw image.
pub fn is_elf(image: &Vec<u8>) -> (r: bool)
    ensures
        r == (image@.len() >= 4 && image@[0] == 0x7f && image@[1] == 0x45 && image@[2] == 0x4c
            && image@[3] == 0x46),
{
    image.len() >= 4 && image[0] == 0x7f && image[1] == 0x45 && image[2] == 0x4c && image[3]
        == 0x46
}

/// Skip programming a segment only when skipping was not forced off and
/// the device already holds bytes with the same digest.
pub fn should_skip_segment(force: bool, local: &Vec<u8>, remote: &Vec<u8>) -> (r: bool)
    ensures
        r == (!force && local@ == remote@),
{
    !force && bytes_eq(local, remote)
}

/// An erase request for a whole segment ends exactly one past the
/// segment: the last four body bytes decode to `addr + len`, the first
/// address NOT erased.
pub proof fn lemma_erase_end_exclusive(addr: u32, len: u32)
    requires
        addr + len <= 0xFFFF_FFFF,
    ensures
        ({
            let body = u32_le_spec(addr) + u32_le_spec((addr + len) as u32);
            u32_from_le_spec(body[4], body[5], body[6], body[7]) == addr + len
        }),
{
    let end = (addr + len) as u32;
    lemma_u32_le_round_trip(end);
    let body = u32_le_spec(addr) + u32_le_spec(end);
    assert(body[4] == u32_le_spec(end)[0]);
    assert(body[5] == u32_le_spec(end)[1]);
    assert(body[6] == u32_le_spec(end)[2]);
    assert(body[7] == u32_le_spec(end)[3]);
}

/// The `flash_program` frames that write `data[off..]` at its place in
/// a segment based at `addr`, in chunks of up to 4000 bytes.
pub open spec fn program_frames(addr: int, data: Seq<u8>, off: int) -> Seq<u8>
    decreases data.len() - off,
{
    if off >= data.len() || off < 0 {
        Seq::empty()
    } else {
        let rem = data.len() - off;
        let step = if rem > 4000 {
            4000int
        } else {
            rem
        };
        frame_of(0x31, u32_le_spec(((addr + off) as u32)) + data.subrange(off, off + step))
            + program_frames(addr, data, off + step)
    }
}

/// Everything programming one segment writes when its current content
/// is not consulted first: the erase over `[addr, addr + len)`, the
/// program chunks, and the verifying digest read.
pub open spec fn forced_segment_frames(seg: RomSegment) -> Seq<u8> {
    frame_of(
        0x30,
        u32_le_spec(seg.addr) + u32_le_spec(((seg.addr + seg.data@.len()) as u32)),
    ) + program_frames(seg.addr as int, seg.data@, 0) + frame_of(
        0x3d,
        u32_le_spec(seg.addr) + u32_le_spec(seg.data@.len() as u32),
    )
}

/// Everything a forced pass over `segments` writes.
pub open spec fn forced_frames(segments: Seq<RomSegment>) -> Seq<u8>
    decreases segments.len(),
{
    if segments.len() == 0 {
        Seq::empty()
    } else {
        forced_segment_frames(segments[0]) + forced_frames(segments.skip(1))
    }
}

/// Every reported address is the address of one of the segments.
pub open spec fn addrs_from(reported: Seq<u32>, segments: Seq<RomSegment>) -> bool {
    forall|j: int|
        0 <= j < reported.len() ==> exists|i: int|
            0 <= i < segments.len() && (#[trigger] reported[j]) == segments[i].addr
}

/// The digest queries a checking pass over `segments` makes, in order.
pub open spec fn digest_frames(segments: Seq<RomSegment>) -> Seq<u8>
    decreases segments.len(),
{
    if segments.len() == 0 {
        Seq::empty()
    } else {
        frame_of(
            0x3d,
            u32_le_spec(segments[0].addr) + u32_le_spec(segments[0].data@.len() as u32),
        ) + digest_frames(segments.skip(1))
    }
}

/// The whole session: the framed connection, the boot information read
/// at connect time, the chip profile and the speed used after the
/// second stage is running.
pub struct Flasher<P: SerialIo> {
    pub conn: Connection<P>,
    pub boot_info: BootInfoV2,
    pub chip: ChipType,
    pub flash_speed: u32,
}

impl<P: SerialIo> Flasher<P> {
    /// The choices made at connect time, which no operation may alter.
    pub open spec fn session_cfg(&self) -> (ChipType, u32, PinExpr, PinExpr) {
        (self.chip, self.flash_speed, self.conn.reset_pin, self.conn.boot_pin)
    }

    /// `post` differs from `pre` only in bytes written and read: the
    /// session choices, boot information, pin transitions, timeout and
    /// speed all stand.
    pub open spec fn quiet_io(pre: Flasher<P>, post: Flasher<P>) -> bool {
        &&& post.session_cfg() == pre.session_cfg()
        &&& post.boot_info == pre.boot_info
        &&& post.conn.baud_rate == pre.conn.baud_rate
        &&& post.conn.port.timeout_ms() == pre.conn.port.timeout_ms()
        &&& post.conn.port.baud() == pre.conn.port.baud()
        &&& post.conn.port.pin_log() == pre.conn.port.pin_log()
    }

    /// As `quiet_io`, but the link speed may have been reconfigured.
    pub open spec fn steady_cfg(pre: Flasher<P>, post: Flasher<P>) -> bool {
        &&& post.session_cfg() == pre.session_cfg()
        &&& post.boot_info == pre.boot_info
        &&& post.conn.port.timeout_ms() == pre.conn.port.timeout_ms()
        &&& post.conn.port.pin_log() == pre.conn.port.pin_log()
    }

    /// Releases the connection.
    pub fn into_inner(self) -> (r: Connection<P>)
        ensures
            r == self.conn,
    {
        self.conn
    }

    /// The boot information the device reported at connect time.
    pub fn boot_info(&self) -> (r: &BootInfoV2)
        ensures
            r == self.boot_info,
    {
        &self.boot_info
    }

    /// Resets the chip into its application.
    pub fn reset(&mut self) -> (r: Result<(), Error>)
        ensures
            final(self).session_cfg() == old(self).session_cfg(),
            final(self).boot_info == old(self).boot_info,
            final(self).conn.port.timeout_ms() == old(self).conn.port.timeout_ms(),
            r is Ok ==> final(self).conn.port.pin_log() == old(self).conn.port.pin_log()
                + pin_events_spec(old(self).conn.boot_pin, false) + pin_events_spec(
                old(self).conn.reset_pin,
                true,
            ) + pin_events_spec(old(self).conn.reset_pin, false),
    {
        self.conn.reset()
    }

    // ----- the boot-ROM driver: what the first stage accepts -----

    /// Asks the ROM for its boot information, in the layout the chip
    /// profile selects, and widens v1 answers to v2.
    pub fn get_boot_info(&mut self, chip: ChipType) -> (r: Result<BootInfoV2, Error>)
        ensures
            Self::quiet_io(*old(self), *final(self)),
            r matches Ok(b) ==> b.well_formed(),
            r matches Ok(b) ==> (chip == ChipType::Bl602 ==> b.unknow_info@ == seq![
                0u8,
                0u8,
                0u8,
                0u8,
            ]),
            r is Ok ==> final(self).conn.port.sent() == old(self).conn.port.sent() + frame_of(
                0x10,
                Seq::<u8>::empty(),
            ),
    {
        if chip.boot_info_is_v2() {
            let payload = self.conn.command(&Command::BootInfoReqV2)?;
            proof {
                assert((Command::BootInfoReqV2).body_spec() =~= Seq::<u8>::empty());
            }
            Ok(parse_boot_info_v2(&payload))
        } else {
            let payload = self.conn.command(&Command::BootInfoReq)?;
            proof {
                assert((Command::BootInfoReq).body_spec() =~= Seq::<u8>::empty());
            }
            Ok(parse_boot_info(&payload).to_v2())
        }
    }

    /// Sends the 176-byte boot header of the image being uploaded.
    pub fn load_boot_header(&mut self, header: &Vec<u8>) -> (r: Result<(), Error>)
        requires
            header@.len() == 176,
        ensures
            Self::quiet_io(*old(self), *final(self)),
            r is Ok ==> final(self).conn.port.sent() == old(self).conn.port.sent() + frame_of(
                0x11,
                header@,
            ),
    {
        let cmd = Command::LoadBootHeader(subvec(header, 0, header.len()));
        self.conn.command(&cmd)?;
        Ok(())
    }

    /// Sends one 16-byte segment header and returns the ROM's echo of
    /// it.  The ROM may normalize fields, so a differing echo is left
    /// to the caller as advisory.
    pub fn load_segment_header(&mut self, header: &Vec<u8>) -> (r: Result<Vec<u8>, Error>)
        requires
            header@.len() == 16,
        ensures
            Self::quiet_io(*old(self), *final(self)),
            r is Ok ==> final(self).conn.port.sent() == old(self).conn.port.sent() + frame_of(
                0x17,
                header@,
            ),
    {
        let cmd = Command::LoadSegmentHeaderReq(subvec(header, 0, header.len()));
        self.conn.command(&cmd)
    }

    /// Sends one chunk of segment data.  End of stream is signalled by
    /// simply not sending another chunk.
    pub fn load_segment_data(&mut self, chunk: &Vec<u8>) -> (r: Result<(), Error>)
        requires
            1 <= chunk@.len() <= 4000,
        ensures
            Self::quiet_io(*old(self), *final(self)),
            r is Ok ==> final(self).conn.port.sent() == old(self).conn.port.sent() + frame_of(
                0x18,
                chunk@,
            ),
    {
        let cmd = Command::LoadSegmentData(subvec(chunk, 0, chunk.len()));
        self.conn.command(&cmd)?;
        Ok(())
    }

    /// Asks the ROM to verify the uploaded image.
    pub fn check_image(&mut self) -> (r: Result<(), Error>)
        ensures
            Self::quiet_io(*old(self), *final(self)),
            r is Ok ==> final(self).conn.port.sent() == old(self).conn.port.sent() + frame_of(
                0x19,
                Seq::<u8>::empty(),
            ),
    {
        self.conn.command(&Command::CheckImage)?;
        proof {
            assert((Command::CheckImage).body_spec() =~= Seq::<u8>::empty());
        }
        Ok(())
    }

    /// Asks the ROM to jump into the uploaded image.
    pub fn run_image(&mut self) -> (r: Result<(), Error>)
        ensures
            Self::quiet_io(*old(self), *final(self)),
            r is Ok ==> final(self).conn.port.sent() == old(self).conn.port.sent() + frame_of(
                0x1a,
                Seq::<u8>::empty(),
            ),
    {
        self.conn.command(&Command::RunImage)?;
        proof {
            assert((Command::RunImage).body_spec() =~= Seq::<u8>::empty());
        }
        Ok(())
    }

    // ----- the eflash-loader driver: what the second stage accepts -----

    /// Asks the second stage for the SHA-256 of a flash range.
    pub fn sha256_read(&mut self, addr: u32, len: u32) -> (r: Result<Vec<u8>, Error>)
        ensures
            Self::quiet_io(*old(self), *final(self)),
            r matches Ok(d) ==> d@.len() == 32,
            r is Ok ==> final(self).conn.port.sent() == old(self).conn.port.sent() + frame_of(
                0x3d,
                u32_le_spec(addr) + u32_le_spec(len),
            ),
    {
        let payload = self.conn.command(&Command::Sha256Read(addr, len))?;
        parse_sha256_resp(&payload)
    }

    /// Reads back flash contents; the payload is as long as the device
    /// chose to answer.
    pub fn flash_read(&mut self, addr: u32, size: u32) -> (r: Result<Vec<u8>, Error>)
        ensures
            Self::quiet_io(*old(self), *final(self)),
            r matches Ok(v) ==> v@.len() <= 0xFFFF,
            r is Ok ==> final(self).conn.port.sent() == old(self).conn.port.sent() + frame_of(
                0x32,
                u32_le_spec(addr) + u32_le_spec(size),
            ),
    {
        self.conn.command(&Command::FlashRead(addr, size))
    }

    /// Programs one chunk of data at an address.
    pub fn flash_program(&mut self, addr: u32, chunk: &Vec<u8>) -> (r: Result<(), Error>)
        requires
            1 <= chunk@.len() <= 4000,
        ensures
            Self::quiet_io(*old(self), *final(self)),
            r is Ok ==> final(self).conn.port.sent() == old(self).conn.port.sent() + frame_of(
                0x31,
                u32_le_spec(addr) + chunk@,
            ),
    {
        let cmd = Command::FlashProgram(addr, subvec(chunk, 0, chunk.len()));
        self.conn.command(&cmd)?;
        Ok(())
    }

    /// Erases flash over `[start, end)`; `end` is the first address not
    /// erased.
    pub fn flash_erase(&mut self, start: u32, end: u32) -> (r: Result<(), Error>)
        ensures
            Self::quiet_io(*old(self), *final(self)),
            r is Ok ==> final(self).conn.port.sent() == old(self).conn.port.sent() + frame_of(
                0x30,
                u32_le_spec(start) + u32_le_spec(end),
            ),
    {
        self.conn.command(&Command::FlashErase(start, end))?;
        Ok(())
    }

    // ----- link control: handshake and the connect loop -----

    /// One handshake: the auto-baud training burst, then up to five
    /// tries to read a bare `OK`.  The 200 ms handshake timeout is
    /// restored on every exit path.
    pub fn handshake(&mut self) -> (r: Result<(), Error>)
        ensures
            Self::steady_cfg(*old(self), *final(self)),
            final(self).conn.baud_rate == old(self).conn.baud_rate,
            final(self).conn.port.baud() == old(self).conn.port.baud(),
            r is Ok ==> final(self).conn.port.sent() == old(self).conn.port.sent()
                + training_burst((old(self).conn.speed_spec() / 10 / 1000) * 5),
    {
        let saved = self.conn.port.timeout();
        self.conn.port.set_timeout(200);
        let r = self.handshake_attempts();
        self.conn.port.set_timeout(saved);
        r
    }

    /// The burst and the read attempts, run under the handshake
    /// timeout.
    #[verifier::loop_isolation(false)]
    fn handshake_attempts(&mut self) -> (r: Result<(), Error>)
        ensures
            Self::steady_cfg(*old(self), *final(self)),
            final(self).conn.baud_rate == old(self).conn.baud_rate,
            final(self).conn.port.baud() == old(self).conn.port.baud(),
            r is Ok ==> final(self).conn.port.sent() == old(self).conn.port.sent()
                + training_burst((old(self).conn.speed_spec() / 10 / 1000) * 5),
    {
        let n = self.conn.calc_duration_length(5);
        let mut burst: Vec<u8> = Vec::new();
        let mut i: usize = 0;
        while i < n
            invariant
                0 <= i <= n,
                burst@ == Seq::new(i as nat, |j: int| 0x55u8),
            decreases n - i,
        {
            burst.push(0x55);
            i += 1;
            assert(burst@ =~= Seq::new(i as nat, |j: int| 0x55u8));
        }
        self.conn.write_all(&burst)?;
        self.conn.flush()?;
        self.conn.port.delay_ms(200);
        proof {
            assert(self.conn.port.sent() =~= old(self).conn.port.sent() + training_burst(
                (old(self).conn.speed_spec() / 10 / 1000) * 5,
            ));
        }
        let ghost pre = *self;
        let mut attempt: usize = 0;
        while attempt < 5
            invariant
                Self::steady_cfg(pre, *self),
                self.conn.baud_rate == pre.conn.baud_rate,
                self.conn.port.baud() == pre.conn.port.baud(),
                self.conn.port.sent() == pre.conn.port.sent(),
            decreases 5 - attempt,
        {
            match self.conn.read_response(0) {
                Ok(_) => {
                    return Ok(());
                },
                Err(_) => {},
            }
            attempt += 1;
        }
        Err(Error::Timeout)
    }

    /// The connect loop: put the chip into its ROM bootloader once,
    /// then retry the handshake up to ten times.
    #[verifier::loop_isolation(false)]
    fn start_connection(&mut self) -> (r: Result<(), Error>)
        ensures
            final(self).session_cfg() == old(self).session_cfg(),
            final(self).boot_info == old(self).boot_info,
            final(self).conn.baud_rate == old(self).conn.baud_rate,
            final(self).conn.port.timeout_ms() == old(self).conn.port.timeout_ms(),
            final(self).conn.port.baud() == old(self).conn.port.baud(),
            r is Ok ==> final(self).conn.port.pin_log() == old(self).conn.port.pin_log()
                + pin_events_spec(old(self).conn.boot_pin, true) + pin_events_spec(
                old(self).conn.reset_pin,
                true,
            ) + pin_events_spec(old(self).conn.reset_pin, false) + pin_events_spec(
                old(self).conn.boot_pin,
                false,
            ),
    {
        self.conn.reset_to_flash()?;
        let ghost pre = *self;
        let mut i: usize = 0;
        while i < 10
            invariant
                self.session_cfg() == pre.session_cfg(),
                self.boot_info == pre.boot_info,
                self.conn.baud_rate == pre.conn.baud_rate,
                self.conn.port.timeout_ms() == pre.conn.port.timeout_ms(),
                self.conn.port.baud() == pre.conn.port.baud(),
                self.conn.port.pin_log() == pre.conn.port.pin_log(),
            decreases 10 - i,
        {
            match self.conn.flush() {
                Ok(_) => {},
                Err(e) => {
                    return Err(e);
                },
            }
            match self.handshake() {
                Ok(_) => {
                    return Ok(());
                },
                Err(_) => {},
            }
            i += 1;
        }
        Err(Error::ConnectionFailed)
    }

    // ----- the orchestrator -----

    /// Opens a session: configures the initial speed, runs the connect
    /// loop, widens the read timeout to ten seconds and reads the boot
    /// information.
    pub fn connect(
        chip: ChipType,
        port: P,
        initial_speed: u32,
        flash_speed: u32,
        reset_pin: PinExpr,
        boot_pin: PinExpr,
    ) -> (r: Result<Flasher<P>, Error>)
        ensures
            r matches Ok(f) ==> {
                &&& f.chip == chip
                &&& f.flash_speed == flash_speed
                &&& f.conn.reset_pin == reset_pin
                &&& f.conn.boot_pin == boot_pin
                &&& f.boot_info.well_formed()
                &&& (chip == ChipType::Bl602 ==> f.boot_info.unknow_info@ == seq![
                    0u8,
                    0u8,
                    0u8,
                    0u8,
                ])
                &&& f.conn.port.timeout_ms() == 10000
                &&& f.conn.port.pin_log() == port.pin_log() + pin_events_spec(boot_pin, true)
                    + pin_events_spec(reset_pin, true) + pin_events_spec(reset_pin, false)
                    + pin_events_spec(boot_pin, false)
            },
    {
        let mut conn = Connection::new(port, reset_pin, boot_pin);
        match conn.set_baud(initial_speed) {
            Ok(_) => {},
            Err(e) => {
                return Err(e);
            },
        }
        let mut flasher = Flasher { conn, boot_info: BootInfoV2::default(), chip, flash_speed };
        flasher.start_connection()?;
        flasher.conn.set_timeout(10000);
        let bi = flasher.get_boot_info(chip)?;
        flasher.boot_info = bi;
        Ok(flasher)
    }

    /// Uploads the second-stage programmer: its boot header, its
    /// segment header, its data in chunks, then verify and run; after
    /// half a second, switches to the flash speed and handshakes with
    /// the now-running second stage.
    ///
    /// A blob too short to hold the two headers fails with `Io`, as a
    /// short read from the image source would.
    #[verifier::loop_isolation(false)]
    pub fn load_eflash_loader(&mut self, loader: &Vec<u8>) -> (r: Result<(), Error>)
        ensures
            Self::steady_cfg(*old(self), *final(self)),
            loader@.len() < 192 ==> r == Err::<(), Error>(Error::Io),
            r is Ok ==> final(self).conn.baud_rate == Some(old(self).flash_speed),
            r is Ok ==> final(self).conn.port.baud() == old(self).flash_speed,
            r is Ok ==> final(self).conn.port.sent() == old(self).conn.port.sent()
                + upload_frames(loader@) + training_burst(
                (old(self).flash_speed / 10 / 1000) * 5,
            ),
    {
        if loader.len() < 192 {
            return Err(Error::Io);
        }
        let header = subvec(loader, 0, 176);
        self.load_boot_header(&header)?;
        let seg_header = subvec(loader, 176, 192);
        let _echo = self.load_segment_header(&seg_header)?;
        let ghost pre = *self;
        let mut offset: usize = 192;
        while offset < loader.len()
            invariant
                192 <= offset <= loader@.len(),
                Self::steady_cfg(pre, *self),
                self.conn.baud_rate == pre.conn.baud_rate,
                self.conn.port.baud() == pre.conn.port.baud(),
                self.conn.port.sent() + chunk_frames(loader@, offset as int)
                    == pre.conn.port.sent() + chunk_frames(loader@, 192),
            decreases loader@.len() - offset,
        {
            let remaining = loader.len() - offset;
            let step = if remaining > CHUNK_LEN {
                CHUNK_LEN
            } else {
                remaining
            };
            let chunk = subvec(loader, offset, offset + step);
            let ghost sent_before = self.conn.port.sent();
            self.load_segment_data(&chunk)?;
            proof {
                assert(chunk_frames(loader@, offset as int) == frame_of(0x18, chunk@)
                    + chunk_frames(loader@, offset + step));
                assert(self.conn.port.sent() + chunk_frames(loader@, offset + step)
                    =~= sent_before + chunk_frames(loader@, offset as int));
            }
            offset += step;
        }
        proof {
            assert(chunk_frames(loader@, offset as int) =~= Seq::<u8>::empty());
            assert(self.conn.port.sent() + chunk_frames(loader@, offset as int)
                =~= self.conn.port.sent());
        }
        self.check_image()?;
        self.run_image()?;
        self.conn.port.delay_ms(500);
        let fs = self.flash_speed;
        self.conn.set_baud(fs)?;
        self.handshake()?;
        proof {
            assert(self.conn.port.sent() =~= old(self).conn.port.sent() + upload_frames(loader@)
                + training_burst((old(self).flash_speed / 10 / 1000) * 5));
        }
        Ok(())
    }

    /// Erases, programs in chunks and re-hashes one segment; returns
    /// whether the device's digest afterwards matches `local`.
    #[verifier::loop_isolation(false)]
    #[verifier::rlimit(60)]
    fn program_segment(&mut self, seg: &RomSegment, local: &Vec<u8>) -> (r: Result<bool, Error>)
        requires
            seg.fits(),
        ensures
            Self::steady_cfg(*old(self), *final(self)),
            final(self).conn.baud_rate == old(self).conn.baud_rate,
            final(self).conn.port.baud() == old(self).conn.port.baud(),
            r is Ok ==> final(self).conn.port.sent() == old(self).conn.port.sent()
                + forced_segment_frames(*seg),
    {
        let size = seg.data.len() as u32;
        self.flash_erase(seg.addr, seg.addr + size)?;
        let mut off: usize = 0;
        while off < seg.data.len()
            invariant
                0 <= off <= seg.data@.len(),
                Self::steady_cfg(*old(self), *self),
                self.conn.baud_rate == old(self).conn.baud_rate,
                self.conn.port.baud() == old(self).conn.port.baud(),
                self.conn.port.sent() + program_frames(seg.addr as int, seg.data@, off as int)
                    == old(self).conn.port.sent() + frame_of(
                    0x30,
                    u32_le_spec(seg.addr) + u32_le_spec(((seg.addr + seg.data@.len()) as u32)),
                ) + program_frames(seg.addr as int, seg.data@, 0),
            decreases seg.data@.len() - off,
        {
            let rem = seg.data.len() - off;
            let step = if rem > CHUNK_LEN {
                CHUNK_LEN
            } else {
                rem
            };
            let chunk = subvec(&seg.data, off, off + step);
            let cur = seg.addr + off as u32;
            let ghost sent_before = self.conn.port.sent();
            self.flash_program(cur, &chunk)?;
            proof {
                assert(program_frames(seg.addr as int, seg.data@, off as int) == frame_of(
                    0x31,
                    u32_le_spec(cur) + chunk@,
                ) + program_frames(seg.addr as int, seg.data@, off + step));
                assert(self.conn.port.sent() + program_frames(
                    seg.addr as int,
                    seg.data@,
                    off + step,
                ) =~= sent_before + program_frames(seg.addr as int, seg.data@, off as int));
            }
            off += step;
        }
        proof {
            assert(program_frames(seg.addr as int, seg.data@, off as int) =~= Seq::<u8>::empty());
            assert(self.conn.port.sent() + program_frames(seg.addr as int, seg.data@, off as int)
                =~= self.conn.port.sent());
        }
        let verify = self.sha256_read(seg.addr, size)?;
        proof {
            assert(self.conn.port.sent() =~= old(self).conn.port.sent() + forced_segment_frames(
                *seg,
            ));
        }
        Ok(bytes_eq(&verify, local))
    }

    /// Programs every segment: upload the second stage, then per
    /// segment hash-skip, erase `[addr, addr + len)`, program in
    /// chunks, and re-hash.  A post-program digest mismatch is
    /// advisory: the segment's address is reported, not failed.
    #[verifier::loop_isolation(false)]
    #[verifier::rlimit(100)]
    #[verifier::spinoff_prover]
    pub fn load_segments(
        &mut self,
        force: bool,
        segments: &Vec<RomSegment>,
        loader: &Vec<u8>,
    ) -> (r: Result<Vec<u32>, Error>)
        requires
            forall|i: int| 0 <= i < segments@.len() ==> (#[trigger] segments@[i]).fits(),
        ensures
            Self::steady_cfg(*old(self), *final(self)),
            loader@.len() < 192 ==> r == Err::<Vec<u32>, Error>(Error::Io),
            r matches Ok(m) ==> addrs_from(m@, segments@),
            force ==> (r is Ok ==> final(self).conn.port.sent() == old(self).conn.port.sent()
                + upload_frames(loader@) + training_burst(
                (old(self).flash_speed / 10 / 1000) * 5,
            ) + forced_frames(segments@)),
    {
        self.load_eflash_loader(loader)?;
        let ghost pre = *self;
        proof {
            assert(segments@.skip(0) =~= segments@);
        }
        let mut mismatched: Vec<u32> = Vec::new();
        let mut si: usize = 0;
        while si < segments.len()
            invariant
                0 <= si <= segments@.len(),
                forall|i: int| 0 <= i < segments@.len() ==> (#[trigger] segments@[i]).fits(),
                Self::steady_cfg(pre, *self),
                addrs_from(mismatched@, segments@),
                force ==> self.conn.port.sent() + forced_frames(segments@.skip(si as int))
                    == pre.conn.port.sent() + forced_frames(segments@),
            decreases segments@.len() - si,
        {
            let seg = &segments[si];
            let size = seg.data.len() as u32;
            let local = sha256_digest(&seg.data);
            if !force {
                let remote = self.sha256_read(seg.addr, size)?;
                if should_skip_segment(force, &local, &remote) {
                    si += 1;
                    continue;
                }
            }
            proof {
                assert(segments@.skip(si as int)[0] == segments@[si as int]);
                assert(segments@.skip(si as int).skip(1) =~= segments@.skip(si as int + 1));
            }
            let ghost sent_at_seg = self.conn.port.sent();
            let matched = self.program_segment(seg, &local)?;
            if !matched {
                proof {
                    assert(segments@[si as int].addr == seg.addr);
                }
                mismatched.push(seg.addr);
            }
            proof {
                if force {
                    assert(self.conn.port.sent() + forced_frames(segments@.skip(si as int + 1))
                        =~= sent_at_seg + forced_frames(segments@.skip(si as int)));
                }
            }
            si += 1;
        }
        proof {
            assert(forced_frames(segments@.skip(si as int)) =~= Seq::<u8>::empty());
            assert(self.conn.port.sent() + forced_frames(segments@.skip(si as int))
                =~= self.conn.port.sent());
        }
        Ok(mismatched)
    }

    /// Compares every segment's digest with what the device holds,
    /// without writing anything; returns the addresses that differ.
    #[verifier::loop_isolation(false)]
    #[verifier::rlimit(60)]
    pub fn check_segments(
        &mut self,
        segments: &Vec<RomSegment>,
        loader: &Vec<u8>,
    ) -> (r: Result<Vec<u32>, Error>)
        requires
            forall|i: int| 0 <= i < segments@.len() ==> (#[trigger] segments@[i]).fits(),
        ensures
            Self::steady_cfg(*old(self), *final(self)),
            loader@.len() < 192 ==> r == Err::<Vec<u32>, Error>(Error::Io),
            r matches Ok(m) ==> addrs_from(m@, segments@),
            r is Ok ==> final(self).conn.port.sent() == old(self).conn.port.sent()
                + upload_frames(loader@) + training_burst(
                (old(self).flash_speed / 10 / 1000) * 5,
            ) + digest_frames(segments@),
    {
        self.load_eflash_loader(loader)?;
        let ghost pre = *self;
        proof {
            assert(segments@.skip(0) =~= segments@);
        }
        let mut mismatched: Vec<u32> = Vec::new();
        let mut si: usize = 0;
        while si < segments.len()
            invariant
                0 <= si <= segments@.len(),
                forall|i: int| 0 <= i < segments@.len() ==> (#[trigger] segments@[i]).fits(),
                Self::steady_cfg(pre, *self),
                addrs_from(mismatched@, segments@),
                self.conn.port.sent() + digest_frames(segments@.skip(si as int))
                    == pre.conn.port.sent() + digest_frames(segments@),
            decreases segments@.len() - si,
        {
            let seg = &segments[si];
            let size = seg.data.len() as u32;
            let local = sha256_digest(&seg.data);
            proof {
                assert(segments@.skip(si as int)[0] == segments@[si as int]);
                assert(segments@.skip(si as int).skip(1) =~= segments@.skip(si as int + 1));
            }
            let ghost sent_at_seg = self.conn.port.sent();
            let remote = self.sha256_read(seg.addr, size)?;
            proof {
                assert(self.conn.port.sent() + digest_frames(segments@.skip(si as int + 1))
                    =~= sent_at_seg + digest_frames(segments@.skip(si as int)));
            }
            if !bytes_eq(&remote, &local) {
                proof {
                    assert(segments@[si as int].addr == seg.addr);
                }
                mismatched.push(seg.addr);
            }
            si += 1;
        }
        proof {
            assert(digest_frames(segments@.skip(si as int)) =~= Seq::<u8>::empty());
            assert(self.conn.port.sent() + digest_frames(segments@.skip(si as int))
                =~= self.conn.port.sent());
        }
        Ok(mismatched)
    }

    /// Reads back `[start, end)` in blocks of up to 4096 bytes.  A
    /// device answer that is empty or overshoots the range fails with
    /// `ParseError`, so the walk always ends.
    #[verifier::loop_isolation(false)]
    pub fn dump_flash(&mut self, start: u32, end: u32, loader: &Vec<u8>) -> (r: Result<
        Vec<u8>,
        Error,
    >)
        requires
            start <= end,
        ensures
            Self::steady_cfg(*old(self), *final(self)),
            loader@.len() < 192 ==> r == Err::<Vec<u8>, Error>(Error::Io),
            r matches Ok(v) ==> v@.len() == end - start,
    {
        self.load_eflash_loader(loader)?;
        let ghost pre = *self;
        let mut out: Vec<u8> = Vec::new();
        let mut cur: u32 = start;
        while cur < end
            invariant
                start <= cur <= end,
                out@.len() == cur - start,
                Self::steady_cfg(pre, *self),
            decreases end - cur,
        {
            let want = if end - cur > 4096 {
                4096u32
            } else {
                end - cur
            };
            let mut data = self.flash_read(cur, want)?;
            if data.len() == 0 {
                return Err(Error::ParseError);
            }
            let got = data.len() as u32;
            if got > end - cur {
                return Err(Error::ParseError);
            }
            out.append(&mut data);
            cur += got;
        }
        Ok(out)
    }
}

} // verus!
