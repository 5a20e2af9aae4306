//! The framer: it owns the serial endpoint, sequences the reset and
//! boot control lines, writes command frames and decodes responses.

use vstd::prelude::*;

use crate::error::Error;
use crate::error::RomError;
use crate::pins::PinExpr;
use crate::pins::Wire;
use crate::port::PinEvent;
use crate::port::SerialIo;
use crate::protocol::classify_status;
use crate::protocol::Command;
use crate::protocol::RespShape;
use crate::protocol::RespStatus;
use crate::wire::u16_from_le;

verus! {

/// The baud rate assumed before any was configured.
pub const DEFAULT_BAUDRATE: u32 = 115200;

/// The control-line transitions that driving `e` to `level` produces.
pub open spec fn pin_events_spec(e: PinExpr, level: bool) -> Seq<PinEvent> {
    match e.wire {
        Wire::Rts => seq![PinEvent::Rts(e.driven_level(level))],
        Wire::Dtr => seq![PinEvent::Dtr(e.driven_level(level))],
        Wire::NoWire => seq![],
    }
}

/// A serial endpoint together with the configured baud rate and the
/// two pin expressions that sequence reset and boot entry.
pub struct Connection<P: SerialIo> {
    pub port: P,
    pub baud_rate: Option<u32>,
    pub reset_pin: PinExpr,
    pub boot_pin: PinExpr,
}

impl<P: SerialIo> Connection<P> {
    /// The pin expressions, bundled for frame conditions.
    pub open spec fn pins_cfg(&self) -> (PinExpr, PinExpr) {
        (self.reset_pin, self.boot_pin)
    }

    /// The speed the connection currently assumes.
    pub open spec fn speed_spec(&self) -> u32 {
        match self.baud_rate {
            Some(s) => s,
            None => DEFAULT_BAUDRATE,
        }
    }

    /// Wraps an opened endpoint; no baud rate is configured yet.
    pub fn new(port: P, reset_pin: PinExpr, boot_pin: PinExpr) -> (r: Connection<P>)
        ensures
            r.port == port,
            r.baud_rate is None,
            r.reset_pin == reset_pin,
            r.boot_pin == boot_pin,
    {
        Connection { port, baud_rate: None, reset_pin, boot_pin }
    }

    /// Releases the endpoint.
    pub fn into_inner(self) -> (r: P)
        ensures
            r == self.port,
    {
        self.port
    }

    /// Drives the wire `expr` names to `level`, inverted if the
    /// expression asks for that, then lets the transition settle.
    pub fn set_pin(&mut self, expr: PinExpr, level: bool) -> (r: Result<(), Error>)
        ensures
            final(self).pins_cfg() == old(self).pins_cfg(),
            final(self).baud_rate == old(self).baud_rate,
            final(self).port.timeout_ms() == old(self).port.timeout_ms(),
            final(self).port.baud() == old(self).port.baud(),
            final(self).port.sent() == old(self).port.sent(),
            r is Ok ==> final(self).port.pin_log() == old(self).port.pin_log() + pin_events_spec(
                expr,
                level,
            ),
            r is Err ==> final(self).port.pin_log() == old(self).port.pin_log(),
            expr.wire == Wire::NoWire ==> r is Ok,
    {
        let lv = if expr.inverted {
            !level
        } else {
            level
        };
        let res = match expr.wire {
            Wire::Rts => self.port.set_rts(lv),
            Wire::Dtr => self.port.set_dtr(lv),
            Wire::NoWire => Ok(()),
        };
        match res {
            Ok(_) => {
                self.port.delay_ms(10);
                proof {
                    assert(self.port.pin_log() =~= old(self).port.pin_log() + pin_events_spec(
                        expr,
                        level,
                    ));
                }
                Ok(())
            },
            Err(e) => Err(e),
        }
    }

    /// Drives the reset pin.
    fn set_reset_pin(&mut self, level: bool) -> (r: Result<(), Error>)
        ensures
            final(self).pins_cfg() == old(self).pins_cfg(),
            final(self).baud_rate == old(self).baud_rate,
            final(self).port.timeout_ms() == old(self).port.timeout_ms(),
            final(self).port.baud() == old(self).port.baud(),
            final(self).port.sent() == old(self).port.sent(),
            r is Ok ==> final(self).port.pin_log() == old(self).port.pin_log() + pin_events_spec(
                old(self).reset_pin,
                level,
            ),
            r is Err ==> final(self).port.pin_log() == old(self).port.pin_log(),
    {
        let e = self.reset_pin;
        self.set_pin(e, level)
    }

    /// Drives the boot pin.
    fn set_boot_pin(&mut self, level: bool) -> (r: Result<(), Error>)
        ensures
            final(self).pins_cfg() == old(self).pins_cfg(),
            final(self).baud_rate == old(self).baud_rate,
            final(self).port.timeout_ms() == old(self).port.timeout_ms(),
            final(self).port.baud() == old(self).port.baud(),
            final(self).port.sent() == old(self).port.sent(),
            r is Ok ==> final(self).port.pin_log() == old(self).port.pin_log() + pin_events_spec(
                old(self).boot_pin,
                level,
            ),
            r is Err ==> final(self).port.pin_log() == old(self).port.pin_log(),
    {
        let e = self.boot_pin;
        self.set_pin(e, level)
    }

    /// Resets the chip into its application: drop boot, pulse reset.
    pub fn reset(&mut self) -> (r: Result<(), Error>)
        ensures
            final(self).pins_cfg() == old(self).pins_cfg(),
            final(self).baud_rate == old(self).baud_rate,
            final(self).port.timeout_ms() == old(self).port.timeout_ms(),
            final(self).port.baud() == old(self).port.baud(),
            final(self).port.sent() == old(self).port.sent(),
            r is Ok ==> final(self).port.pin_log() == old(self).port.pin_log() + pin_events_spec(
                old(self).boot_pin,
                false,
            ) + pin_events_spec(old(self).reset_pin, true) + pin_events_spec(
                old(self).reset_pin,
                false,
            ),
    {
        self.set_boot_pin(false)?;
        self.set_reset_pin(true)?;
        self.set_reset_pin(false)?;
        Ok(())
    }

    /// Resets the chip into its ROM bootloader: assert boot, pulse
    /// reset, release boot.
    pub fn reset_to_flash(&mut self) -> (r: Result<(), Error>)
        ensures
            final(self).pins_cfg() == old(self).pins_cfg(),
            final(self).baud_rate == old(self).baud_rate,
            final(self).port.timeout_ms() == old(self).port.timeout_ms(),
            final(self).port.baud() == old(self).port.baud(),
            final(self).port.sent() == old(self).port.sent(),
            r is Ok ==> final(self).port.pin_log() == old(self).port.pin_log() + pin_events_spec(
                old(self).boot_pin,
                true,
            ) + pin_events_spec(old(self).reset_pin, true) + pin_events_spec(
                old(self).reset_pin,
                false,
            ) + pin_events_spec(old(self).boot_pin, false),
    {
        self.set_boot_pin(true)?;
        self.set_reset_pin(true)?;
        self.set_reset_pin(false)?;
        self.set_boot_pin(false)?;
        Ok(())
    }

    /// Reconfigures the endpoint's read timeout.
    pub fn set_timeout(&mut self, ms: u64)
        ensures
            final(self).pins_cfg() == old(self).pins_cfg(),
            final(self).baud_rate == old(self).baud_rate,
            final(self).port.timeout_ms() == ms,
            final(self).port.baud() == old(self).port.baud(),
            final(self).port.sent() == old(self).port.sent(),
            final(self).port.pin_log() == old(self).port.pin_log(),
    {
        self.port.set_timeout(ms);
    }

    /// Reconfigures the link speed in place; the remote side is assumed
    /// to match on its own timeline.
    pub fn set_baud(&mut self, speed: u32) -> (r: Result<(), Error>)
        ensures
            final(self).pins_cfg() == old(self).pins_cfg(),
            final(self).baud_rate == Some(speed),
            final(self).port.timeout_ms() == old(self).port.timeout_ms(),
            final(self).port.sent() == old(self).port.sent(),
            final(self).port.pin_log() == old(self).port.pin_log(),
            r is Ok ==> final(self).port.baud() == speed,
    {
        self.baud_rate = Some(speed);
        self.port.set_baud(speed)
    }

    /// How many 8-N-1 bytes fit in `ms` milliseconds at the current
    /// speed.
    pub fn calc_duration_length(&self, ms: u64) -> (r: usize)
        requires
            ms <= 1000,
        ensures
            r == (self.speed_spec() / 10 / 1000) * ms,
    {
        let speed = match self.baud_rate {
            Some(s) => s,
            None => DEFAULT_BAUDRATE,
        };
        let per_ms = (speed / 10 / 1000) as u64;
        proof {
            assert(per_ms <= 429496);
            assert(per_ms * ms <= 429496 * 1000) by (nonlinear_arith)
                requires
                    per_ms <= 429496,
                    0 <= ms <= 1000,
            ;
        }
        let n = per_ms * ms;
        n as usize
    }

    /// Writes raw bytes.
    pub fn write_all(&mut self, buf: &Vec<u8>) -> (r: Result<(), Error>)
        ensures
            final(self).pins_cfg() == old(self).pins_cfg(),
            final(self).baud_rate == old(self).baud_rate,
            final(self).port.timeout_ms() == old(self).port.timeout_ms(),
            final(self).port.baud() == old(self).port.baud(),
            final(self).port.pin_log() == old(self).port.pin_log(),
            r is Ok ==> final(self).port.sent() == old(self).port.sent() + buf@,
    {
        self.port.write_all(buf)
    }

    /// Pushes buffered bytes out.
    pub fn flush(&mut self) -> (r: Result<(), Error>)
        ensures
            final(self).pins_cfg() == old(self).pins_cfg(),
            final(self).baud_rate == old(self).baud_rate,
            final(self).port.timeout_ms() == old(self).port.timeout_ms(),
            final(self).port.baud() == old(self).port.baud(),
            final(self).port.pin_log() == old(self).port.pin_log(),
            final(self).port.sent() == old(self).port.sent(),
    {
        self.port.flush()
    }

    /// Reads a two-byte status header and dispatches on it: on `OK`
    /// reads a `len`-byte payload, on `FL` reads and decodes the ROM
    /// error code, on anything else fails with `RespError`.
    pub fn read_response(&mut self, len: usize) -> (r: Result<Vec<u8>, Error>)
        ensures
            final(self).pins_cfg() == old(self).pins_cfg(),
            final(self).baud_rate == old(self).baud_rate,
            final(self).port.timeout_ms() == old(self).port.timeout_ms(),
            final(self).port.baud() == old(self).port.baud(),
            final(self).port.pin_log() == old(self).port.pin_log(),
            final(self).port.sent() == old(self).port.sent(),
            r matches Ok(v) ==> v@.len() == len,
    {
        let head = match self.port.read_exact(2) {
            Ok(h) => h,
            Err(e) => {
                return Err(e);
            },
        };
        match classify_status(head[0], head[1]) {
            RespStatus::Okay => {
                if len > 0 {
                    self.port.read_exact(len)
                } else {
                    Ok(Vec::new())
                }
            },
            RespStatus::Failed => {
                let code = match self.port.read_exact(2) {
                    Ok(c) => c,
                    Err(e) => {
                        return Err(e);
                    },
                };
                Err(Error::RomError(RomError::from_code(u16_from_le(code[0], code[1]))))
            },
            RespStatus::Bad => Err(Error::RespError),
        }
    }

    /// Sends one command and consumes its whole response.
    ///
    /// On success the returned payload has exactly the shape the
    /// command's descriptor announces, and the frame written to the
    /// wire is exactly the command's serialization.
    pub fn command(&mut self, c: &Command) -> (r: Result<Vec<u8>, Error>)
        ensures
            final(self).pins_cfg() == old(self).pins_cfg(),
            final(self).baud_rate == old(self).baud_rate,
            final(self).port.timeout_ms() == old(self).port.timeout_ms(),
            final(self).port.baud() == old(self).port.baud(),
            final(self).port.pin_log() == old(self).port.pin_log(),
            c.body_spec().len() > 0xFFFF ==> r == Err::<Vec<u8>, Error>(Error::OverSizedPacket)
                && final(self).port.sent() == old(self).port.sent(),
            r is Ok ==> final(self).port.sent() == old(self).port.sent() + c.frame_spec(),
            r matches Ok(v) ==> match c.resp_shape_spec() {
                RespShape::NoPayload => v@.len() == 0,
                RespShape::Fixed(n) => v@.len() == n,
                RespShape::LenPrefixed => v@.len() <= 0xFFFF,
            },
    {
        let body = c.body_bytes();
        if body.len() > 0xFFFF {
            return Err(Error::OverSizedPacket);
        }
        let frame = c.frame_bytes();
        match self.write_all(&frame) {
            Ok(_) => {},
            Err(e) => {
                return Err(e);
            },
        }
        match self.flush() {
            Ok(_) => {},
            Err(e) => {
                return Err(e);
            },
        }
        match c.resp_shape() {
            RespShape::NoPayload => self.read_response(0),
            RespShape::Fixed(n) => self.read_response(n as usize),
            RespShape::LenPrefixed => {
                let lb = self.read_response(2)?;
                let n = u16_from_le(lb[0], lb[1]);
                self.port.read_exact(n as usize)
            },
        }
    }
}

} // verus!
