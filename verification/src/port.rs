//! The serial endpoint as the protocol sees it.
//!
//! The drivers are generic over [`SerialIo`], whose contract models
//! the endpoint with four observations: the configured timeout, the
//! configured baud rate, every byte written so far, and every control
//! line transition driven so far.  What a read returns is the peer's
//! choice; only its length is promised.  The crate's scripted port
//! implements the trait with a proof; a real serial port implements it
//! outside the library.

use vstd::prelude::*;

use crate::error::Error;

verus! {

/// One control-line transition: the line driven and the level written.
#[derive(Clone, Copy, Debug, PartialEq, Eq, Structural)]
pub enum PinEvent {
    Rts(bool),
    Dtr(bool),
}

/// A serial endpoint: a byte pipe with a timeout, a baud rate and two
/// control lines.
pub trait SerialIo: Sized {
    /// The configured read timeout, in milliseconds.  An endpoint
    /// outside the library may leave the model at its defaults; nothing
    /// is proved about such an endpoint.
    open spec fn timeout_ms(&self) -> u64 {
        0
    }

    /// The configured baud rate.
    open spec fn baud(&self) -> u32 {
        0
    }

    /// Every byte written so far, oldest first.
    open spec fn sent(&self) -> Seq<u8> {
        Seq::empty()
    }

    /// Every control-line transition driven so far, oldest first.
    open spec fn pin_log(&self) -> Seq<PinEvent> {
        Seq::empty()
    }

    /// Writes all of `data`.
    fn write_all(&mut self, data: &Vec<u8>) -> (r: Result<(), Error>)
        ensures
            final(self).timeout_ms() == old(self).timeout_ms(),
            final(self).baud() == old(self).baud(),
            final(self).pin_log() == old(self).pin_log(),
            r is Ok ==> final(self).sent() == old(self).sent() + data@,
    ;

    /// Pushes buffered bytes out.
    fn flush(&mut self) -> (r: Result<(), Error>)
        ensures
            final(self).timeout_ms() == old(self).timeout_ms(),
            final(self).baud() == old(self).baud(),
            final(self).pin_log() == old(self).pin_log(),
            final(self).sent() == old(self).sent(),
    ;

    /// Reads exactly `n` bytes, or fails within the configured timeout.
    fn read_exact(&mut self, n: usize) -> (r: Result<Vec<u8>, Error>)
        ensures
            final(self).timeout_ms() == old(self).timeout_ms(),
            final(self).baud() == old(self).baud(),
            final(self).pin_log() == old(self).pin_log(),
            final(self).sent() == old(self).sent(),
            r matches Ok(v) ==> v@.len() == n,
    ;

    /// Reconfigures the read timeout.
    fn set_timeout(&mut self, ms: u64)
        ensures
            final(self).timeout_ms() == ms,
            final(self).baud() == old(self).baud(),
            final(self).pin_log() == old(self).pin_log(),
            final(self).sent() == old(self).sent(),
    ;

    /// The configured read timeout.
    fn timeout(&self) -> (t: u64)
        ensures
            t == self.timeout_ms(),
    ;

    /// Drives the RTS line to `level`.
    fn set_rts(&mut self, level: bool) -> (r: Result<(), Error>)
        ensures
            final(self).timeout_ms() == old(self).timeout_ms(),
            final(self).baud() == old(self).baud(),
            final(self).sent() == old(self).sent(),
            r is Ok ==> final(self).pin_log() == old(self).pin_log().push(PinEvent::Rts(level)),
            r is Err ==> final(self).pin_log() == old(self).pin_log(),
    ;

    /// Drives the DTR line to `level`.
    fn set_dtr(&mut self, level: bool) -> (r: Result<(), Error>)
        ensures
            final(self).timeout_ms() == old(self).timeout_ms(),
            final(self).baud() == old(self).baud(),
            final(self).sent() == old(self).sent(),
            r is Ok ==> final(self).pin_log() == old(self).pin_log().push(PinEvent::Dtr(level)),
            r is Err ==> final(self).pin_log() == old(self).pin_log(),
    ;

    /// Reconfigures the endpoint's baud rate in place.
    fn set_baud(&mut self, baud: u32) -> (r: Result<(), Error>)
        ensures
            final(self).timeout_ms() == old(self).timeout_ms(),
            final(self).pin_log() == old(self).pin_log(),
            final(self).sent() == old(self).sent(),
            r is Ok ==> final(self).baud() == baud,
    ;

    /// Waits `ms` milliseconds so the remote side can settle.
    fn delay_ms(&mut self, ms: u64)
        ensures
            final(self).timeout_ms() == old(self).timeout_ms(),
            final(self).baud() == old(self).baud(),
            final(self).pin_log() == old(self).pin_log(),
            final(self).sent() == old(self).sent(),
    ;
}

} // verus!
