//! A scripted serial peer: a [`SerialIo`] endpoint whose reads come
//! from a fixed byte script and whose writes and pin transitions are
//! recorded.  It drives the protocol in tests exactly as a device
//! would.

use vstd::prelude::*;

use crate::error::Error;
use crate::port::PinEvent;
use crate::port::SerialIo;
use crate::wire::subvec;

verus! {

/// A serial endpoint played from a script.
pub struct ScriptPort {
    /// The bytes the peer will emit, in order.
    pub script: Vec<u8>,
    /// How many script bytes have been consumed.
    pub cursor: usize,
    /// Every byte written to the peer so far.
    pub written: Vec<u8>,
    /// Every control-line transition driven so far.
    pub pins: Vec<PinEvent>,
    /// The configured read timeout, in milliseconds.
    pub timeout_cfg: u64,
    /// The configured baud rate.
    pub baud_cfg: u32,
}

impl ScriptPort {
    /// A fresh port that will emit `script`.
    pub fn new(script: Vec<u8>) -> (r: ScriptPort)
        ensures
            r.script == script,
            r.cursor == 0,
            r.written@ == Seq::<u8>::empty(),
            r.pins@ == Seq::<PinEvent>::empty(),
            r.timeout_cfg == 0,
            r.baud_cfg == 115200,
    {
        let r = ScriptPort {
            script,
            cursor: 0,
            written: Vec::new(),
            pins: Vec::new(),
            timeout_cfg: 0,
            baud_cfg: 115200,
        };
        proof {
            assert(r.written@ =~= Seq::<u8>::empty());
            assert(r.pins@ =~= Seq::<PinEvent>::empty());
        }
        r
    }
}

impl SerialIo for ScriptPort {
    open spec fn timeout_ms(&self) -> u64 {
        self.timeout_cfg
    }

    open spec fn baud(&self) -> u32 {
        self.baud_cfg
    }

    open spec fn sent(&self) -> Seq<u8> {
        self.written@
    }

    open spec fn pin_log(&self) -> Seq<PinEvent> {
        self.pins@
    }

    fn write_all(&mut self, data: &Vec<u8>) -> (r: Result<(), Error>) {
        let mut d = subvec(data, 0, data.len());
        self.written.append(&mut d);
        proof {
            assert(self.written@ =~= old(self).written@ + data@);
        }
        Ok(())
    }

    fn flush(&mut self) -> (r: Result<(), Error>) {
        Ok(())
    }

    fn read_exact(&mut self, n: usize) -> (r: Result<Vec<u8>, Error>)
        ensures
            r matches Ok(v) ==> {
                &&& old(self).cursor + n <= old(self).script@.len()
                &&& v@ == old(self).script@.subrange(
                    old(self).cursor as int,
                    old(self).cursor + n,
                )
                &&& final(self).cursor == old(self).cursor + n
            },
            final(self).script == old(self).script,
            r is Err ==> *final(self) == *old(self),
    {
        if self.cursor <= self.script.len() && n <= self.script.len() - self.cursor {
            let v = subvec(&self.script, self.cursor, self.cursor + n);
            self.cursor = self.cursor + n;
            Ok(v)
        } else {
            Err(Error::Timeout)
        }
    }

    fn set_timeout(&mut self, ms: u64) {
        self.timeout_cfg = ms;
    }

    fn timeout(&self) -> (t: u64) {
        self.timeout_cfg
    }

    fn set_rts(&mut self, level: bool) -> (r: Result<(), Error>) {
        self.pins.push(PinEvent::Rts(level));
        Ok(())
    }

    fn set_dtr(&mut self, level: bool) -> (r: Result<(), Error>) {
        self.pins.push(PinEvent::Dtr(level));
        Ok(())
    }

    fn set_baud(&mut self, baud: u32) -> (r: Result<(), Error>) {
        self.baud_cfg = baud;
        Ok(())
    }

    fn delay_ms(&mut self, ms: u64) {
    }
}

} // verus!
