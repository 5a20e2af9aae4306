//! Pin expressions: which control line a name drives, and whether the
//! requested level is inverted before it is written.

use vstd::prelude::*;

use crate::error::Error;

verus! {

/// The control line a pin expression names.
#[derive(Clone, Copy, Debug, PartialEq, Eq, Structural)]
pub enum Wire {
    Rts,
    Dtr,
    /// `"null"`: drive nothing.
    NoWire,
}

/// A parsed pin expression: a wire, optionally inverted.
#[derive(Clone, Copy, Debug, PartialEq, Eq, Structural)]
pub struct PinExpr {
    /// A leading `!` in the expression: invert the level before writing.
    pub inverted: bool,
    pub wire: Wire,
}

/// The wire a bare (uninverted) name denotes, if any.
pub open spec fn wire_of_name(s: Seq<u8>) -> Option<Wire> {
    if s == seq![0x72u8, 0x74u8, 0x73u8] {  // "rts"
        Some(Wire::Rts)
    } else if s == seq![0x64u8, 0x74u8, 0x72u8] {  // "dtr"
        Some(Wire::Dtr)
    } else if s == seq![0x6eu8, 0x75u8, 0x6cu8, 0x6cu8] {  // "null"
        Some(Wire::NoWire)
    } else {
        None
    }
}

/// The parse of a whole pin expression, if it is well formed.
pub open spec fn pin_expr_of(s: Seq<u8>) -> Option<PinExpr> {
    if s.len() > 0 && s[0] == 0x21 {  // leading '!'
        match wire_of_name(s.skip(1)) {
            Some(w) => Some(PinExpr { inverted: true, wire: w }),
            None => None,
        }
    } else {
        match wire_of_name(s) {
            Some(w) => Some(PinExpr { inverted: false, wire: w }),
            None => None,
        }
    }
}

/// Compares `s` from `from` on against a wire name, returning the wire.
fn match_name(s: &Vec<u8>, from: usize) -> (r: Option<Wire>)
    requires
        from <= s@.len(),
    ensures
        r == wire_of_name(s@.skip(from as int)),
{
    let n = s.len() - from;
    if n == 3 && s[from] == 0x72 && s[from + 1] == 0x74 && s[from + 2] == 0x73 {
        proof {
            assert(s@.skip(from as int) =~= seq![0x72u8, 0x74u8, 0x73u8]);
        }
        Some(Wire::Rts)
    } else if n == 3 && s[from] == 0x64 && s[from + 1] == 0x74 && s[from + 2] == 0x72 {
        proof {
            assert(s@.skip(from as int) =~= seq![0x64u8, 0x74u8, 0x72u8]);
        }
        Some(Wire::Dtr)
    } else if n == 4 && s[from] == 0x6e && s[from + 1] == 0x75 && s[from + 2] == 0x6c && s[from
        + 3] == 0x6c {
        proof {
            assert(s@.skip(from as int) =~= seq![0x6eu8, 0x75u8, 0x6cu8, 0x6cu8]);
        }
        Some(Wire::NoWire)
    } else {
        proof {
            let t = s@.skip(from as int);
            assert(t == seq![0x72u8, 0x74u8, 0x73u8] ==> (t.len() == 3 && t[0] == 0x72 && t[1]
                == 0x74 && t[2] == 0x73));
            assert(t == seq![0x64u8, 0x74u8, 0x72u8] ==> (t.len() == 3 && t[0] == 0x64 && t[1]
                == 0x74 && t[2] == 0x72));
            assert(t == seq![0x6eu8, 0x75u8, 0x6cu8, 0x6cu8] ==> (t.len() == 4 && t[0] == 0x6e
                && t[1] == 0x75 && t[2] == 0x6c && t[3] == 0x6c));
        }
        None
    }
}

impl PinExpr {
    /// Parses a pin expression given as ASCII bytes: `rts`, `dtr` or
    /// `null`, optionally prefixed with `!`.  Unknown names fail with
    /// `ArgsError`.
    pub fn parse(s: &Vec<u8>) -> (r: Result<PinExpr, Error>)
        ensures
            r matches Ok(p) ==> pin_expr_of(s@) == Some(p),
            r is Err ==> pin_expr_of(s@) is None,
            r matches Err(e) ==> e == Error::ArgsError,
    {
        let inverted = s.len() > 0 && s[0] == 0x21;
        let start: usize = if inverted {
            1
        } else {
            0
        };
        proof {
            assert(s@.skip(0) =~= s@);
        }
        match match_name(s, start) {
            Some(w) => Ok(PinExpr { inverted, wire: w }),
            None => Err(Error::ArgsError),
        }
    }

    /// The level actually written to the wire when `level` is requested.
    pub open spec fn driven_level(&self, level: bool) -> bool {
        if self.inverted {
            !level
        } else {
            level
        }
    }
}

/// For an inverted expression the wire is driven to the opposite of the
/// requested level; for a bare one, to the level itself.
pub proof fn lemma_pin_inversion(e: PinExpr, level: bool)
    ensures
        e.inverted ==> e.driven_level(level) == !level,
        !e.inverted ==> e.driven_level(level) == level,
{
}

} // verus!
