//! Chip profiles: the per-chip choices the protocol depends on.

use vstd::prelude::*;

verus! {

/// The supported chip families.  Unknown names parse as `Bl602`.
#[derive(Clone, Copy, Debug, PartialEq, Eq, Structural)]
pub enum ChipType {
    Bl602,
    Bl616,
}

/// ASCII lower-casing of one byte.
pub open spec fn ascii_lower(c: u8) -> u8 {
    if 0x41 <= c && c <= 0x5a {
        (c + 0x20) as u8
    } else {
        c
    }
}

/// Whether `s` spells `name` up to ASCII case.
pub open spec fn name_matches(s: Seq<u8>, name: Seq<u8>) -> bool {
    s.len() == name.len() && forall|i: int| 0 <= i < s.len() ==> ascii_lower(#[trigger] s[i]) == name[i]
}

/// The chip a name denotes; anything unrecognized is the default `Bl602`.
pub open spec fn chip_of_name(s: Seq<u8>) -> ChipType {
    if name_matches(s, seq![0x62u8, 0x6cu8, 0x36u8, 0x31u8, 0x36u8]) {
        ChipType::Bl616
    } else {
        ChipType::Bl602
    }
}

impl ChipType {
    /// Parses a chip name given as ASCII bytes, ignoring case.
    /// Unknown names yield the default chip rather than an error.
    pub fn from_name(s: &Vec<u8>) -> (r: ChipType)
        ensures
            r == chip_of_name(s@),
    {
        let ghost target: Seq<u8> = seq![0x62u8, 0x6cu8, 0x36u8, 0x31u8, 0x36u8];
        let bl616: [u8; 5] = [0x62, 0x6c, 0x36, 0x31, 0x36];
        proof {
            assert(bl616@ =~= target);
        }
        if s.len() != 5 {
            return ChipType::Bl602;
        }
        let mut i: usize = 0;
        while i < 5
            invariant
                0 <= i <= 5,
                s@.len() == 5,
                bl616@ == target,
                target == seq![0x62u8, 0x6cu8, 0x36u8, 0x31u8, 0x36u8],
                forall|j: int| 0 <= j < i ==> ascii_lower(#[trigger] s@[j]) == bl616@[j],
            decreases 5 - i,
        {
            let c = s[i];
            let lc = if 0x41 <= c && c <= 0x5a {
                c + 0x20
            } else {
                c
            };
            if lc != bl616[i] {
                proof {
                    assert(ascii_lower(s@[i as int]) != target[i as int]);
                    assert(!name_matches(s@, target));
                }
                return ChipType::Bl602;
            }
            i += 1;
        }
        assert(name_matches(s@, target));
        ChipType::Bl616
    }

    /// Whether the boot-info command returns the widened (v2) layout
    /// on this chip.
    pub fn boot_info_is_v2(&self) -> (r: bool)
        ensures
            r == (*self == ChipType::Bl616),
    {
        match self {
            ChipType::Bl602 => false,
            ChipType::Bl616 => true,
        }
    }
}

} // verus!
