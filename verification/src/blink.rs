//! A blink pattern, written as dots and dashes.

use vstd::prelude::*;
use vstd::string::StrSliceExecFns;

verus! {

/// Bytes that hold a pattern.
pub const SIZE: usize = 2;

/// Whether `c` is a sign of a blink pattern: a dot or a dash.
pub open spec fn is_sign(c: char) -> bool {
    c == '.' || c == '-'
}

/// The first pattern byte after the signs `signs` have been shifted in
/// behind the marker bit: a dash is a one, a dot a zero, the newest sign
/// lowest. Signs that are shifted beyond the byte are lost.
pub open spec fn spec_pattern(signs: Seq<char>) -> u8
    decreases signs.len(),
{
    if signs.len() == 0 {
        1
    } else {
        ((spec_pattern(signs.drop_last()) << 1) & 0xfe) | if signs.last() == '-' {
            1u8
        } else {
            0u8
        }
    }
}

/// A command that blinks a light in a pattern.
#[derive(Clone, Copy, Debug)]
pub struct BlinkCommand {
    pattern: [u8; 2],
}

impl BlinkCommand {
    /// The bytes of the pattern.
    pub closed spec fn view(&self) -> Seq<u8> {
        self.pattern@
    }

    /// Reads a pattern of dots and dashes: the first byte is
    /// `spec_pattern` of the signs, the second is zero.
    pub fn new(pattern: &str) -> (blink: Self)
        requires
            forall|i: int| 0 <= i < pattern@.len() ==> is_sign(#[trigger] pattern@[i]),
        ensures
            blink@ == seq![spec_pattern(pattern@), 0u8],
    {
        let mut blink = Self { pattern: [0u8; 2] };
        blink.pattern[0] = 1;
        let n = pattern.unicode_len();
        let mut i: usize = 0;
        while i < n
            invariant
                i <= n,
                n == pattern@.len(),
                blink.pattern@.len() == 2,
                blink.pattern@[0] == spec_pattern(pattern@.take(i as int)),
                blink.pattern@[1] == 0,
            decreases n - i,
        {
            let c = pattern.get_char(i);
            let sign: u8 = if c == '-' {
                1
            } else {
                0
            };
            proof {
                let next = pattern@.take(i as int + 1);
                assert(next.drop_last() =~= pattern@.take(i as int));
                assert(next.last() == c);
            }
            let byte = blink.pattern[0];
            blink.pattern[0] = ((byte << 1) & 0xfe) | sign;
            i += 1;
        }
        assert(pattern@.take(i as int) =~= pattern@);
        assert(blink@ =~= seq![spec_pattern(pattern@), 0u8]);
        blink
    }

    /// The bytes of the pattern.
    pub fn pattern(&self) -> (p: [u8; 2])
        ensures
            p@ == self@,
    {
        self.pattern
    }
}

} // verus!
