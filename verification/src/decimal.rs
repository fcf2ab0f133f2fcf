//! Fixed-point money values.
//!
//! Every monetary amount is a count of hundredths (cents), never a float, so
//! that partitioned generation and serialization are exact.  The printed form
//! is the integer part, a point, and exactly two fraction digits.

use crate::fmt::{push_digits, push_padded, spec_digits, spec_padded};
use vstd::prelude::*;
use vstd::string::StringExecFns;

verus! {

/// A fixed-point decimal: the held integer counts hundredths.
#[derive(Debug, Clone, Copy, PartialEq, Eq, Structural)]
pub struct TPCHDecimal(pub i64);

/// The printed form of a decimal holding `v` hundredths: integer part, a
/// point, two fraction digits, and a leading minus sign when negative.
pub open spec fn spec_decimal_chars(v: int) -> Seq<char> {
    if v < 0 {
        seq!['-'] + spec_digits(((-v) / 100) as nat) + seq!['.'] + spec_padded(
            ((-v) % 100) as nat,
            2,
        )
    } else {
        spec_digits((v / 100) as nat) + seq!['.'] + spec_padded((v % 100) as nat, 2)
    }
}

impl TPCHDecimal {
    /// The amount in hundredths.
    pub open spec fn spec_value(self) -> int {
        self.0 as int
    }

    /// Formats the amount with two fraction digits.
    pub fn to_tbl_string(&self) -> (r: String)
        requires
            self.0 > i64::MIN,
        ensures
            r@ == spec_decimal_chars(self.0 as int),
    {
        let mut out = String::new();
        let magnitude: u64 = if self.0 < 0 {
            out.append("-");
            (-self.0) as u64
        } else {
            self.0 as u64
        };
        push_digits(&mut out, magnitude / 100);
        out.append(".");
        push_padded(&mut out, magnitude % 100, 2);
        proof {
            reveal_strlit("-");
            reveal_strlit(".");
            assert(out@ =~= spec_decimal_chars(self.0 as int));
        }
        out
    }
}

} // verus!
