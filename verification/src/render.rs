use vstd::prelude::*;
use vstd::string::StringExecFns;

use crate::datasize::{bytes_of, kilobytes_of, megabytes_of, DataSize};

verus! {

/// The character for one decimal digit.
pub open spec fn dec_digit(d: nat) -> char
    recommends
        d < 10,
{
    if d == 0 {
        '0'
    } else if d == 1 {
        '1'
    } else if d == 2 {
        '2'
    } else if d == 3 {
        '3'
    } else if d == 4 {
        '4'
    } else if d == 5 {
        '5'
    } else if d == 6 {
        '6'
    } else if d == 7 {
        '7'
    } else if d == 8 {
        '8'
    } else {
        '9'
    }
}

/// The decimal rendering of a number: its digits, most significant first,
/// with no leading zero except for the number 0 itself.
pub open spec fn dec_str(n: nat) -> Seq<char>
    decreases n,
{
    if n < 10 {
        seq![dec_digit(n)]
    } else {
        dec_str(n / 10).push(dec_digit(n % 10))
    }
}

/// The text a DataSize renders as: the value in the largest unit whose
/// magnitude is at least 1 (megabytes first, then kilobytes, bytes, bits),
/// with the unit's name in the singular exactly when the value is 1, and
/// `"0 bits"` when every magnitude is zero. Each unit magnitude is the
/// chain-truncated one that the accessors return.
pub open spec fn render_spec(num_bits: nat) -> Seq<char> {
    if megabytes_of(num_bits) == 1 {
        dec_str(megabytes_of(num_bits)) + " megabyte"@
    } else if megabytes_of(num_bits) > 1 {
        dec_str(megabytes_of(num_bits)) + " megabytes"@
    } else if kilobytes_of(num_bits) == 1 {
        dec_str(kilobytes_of(num_bits)) + " kilobyte"@
    } else if kilobytes_of(num_bits) > 1 {
        dec_str(kilobytes_of(num_bits)) + " kilobytes"@
    } else if bytes_of(num_bits) == 1 {
        dec_str(bytes_of(num_bits)) + " byte"@
    } else if bytes_of(num_bits) > 1 {
        dec_str(bytes_of(num_bits)) + " bytes"@
    } else if num_bits == 1 {
        dec_str(num_bits) + " bit"@
    } else {
        dec_str(num_bits) + " bits"@
    }
}

/// The one-character string for a decimal digit.
fn digit_str(d: u32) -> (r: &'static str)
    requires
        d < 10,
    ensures
        r@ == seq![dec_digit(d as nat)],
{
    if d == 0 {
        proof {
            reveal_strlit("0");
        }
        "0"
    } else if d == 1 {
        proof {
            reveal_strlit("1");
        }
        "1"
    } else if d == 2 {
        proof {
            reveal_strlit("2");
        }
        "2"
    } else if d == 3 {
        proof {
            reveal_strlit("3");
        }
        "3"
    } else if d == 4 {
        proof {
            reveal_strlit("4");
        }
        "4"
    } else if d == 5 {
        proof {
            reveal_strlit("5");
        }
        "5"
    } else if d == 6 {
        proof {
            reveal_strlit("6");
        }
        "6"
    } else if d == 7 {
        proof {
            reveal_strlit("7");
        }
        "7"
    } else if d == 8 {
        proof {
            reveal_strlit("8");
        }
        "8"
    } else {
        proof {
            reveal_strlit("9");
        }
        "9"
    }
}

/// Render a number in decimal.
fn u32_to_dec(n: u32) -> (s: String)
    ensures
        s@ == dec_str(n as nat),
    decreases n,
{
    if n < 10 {
        digit_str(n).to_owned()
    } else {
        let mut s = u32_to_dec(n / 10);
        s.append(digit_str(n % 10));
        proof {
            assert(s@ =~= dec_str(n as nat));
        }
        s
    }
}

impl DataSize {
    /// Render this DataSize as text, in the largest unit whose magnitude is
    /// at least 1, singular when that magnitude is 1: `"0 bits"`, `"1 bit"`,
    /// `"2 bytes"`, `"1 kilobyte"`, `"3 megabytes"`. Only the units up to
    /// the first non-zero magnitude are ever computed, so the value shown is
    /// the chain-truncated one the accessors return.
    pub fn render(&self) -> (s: String)
        ensures
            s@ == render_spec(self@),
    {
        if self.megabytes() == 1 {
            let mut s = u32_to_dec(self.megabytes());
            s.append(" megabyte");
            s
        } else if self.megabytes() > 1 {
            let mut s = u32_to_dec(self.megabytes());
            s.append(" megabytes");
            s
        } else if self.kilobytes() == 1 {
            let mut s = u32_to_dec(self.kilobytes());
            s.append(" kilobyte");
            s
        } else if self.kilobytes() > 1 {
            let mut s = u32_to_dec(self.kilobytes());
            s.append(" kilobytes");
            s
        } else if self.bytes() == 1 {
            let mut s = u32_to_dec(self.bytes());
            s.append(" byte");
            s
        } else if self.bytes() > 1 {
            let mut s = u32_to_dec(self.bytes());
            s.append(" bytes");
            s
        } else if self.bits() == 1 {
            let mut s = u32_to_dec(self.bits());
            s.append(" bit");
            s
        } else {
            let mut s = u32_to_dec(self.bits());
            s.append(" bits");
            s
        }
    }
}

} // verus!
