//! Consensus-side problem parameters and the capability tag they imply.

use vstd::prelude::*;

verus! {

/// The fixed cycle length of the proof-of-work scheme: every proof is an
/// ordered sequence of exactly this many nonces.
pub const CYCLE_LENGTH: usize = 42;

/// Immutable pair fixing the problem instance size for a worker's lifetime.
/// `sizeshift` is the log2 of the graph's node count and determines the
/// capability tag the selected engine must carry.
#[derive(Clone, Copy, Debug, PartialEq, Eq, Structural)]
pub struct CycleParameters {
    pub ease: u32,
    pub sizeshift: u32,
}

impl CycleParameters {
    pub fn new(ease: u32, sizeshift: u32) -> (r: CycleParameters)
        ensures
            r.ease == ease,
            r.sizeshift == sizeshift,
    {
        CycleParameters { ease, sizeshift }
    }
}

/// The decimal digit characters of `n`, most significant first, with no
/// leading zero (`0` itself is the single character `'0'`).
pub open spec fn dec_digits(n: nat) -> Seq<char>
    decreases n,
{
    if n < 10 {
        seq![digit_char(n)]
    } else {
        dec_digits(n / 10) + seq![digit_char(n % 10)]
    }
}

/// The character for a single decimal digit.
pub open spec fn digit_char(d: nat) -> char {
    if d == 0 {
        '0'
    } else if d == 1 {
        '1'
    } else if d == 2 {
        '2'
    } else if d == 3 {
        '3'
    } else if d == 4 {
        '4'
    } else if d == 5 {
        '5'
    } else if d == 6 {
        '6'
    } else if d == 7 {
        '7'
    } else if d == 8 {
        '8'
    } else {
        '9'
    }
}

/// The capability tag implied by `sizeshift`: the literal prefix `simple_`
/// followed by the decimal digits of `sizeshift`.
pub open spec fn tag_spec(sizeshift: nat) -> Seq<char> {
    "simple_"@ + dec_digits(sizeshift)
}

/// A one-character string slice for the decimal digit `d`.
fn digit_str(d: u32) -> (r: &'static str)
    requires
        d < 10,
    ensures
        r@ == seq![digit_char(d as nat)],
{
    if d == 0 {
        proof {
            reveal_strlit("0");
        }
        "0"
    } else if d == 1 {
        proof {
            reveal_strlit("1");
        }
        "1"
    } else if d == 2 {
        proof {
            reveal_strlit("2");
        }
        "2"
    } else if d == 3 {
        proof {
            reveal_strlit("3");
        }
        "3"
    } else if d == 4 {
        proof {
            reveal_strlit("4");
        }
        "4"
    } else if d == 5 {
        proof {
            reveal_strlit("5");
        }
        "5"
    } else if d == 6 {
        proof {
            reveal_strlit("6");
        }
        "6"
    } else if d == 7 {
        proof {
            reveal_strlit("7");
        }
        "7"
    } else if d == 8 {
        proof {
            reveal_strlit("8");
        }
        "8"
    } else {
        proof {
            reveal_strlit("9");
        }
        "9"
    }
}

/// Appends the decimal digits of `n` to `s`.
fn append_decimal(s: &mut String, n: u32)
    ensures
        final(s)@ == old(s)@ + dec_digits(n as nat),
    decreases n,
{
    if n >= 10 {
        append_decimal(s, n / 10);
    }
    let d = digit_str(n % 10);
    s.append(d);
    proof {
        assert(s@ =~= old(s)@ + dec_digits(n as nat));
    }
}

/// Builds the capability tag an engine must carry to serve `sizeshift`.
pub fn capability_tag(sizeshift: u32) -> (r: String)
    ensures
        r@ == tag_spec(sizeshift as nat),
{
    let mut s = String::from_str("simple_");
    append_decimal(&mut s, sizeshift);
    s
}

} // verus!
