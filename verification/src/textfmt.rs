//! Verified decimal text formatting.
//!
//! The panic path cannot rely on the ordinary formatting machinery, which
//! goes through the buffered, lock-arbitrated console.  The diagnostic
//! record is therefore assembled from plain string pieces, and the numeric
//! fields are rendered by the functions here: decimal representation, and
//! left-padding for fixed-width fields (space-padded seconds, zero-padded
//! microseconds).

use vstd::prelude::*;
use vstd::string::StrSliceExecFns;
use vstd::string::StringExecFns;

verus! {

/// The character for a single decimal digit.
pub open spec fn digit_char(d: nat) -> char {
    if d == 0 {
        '0'
    } else if d == 1 {
        '1'
    } else if d == 2 {
        '2'
    } else if d == 3 {
        '3'
    } else if d == 4 {
        '4'
    } else if d == 5 {
        '5'
    } else if d == 6 {
        '6'
    } else if d == 7 {
        '7'
    } else if d == 8 {
        '8'
    } else {
        '9'
    }
}

/// The decimal representation of `n`, most significant digit first,
/// without leading zeros (zero itself is a single `'0'`).
pub open spec fn dec_rep(n: nat) -> Seq<char>
    decreases n,
{
    if n < 10 {
        seq![digit_char(n)]
    } else {
        dec_rep(n / 10) + seq![digit_char(n % 10)]
    }
}

/// `s` left-padded with `fill` to `width` characters; unchanged when it
/// is already at least that wide.
pub open spec fn pad_left(s: Seq<char>, width: nat, fill: char) -> Seq<char> {
    if s.len() >= width {
        s
    } else {
        Seq::new((width - s.len()) as nat, |i: int| fill) + s
    }
}

/// One decimal digit as text.
fn digit_str(d: u64) -> (r: &'static str)
    requires
        d < 10,
    ensures
        r@ == seq![digit_char(d as nat)],
{
    let r: &'static str = if d == 0 {
        "0"
    } else if d == 1 {
        "1"
    } else if d == 2 {
        "2"
    } else if d == 3 {
        "3"
    } else if d == 4 {
        "4"
    } else if d == 5 {
        "5"
    } else if d == 6 {
        "6"
    } else if d == 7 {
        "7"
    } else if d == 8 {
        "8"
    } else {
        "9"
    };
    proof {
        reveal_strlit("0");
        reveal_strlit("1");
        reveal_strlit("2");
        reveal_strlit("3");
        reveal_strlit("4");
        reveal_strlit("5");
        reveal_strlit("6");
        reveal_strlit("7");
        reveal_strlit("8");
        reveal_strlit("9");
        assert(r@ =~= seq![digit_char(d as nat)]);
    }
    r
}

/// Render `n` in decimal.
pub fn u64_to_decimal(n: u64) -> (r: String)
    ensures
        r@ == dec_rep(n as nat),
    decreases n,
{
    if n < 10 {
        String::from_str(digit_str(n))
    } else {
        let mut s = u64_to_decimal(n / 10);
        s.append(digit_str(n % 10));
        s
    }
}

/// Left-pad `s` to `width` characters with the single character of
/// `fill`.
pub fn pad_left_string(s: String, width: usize, fill: &str) -> (r: String)
    requires
        fill@.len() == 1,
    ensures
        r@ == pad_left(s@, width as nat, fill@[0]),
{
    let n = s.as_str().unicode_len();
    if n >= width {
        s
    } else {
        let mut r = String::new();
        let mut i: usize = 0;
        while i < width - n
            invariant
                n == s@.len(),
                n < width,
                fill@.len() == 1,
                0 <= i <= width - n,
                r@ == Seq::new(i as nat, |j: int| fill@[0]),
            decreases width - n - i,
        {
            r.append(fill);
            proof {
                assert(r@ =~= Seq::new((i + 1) as nat, |j: int| fill@[0]));
            }
            i = i + 1;
        }
        r.append(s.as_str());
        proof {
            assert(r@ =~= pad_left(s@, width as nat, fill@[0]));
        }
        r
    }
}

} // verus!
