//! Decimal rendering of signed 64-bit integers.
//!
//! The backing store carries numeric attribute values as decimal text, so the
//! key of every request is the decimal rendering of the chat id. `dec_int`
//! defines that rendering and `decimal_of_i64` produces it.

use vstd::prelude::*;

verus! {

/// The character for one decimal digit.
pub open spec fn digit_char(d: int) -> char {
    if d == 0 {
        '0'
    } else if d == 1 {
        '1'
    } else if d == 2 {
        '2'
    } else if d == 3 {
        '3'
    } else if d == 4 {
        '4'
    } else if d == 5 {
        '5'
    } else if d == 6 {
        '6'
    } else if d == 7 {
        '7'
    } else if d == 8 {
        '8'
    } else {
        '9'
    }
}

/// The decimal digits of a non-negative integer, most significant first,
/// with no leading zeros (a single '0' for zero itself).
pub open spec fn dec_nat(n: int) -> Seq<char>
    recommends
        0 <= n,
    decreases n,
{
    if n < 10 {
        seq![digit_char(n)]
    } else {
        dec_nat(n / 10).push(digit_char(n % 10))
    }
}

/// The decimal rendering of a signed integer: a minus sign for negatives,
/// then the digits of the magnitude.
pub open spec fn dec_int(n: int) -> Seq<char> {
    if n >= 0 {
        dec_nat(n)
    } else {
        seq!['-'] + dec_nat(-n)
    }
}

/// The digit characters of a digit sequence read back to front: the digits
/// are collected least significant first, so this is their display order.
spec fn rev_digit_chars(ds: Seq<u64>) -> Seq<char>
    decreases ds.len(),
{
    if ds.len() == 0 {
        Seq::empty()
    } else {
        seq![digit_char(ds.last() as int)] + rev_digit_chars(ds.drop_last())
    }
}

proof fn lemma_rev_digit_chars_prepend(d: u64, ds: Seq<u64>)
    ensures
        rev_digit_chars(seq![d] + ds) == rev_digit_chars(ds) + seq![digit_char(d as int)],
    decreases ds.len(),
{
    let s = seq![d] + ds;
    if ds.len() == 0 {
        assert(s.len() == 1);
        assert(s.last() == d);
        assert(s.drop_last() =~= Seq::<u64>::empty());
        assert(rev_digit_chars(s.drop_last()) == Seq::<char>::empty());
        assert(rev_digit_chars(s) == seq![digit_char(d as int)] + Seq::<char>::empty());
        assert(rev_digit_chars(ds) == Seq::<char>::empty());
        assert(rev_digit_chars(s) =~= rev_digit_chars(ds) + seq![digit_char(d as int)]);
    } else {
        assert(s.last() == ds.last());
        assert(s.drop_last() =~= seq![d] + ds.drop_last());
        lemma_rev_digit_chars_prepend(d, ds.drop_last());
        assert(rev_digit_chars(s) =~= rev_digit_chars(ds) + seq![digit_char(d as int)]);
    }
}

/// A one-character string slice for one decimal digit.
fn digit_str(d: u64) -> (s: &'static str)
    requires
        d < 10,
    ensures
        s@ == seq![digit_char(d as int)],
{
    let s: &'static str = if d == 0 {
        "0"
    } else if d == 1 {
        "1"
    } else if d == 2 {
        "2"
    } else if d == 3 {
        "3"
    } else if d == 4 {
        "4"
    } else if d == 5 {
        "5"
    } else if d == 6 {
        "6"
    } else if d == 7 {
        "7"
    } else if d == 8 {
        "8"
    } else {
        "9"
    };
    proof {
        reveal_strlit("0");
        reveal_strlit("1");
        reveal_strlit("2");
        reveal_strlit("3");
        reveal_strlit("4");
        reveal_strlit("5");
        reveal_strlit("6");
        reveal_strlit("7");
        reveal_strlit("8");
        reveal_strlit("9");
        assert(s@ =~= seq![digit_char(d as int)]);
    }
    s
}

/// The decimal rendering of a signed 64-bit integer.
pub fn decimal_of_i64(n: i64) -> (s: String)
    ensures
        s@ == dec_int(n as int),
{
    let neg = n < 0;
    let m: u64 = if n >= 0 {
        n as u64
    } else {
        ((-(n + 1)) as u64) + 1
    };
    let ghost mval: int = m as int;
    proof {
        assert(mval == if n as int >= 0 { n as int } else { -(n as int) });
    }

    // Collect the digits of the magnitude, least significant first.
    let mut digits: Vec<u64> = Vec::new();
    let mut rest: u64 = m;
    while rest >= 10
        invariant
            forall|i: int| 0 <= i < digits@.len() ==> digits@[i] < 10,
            dec_nat(mval) == dec_nat(rest as int) + rev_digit_chars(digits@),
        decreases rest,
    {
        let ghost ds0 = digits@;
        let d = rest % 10;
        digits.push(d);
        rest = rest / 10;
        proof {
            assert(digits@.last() == d);
            assert(digits@.drop_last() =~= ds0);
            assert(rev_digit_chars(digits@) =~= seq![digit_char(d as int)] + rev_digit_chars(ds0));
            assert(dec_nat(mval) =~= dec_nat(rest as int) + rev_digit_chars(digits@));
        }
    }
    let ghost ds0 = digits@;
    digits.push(rest);
    proof {
        assert(digits@.drop_last() =~= ds0);
        assert(rev_digit_chars(digits@) =~= seq![digit_char(rest as int)] + rev_digit_chars(ds0));
        assert(dec_nat(rest as int) =~= seq![digit_char(rest as int)]);
        assert(dec_nat(mval) =~= rev_digit_chars(digits@));
    }

    // Emit the sign, then the digits most significant first.
    let mut out = String::new();
    if neg {
        proof {
            reveal_strlit("-");
        }
        out.append("-");
    }
    let ghost base: Seq<char> = out@;
    proof {
        assert(out@ =~= base + rev_digit_chars(digits@.skip(digits@.len() as int)));
    }
    let mut i: usize = digits.len();
    while i > 0
        invariant
            i <= digits@.len(),
            forall|j: int| 0 <= j < digits@.len() ==> digits@[j] < 10,
            dec_nat(mval) == rev_digit_chars(digits@),
            out@ == base + rev_digit_chars(digits@.skip(i as int)),
            base == if n as int >= 0 { Seq::<char>::empty() } else { seq!['-'] },
        decreases i,
    {
        i = i - 1;
        let c = digit_str(digits[i]);
        out.append(c);
        proof {
            assert(digits@.skip(i as int) =~= seq![digits@[i as int]] + digits@.skip(i as int + 1));
            lemma_rev_digit_chars_prepend(digits@[i as int], digits@.skip(i as int + 1));
            assert(out@ =~= base + rev_digit_chars(digits@.skip(i as int)));
        }
    }
    proof {
        assert(digits@.skip(0) =~= digits@);
        assert(out@ =~= base + dec_nat(mval));
        assert(out@ =~= dec_int(n as int));
    }
    out
}

} // verus!
