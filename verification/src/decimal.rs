//! Decimal rendering and parsing of unsigned numbers.
//!
//! The pipeline renders numbers when it builds request URLs and progress
//! messages, and parses one when the caller supplies a concurrency bound as
//! text.  Both directions are specified exactly against `dec_of` and
//! `dec_value`.

use vstd::prelude::*;

verus! {

/// The character for a single decimal digit value.
pub open spec fn digit_char(d: int) -> char {
    if d == 0 {
        '0'
    } else if d == 1 {
        '1'
    } else if d == 2 {
        '2'
    } else if d == 3 {
        '3'
    } else if d == 4 {
        '4'
    } else if d == 5 {
        '5'
    } else if d == 6 {
        '6'
    } else if d == 7 {
        '7'
    } else if d == 8 {
        '8'
    } else {
        '9'
    }
}

/// The decimal rendering of a nonnegative number, most significant digit
/// first, with no leading zeros (`dec_of(0)` is `"0"`).
pub open spec fn dec_of(n: int) -> Seq<char>
    decreases n,
{
    if n < 10 {
        seq![digit_char(n)]
    } else {
        dec_of(n / 10) + seq![digit_char(n % 10)]
    }
}

/// Whether a sequence is one or more decimal digit characters.
pub open spec fn all_digits(s: Seq<char>) -> bool {
    forall|i: int| 0 <= i < s.len() ==> '0' <= #[trigger] s[i] <= '9'
}

/// The numeric value of a sequence of decimal digit characters.
pub open spec fn dec_value(s: Seq<char>) -> int
    decreases s.len(),
{
    if s.len() == 0 {
        0
    } else {
        dec_value(s.drop_last()) * 10 + (s.last() as int - '0' as int)
    }
}

/// The value of a digit string is never negative.
proof fn lemma_dec_value_nonneg(s: Seq<char>)
    requires
        all_digits(s),
    ensures
        dec_value(s) >= 0,
    decreases s.len(),
{
    if s.len() > 0 {
        assert(all_digits(s.drop_last())) by {
            assert(forall|i: int|
                0 <= i < s.len() - 1 ==> s.drop_last()[i] == #[trigger] s[i]);
        }
        lemma_dec_value_nonneg(s.drop_last());
    }
}

/// The single decimal digit for a value below ten.
fn digit_str(d: u64) -> (r: &'static str)
    requires
        d < 10,
    ensures
        r@ == seq![digit_char(d as int)],
        r@.len() == 1,
        '0' <= r@[0] <= '9',
{
    proof {
        reveal_strlit("0");
        reveal_strlit("1");
        reveal_strlit("2");
        reveal_strlit("3");
        reveal_strlit("4");
        reveal_strlit("5");
        reveal_strlit("6");
        reveal_strlit("7");
        reveal_strlit("8");
        reveal_strlit("9");
    }
    let r = match d {
        0 => "0",
        1 => "1",
        2 => "2",
        3 => "3",
        4 => "4",
        5 => "5",
        6 => "6",
        7 => "7",
        8 => "8",
        _ => "9",
    };
    proof {
        assert(r@ =~= seq![digit_char(d as int)]);
    }
    r
}

/// The decimal rendering of `n`, exactly `dec_of(n)`.
pub fn fmt_u64(n: u64) -> (r: String)
    ensures
        r@ == dec_of(n as int),
    decreases n,
{
    if n < 10 {
        String::from_str(digit_str(n))
    } else {
        let mut s = fmt_u64(n / 10);
        s.append(digit_str(n % 10));
        s
    }
}

/// The decimal value of `s`: `Some` exactly when `s` is one or more digits
/// and the value fits in a `usize`.
pub fn parse_usize(s: &str) -> (r: Option<usize>)
    ensures
        match r {
            Some(v) => all_digits(s@) && s@.len() > 0 && v == dec_value(s@),
            None => !(all_digits(s@) && s@.len() > 0 && dec_value(s@) <= usize::MAX),
        },
{
    let n = s.unicode_len();
    if n == 0 {
        return None;
    }
    let mut acc: usize = 0;
    let mut i: usize = 0;
    while i < n
        invariant
            0 <= i <= n,
            n == s@.len(),
            all_digits(s@.take(i as int)),
            acc == dec_value(s@.take(i as int)),
        decreases n - i,
    {
        let c = s.get_char(i);
        if !('0' <= c && c <= '9') {
            proof {
                assert(s@.take(i as int + 1)[i as int] == c);
                assert(!all_digits(s@));
            }
            return None;
        }
        let d: usize = (c as u32 as usize) - 48;
        proof {
            assert(s@.take(i as int + 1).drop_last() =~= s@.take(i as int));
            assert(s@.take(i as int + 1).last() == c);
            assert(all_digits(s@.take(i as int + 1))) by {
                assert(forall|k: int|
                    0 <= k < i ==> s@.take(i as int + 1)[k] == #[trigger] s@.take(i as int)[k]);
            }
        }
        if acc > (usize::MAX - d) / 10 {
            // The prefix already exceeds what a usize can hold; appending
            // further digits can only increase the value.
            proof {
                lemma_prefix_overflow(s@, i as int + 1);
            }
            return None;
        }
        acc = acc * 10 + d;
        i = i + 1;
    }
    proof {
        assert(s@.take(n as int) =~= s@);
        lemma_dec_value_nonneg(s@);
    }
    Some(acc)
}

/// If a digit-string prefix is already too large for a `usize`, the whole
/// string is too.
proof fn lemma_prefix_overflow(s: Seq<char>, j: int)
    requires
        0 < j <= s.len(),
        all_digits(s.take(j)),
        dec_value(s.take(j)) > usize::MAX,
    ensures
        !(all_digits(s) && dec_value(s) <= usize::MAX),
    decreases s.len() - j,
{
    if j == s.len() {
        assert(s.take(j) =~= s);
    } else if !('0' <= s[j] && s[j] <= '9') {
        assert(!all_digits(s));
    } else {
        assert(all_digits(s.take(j + 1))) by {
            assert(forall|k: int|
                0 <= k < j ==> s.take(j + 1)[k] == #[trigger] s.take(j)[k]);
            assert(s.take(j + 1)[j] == s[j]);
        }
        assert(s.take(j + 1).drop_last() =~= s.take(j));
        assert(dec_value(s.take(j + 1)) == dec_value(s.take(j)) * 10 + (s[j] as int - '0' as int));
        assert(dec_value(s.take(j)) * 10 >= dec_value(s.take(j))) by (nonlinear_arith)
            requires
                dec_value(s.take(j)) > 0,
        ;
        lemma_prefix_overflow(s, j + 1);
    }
}

/// The bound on simultaneously in-flight detail requests: the value of the
/// caller-supplied setting when it parses as a number, and 50 when the
/// setting is absent or unparsable.
pub fn concurrency_bound(raw: Option<String>) -> (n: usize)
    ensures
        match raw {
            Some(s) => if all_digits(s@) && s@.len() > 0 && dec_value(s@) <= usize::MAX {
                n == dec_value(s@)
            } else {
                n == 50
            },
            None => n == 50,
        },
{
    match raw {
        Some(s) => match parse_usize(s.as_str()) {
            Some(v) => v,
            None => 50,
        },
        None => 50,
    }
}

} // verus!
