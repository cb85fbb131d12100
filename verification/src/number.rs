//! Decimal parsing with the semantics of `str::parse` for unsigned integers:
//! an optional leading `+`, then at least one ASCII digit, and a value that
//! fits in the target type.

use vstd::prelude::*;

verus! {

/// Whether `c` is one of `'0'..='9'`.
pub open spec fn is_digit(c: char) -> bool {
    48 <= (c as u32) && (c as u32) <= 57
}

/// The value of an ASCII digit.
pub open spec fn digit_value(c: char) -> nat {
    ((c as u32) - 48) as nat
}

/// Every character of `s` is an ASCII digit.
pub open spec fn all_digits(s: Seq<char>) -> bool {
    forall|i: int| 0 <= i < s.len() ==> #[trigger] is_digit(s[i])
}

/// The value of a string of decimal digits, most significant first.
pub open spec fn decimal_value(s: Seq<char>) -> nat
    decreases s.len(),
{
    if s.len() == 0 {
        0
    } else {
        decimal_value(s.drop_last()) * 10 + digit_value(s.last())
    }
}

/// The digits that follow an optional leading `+`.
pub open spec fn unsigned_digits(s: Seq<char>) -> Seq<char> {
    if s.len() > 0 && s[0] == '+' {
        s.skip(1)
    } else {
        s
    }
}

/// What `str::parse` gives for an unsigned type whose largest value is `max`.
pub open spec fn spec_parse_unsigned(s: Seq<char>, max: nat) -> Option<nat> {
    let d = unsigned_digits(s);
    if d.len() > 0 && all_digits(d) && decimal_value(d) <= max {
        Some(decimal_value(d))
    } else {
        None
    }
}

/// The `u64` that `s` parses to, if any.
pub open spec fn spec_parse_u64(s: Seq<char>) -> Option<u64> {
    match spec_parse_unsigned(s, u64::MAX as nat) {
        Some(v) => Some(v as u64),
        None => None,
    }
}

/// The `usize` that `s` parses to, if any.
pub open spec fn spec_parse_usize(s: Seq<char>) -> Option<usize> {
    match spec_parse_unsigned(s, usize::MAX as nat) {
        Some(v) => Some(v as usize),
        None => None,
    }
}

/// The canonical decimal rendering of `n` (what `format!("{}", n)` prints).
pub open spec fn decimal_string(n: nat) -> Seq<char>
    decreases n,
{
    if n < 10 {
        seq![((n + 48) as u32) as char]
    } else {
        decimal_string(n / 10).push((((n % 10) + 48) as u32) as char)
    }
}

/// A digit string equals the rendering of its value exactly when it has no
/// superfluous leading zero.
pub open spec fn is_canonical_decimal(s: Seq<char>) -> bool {
    &&& s.len() > 0
    &&& all_digits(s)
    &&& (s.len() > 1 ==> s[0] != '0')
}

/// The rendering of `n` is a canonical digit string whose value is `n`.
pub proof fn lemma_decimal_string(n: nat)
    ensures
        decimal_string(n).len() > 0,
        all_digits(decimal_string(n)),
        decimal_value(decimal_string(n)) == n,
        decimal_string(n).len() > 1 ==> n >= 10,
        n >= 1 ==> decimal_string(n)[0] != '0',
        is_canonical_decimal(decimal_string(n)),
    decreases n,
{
    let s = decimal_string(n);
    if n < 10 {
        let c = ((n + 48) as u32) as char;
        assert(s == seq![c]);
        assert(c as u32 == n + 48);
        assert(s.drop_last() =~= Seq::<char>::empty());
        assert(decimal_value(s.drop_last()) == 0);
    } else {
        let m = n / 10;
        let t = decimal_string(m);
        lemma_decimal_string(m);
        let c = (((n % 10) + 48) as u32) as char;
        assert(s == t.push(c));
        assert(c as u32 == n % 10 + 48);
        assert(s.drop_last() =~= t);
        assert(all_digits(s)) by {
            assert forall|i: int| 0 <= i < s.len() implies #[trigger] is_digit(s[i]) by {
                if i < t.len() {
                    assert(s[i] == t[i]);
                    assert(is_digit(t[i]));
                }
            }
        }
        assert(s[0] == t[0]);
        assert(m >= 1);
    }
}

/// `str::parse` gives back the number that `decimal_string` rendered.
pub proof fn lemma_parse_decimal_string(n: nat, max: nat)
    requires
        n <= max,
    ensures
        spec_parse_unsigned(decimal_string(n), max) == Some(n),
{
    lemma_decimal_string(n);
    let s = decimal_string(n);
    assert(is_digit(s[0]));
    assert(unsigned_digits(s) == s);
}

/// The value of a digit prefix never exceeds the value of the whole string.
pub proof fn lemma_decimal_prefix_le(s: Seq<char>, k: int)
    requires
        all_digits(s),
        0 <= k <= s.len(),
    ensures
        decimal_value(s.take(k)) <= decimal_value(s),
    decreases s.len(),
{
    if k == s.len() {
        assert(s.take(k) =~= s);
    } else {
        let t = s.drop_last();
        assert(all_digits(t)) by {
            assert forall|i: int| 0 <= i < t.len() implies #[trigger] is_digit(t[i]) by {
                assert(is_digit(s[i]));
            }
        }
        lemma_decimal_prefix_le(t, k);
        assert(t.take(k) =~= s.take(k));
    }
}

/// Parse the characters `v[lo..hi]` as a `u64`.
pub fn parse_u64_in(v: &Vec<char>, lo: usize, hi: usize) -> (r: Option<u64>)
    requires
        lo <= hi <= v@.len(),
    ensures
        r == spec_parse_u64(v@.subrange(lo as int, hi as int)),
{
    let ghost s = v@.subrange(lo as int, hi as int);
    let mut i = lo;
    if i < hi && v[i] == '+' {
        i = i + 1;
    }
    let start = i;
    proof {
        assert(unsigned_digits(s) =~= v@.subrange(start as int, hi as int));
    }
    if start == hi {
        return None;
    }
    let mut acc: u64 = 0;
    while i < hi
        invariant
            lo <= start <= i <= hi <= v@.len(),
            start < hi,
            s == v@.subrange(lo as int, hi as int),
            unsigned_digits(s) =~= v@.subrange(start as int, hi as int),
            all_digits(v@.subrange(start as int, i as int)),
            acc as nat == decimal_value(v@.subrange(start as int, i as int)),
        decreases hi - i,
    {
        let ghost d_all = v@.subrange(start as int, hi as int);
        let ghost next = v@.subrange(start as int, i as int + 1);
        let c = v[i];
        let u = c as u32;
        if u < 48 || u > 57 {
            proof {
                assert(d_all[i - start] == c);
                assert(!is_digit(d_all[i - start]));
            }
            return None;
        }
        let d = (u - 48) as u64;
        proof {
            assert(next.drop_last() =~= v@.subrange(start as int, i as int));
            assert(next.last() == c);
        }
        if acc > (u64::MAX - d) / 10 {
            proof {
                assert(acc * 10 + d > u64::MAX) by (nonlinear_arith)
                    requires
                        acc > (u64::MAX - d) / 10,
                        d <= 9,
                ;
                if all_digits(d_all) {
                    lemma_decimal_prefix_le(d_all, i - start + 1);
                    assert(d_all.take(i - start + 1) =~= next);
                }
            }
            return None;
        }
        proof {
            assert(acc * 10 + d <= u64::MAX) by (nonlinear_arith)
                requires
                    acc <= (u64::MAX - d) / 10,
                    d <= 9,
            ;
            assert forall|j: int| 0 <= j < next.len() implies #[trigger] is_digit(next[j]) by {
                if j < next.len() - 1 {
                    assert(next[j] == v@.subrange(start as int, i as int)[j]);
                }
            }
        }
        acc = acc * 10 + d;
        i = i + 1;
    }
    proof {
        assert(v@.subrange(start as int, i as int) =~= unsigned_digits(s));
    }
    Some(acc)
}

/// Parse the characters `v[lo..hi]` as a `usize`.
pub fn parse_usize_in(v: &Vec<char>, lo: usize, hi: usize) -> (r: Option<usize>)
    requires
        lo <= hi <= v@.len(),
    ensures
        r == spec_parse_usize(v@.subrange(lo as int, hi as int)),
{
    match parse_u64_in(v, lo, hi) {
        Some(x) => {
            if x <= usize::MAX as u64 {
                Some(x as usize)
            } else {
                None
            }
        },
        None => None,
    }
}

/// Whether `v[lo..hi]` is the canonical decimal rendering of some number: at
/// least one digit, only digits, and no leading zero unless it is `0` itself.
pub fn is_canonical_decimal_in(v: &Vec<char>, lo: usize, hi: usize) -> (r: bool)
    requires
        lo <= hi <= v@.len(),
    ensures
        r == is_canonical_decimal(v@.subrange(lo as int, hi as int)),
{
    let ghost s = v@.subrange(lo as int, hi as int);
    if lo == hi {
        return false;
    }
    if hi - lo > 1 && v[lo] == '0' {
        assert(s[0] == v@[lo as int]);
        return false;
    }
    let mut i = lo;
    while i < hi
        invariant
            lo <= i <= hi <= v@.len(),
            s == v@.subrange(lo as int, hi as int),
            forall|j: int| lo <= j < i ==> #[trigger] is_digit(v@[j]),
        decreases hi - i,
    {
        let u = v[i] as u32;
        if u < 48 || u > 57 {
            assert(s[i - lo] == v@[i as int]);
            assert(!is_digit(s[i - lo]));
            return false;
        }
        i = i + 1;
    }
    assert(all_digits(s)) by {
        assert forall|j: int| 0 <= j < s.len() implies #[trigger] is_digit(s[j]) by {
            assert(s[j] == v@[lo + j]);
        }
    }
    true
}

/// `s.parse::<u64>()`.
pub fn parse_u64_str(s: &str) -> (r: Option<u64>)
    ensures
        r == spec_parse_u64(s@),
{
    let v = crate::strings::chars_of(s);
    assert(v@.subrange(0, v@.len() as int) =~= v@);
    parse_u64_in(&v, 0, v.len())
}

/// `s.parse::<usize>()`.
pub fn parse_usize_str(s: &str) -> (r: Option<usize>)
    ensures
        r == spec_parse_usize(s@),
{
    let v = crate::strings::chars_of(s);
    assert(v@.subrange(0, v@.len() as int) =~= v@);
    parse_usize_in(&v, 0, v.len())
}

} // verus!
