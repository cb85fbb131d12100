//! Names carried in widget ids and names the application makes up: the
//! composite symbol keys `SYMBOL:exchange:account_type` of the search and
//! watchlist modals, and numbered default names such as `Watchlist 3`.

use vstd::prelude::*;
use crate::number::{spec_parse_unsigned, decimal_string, parse_u64_in, lemma_parse_decimal_string};
use crate::strings::{chars_of, string_from_range};
use crate::widget_id::{starts_with, matches_at, push_decimal};

verus! {

// ---------------------------------------------------------------------------
// Composite symbol keys
// ---------------------------------------------------------------------------

/// The position of the last `:` in `s`.
pub open spec fn last_colon(s: Seq<char>) -> Option<int>
    decreases s.len(),
{
    if s.len() == 0 {
        None
    } else if s.last() == ':' {
        Some(s.len() - 1)
    } else {
        last_colon(s.drop_last())
    }
}

/// The last colon is a colon, and none follows it.
pub proof fn lemma_last_colon(s: Seq<char>)
    ensures
        match last_colon(s) {
            Some(k) => 0 <= k < s.len() && s[k] == ':' && forall|j: int|
                k < j < s.len() ==> s[j] != ':',
            None => forall|j: int| 0 <= j < s.len() ==> s[j] != ':',
        },
    decreases s.len(),
{
    if s.len() > 0 && s.last() != ':' {
        lemma_last_colon(s.drop_last());
        let t = s.drop_last();
        assert forall|j: int| 0 <= j < t.len() implies t[j] == s[j] by {}
    }
}

/// A composite key split at its last two colons.
pub enum KeyParts {
    /// No colon at all.
    Bare(Seq<char>),
    /// One colon: the text before and after it.
    Pair(Seq<char>, Seq<char>),
    /// Symbol, exchange and account type; the symbol may hold colons itself.
    Triple(Seq<char>, Seq<char>, Seq<char>),
}

/// Split `s` from the right at most twice.
pub open spec fn key_parts_of(s: Seq<char>) -> KeyParts {
    match last_colon(s) {
        None => KeyParts::Bare(s),
        Some(p) => {
            let rem = s.take(p);
            let tail = s.skip(p + 1);
            match last_colon(rem) {
                None => KeyParts::Pair(rem, tail),
                Some(q) => KeyParts::Triple(rem.take(q), rem.skip(q + 1), tail),
            }
        },
    }
}

/// `s` holds no colon.
pub open spec fn colon_free(s: Seq<char>) -> bool {
    forall|j: int| 0 <= j < s.len() ==> s[j] != ':'
}

/// Splitting loses nothing: the parts joined with colons give the key back,
/// and only the symbol may hold colons of its own.
pub proof fn law_symbol_key_rejoins(s: Seq<char>)
    ensures
        match key_parts_of(s) {
            KeyParts::Bare(a) => a == s && colon_free(a),
            KeyParts::Pair(a, b) => s == a + seq![':'] + b && colon_free(a) && colon_free(b),
            KeyParts::Triple(a, b, c) => s == a + seq![':'] + b + seq![':'] + c && colon_free(b)
                && colon_free(c),
        },
{
    lemma_last_colon(s);
    if let Some(p) = last_colon(s) {
        let rem = s.take(p);
        let tail = s.skip(p + 1);
        lemma_last_colon(rem);
        assert(colon_free(tail)) by {
            assert forall|j: int| 0 <= j < tail.len() implies tail[j] != ':' by {
                assert(tail[j] == s[p + 1 + j]);
            }
        }
        assert(s =~= rem + seq![':'] + tail);
        if let Some(q) = last_colon(rem) {
            let b = rem.skip(q + 1);
            assert(colon_free(b)) by {
                assert forall|j: int| 0 <= j < b.len() implies b[j] != ':' by {
                    assert(b[j] == rem[q + 1 + j]);
                }
            }
            assert(rem =~= rem.take(q) + seq![':'] + b);
            assert(s =~= rem.take(q) + seq![':'] + b + seq![':'] + tail);
        } else {
            assert(colon_free(rem));
        }
    }
}

/// A composite key split at its last two colons.
#[derive(Debug, Clone, PartialEq, Eq)]
pub enum SymbolKey {
    Bare(String),
    Pair(String, String),
    Triple(String, String, String),
}

impl View for SymbolKey {
    type V = KeyParts;

    open spec fn view(&self) -> KeyParts {
        match self {
            SymbolKey::Bare(a) => KeyParts::Bare(a@),
            SymbolKey::Pair(a, b) => KeyParts::Pair(a@, b@),
            SymbolKey::Triple(a, b, c) => KeyParts::Triple(a@, b@, c@),
        }
    }
}

/// The position of the last `:` among the first `hi` characters of `v`.
fn last_colon_in(v: &Vec<char>, hi: usize) -> (r: Option<usize>)
    requires
        hi <= v@.len(),
    ensures
        match r {
            Some(k) => last_colon(v@.take(hi as int)) == Some(k as int),
            None => last_colon(v@.take(hi as int)) is None,
        },
{
    let mut i = hi;
    while i > 0
        invariant
            i <= hi <= v@.len(),
            last_colon(v@.take(hi as int)) == last_colon(v@.take(i as int)),
        decreases i,
    {
        if v[i - 1] == ':' {
            assert(v@.take(i as int).last() == v@[i - 1]);
            return Some(i - 1);
        }
        assert(v@.take(i as int).drop_last() =~= v@.take(i - 1));
        i = i - 1;
    }
    None
}

/// Split a composite key `SYMBOL:exchange:account_type` from the right, so
/// that a symbol holding colons (such as `tETH2X:USD`) stays whole.
pub fn split_symbol_key(key: &str) -> (r: SymbolKey)
    ensures
        r@ == key_parts_of(key@),
{
    let v = chars_of(key);
    assert(v@.take(v@.len() as int) =~= v@);
    match last_colon_in(&v, v.len()) {
        None => SymbolKey::Bare(string_from_range(&v, 0, v.len())),
        Some(p) => {
            proof {
                lemma_last_colon(v@);
            }
            let tail = string_from_range(&v, p + 1, v.len());
            assert(v@.subrange(p + 1, v@.len() as int) =~= v@.skip(p + 1));
            match last_colon_in(&v, p) {
                None => {
                    let rem = string_from_range(&v, 0, p);
                    assert(v@.subrange(0, p as int) =~= v@.take(p as int));
                    SymbolKey::Pair(rem, tail)
                },
                Some(q) => {
                    proof {
                        lemma_last_colon(v@.take(p as int));
                    }
                    let sym = string_from_range(&v, 0, q);
                    let ex = string_from_range(&v, q + 1, p);
                    assert(v@.subrange(0, q as int) =~= v@.take(p as int).take(q as int));
                    assert(v@.subrange(q + 1, p as int) =~= v@.take(p as int).skip(q + 1));
                    SymbolKey::Triple(sym, ex, tail)
                },
            }
        },
    }
}

/// The `(symbol, exchange, account type)` a star toggle in the search modal
/// queues; `None` stands for the active exchange. With one colon the text
/// after it is the account type; without any, the account type is `S`.
pub open spec fn star_parts_of(s: Seq<char>) -> (Seq<char>, Option<Seq<char>>, Seq<char>) {
    match key_parts_of(s) {
        KeyParts::Bare(a) => (a, None, "S"@),
        KeyParts::Pair(a, b) => (a, None, b),
        KeyParts::Triple(a, b, c) => (a, Some(b), c),
    }
}

/// The key of a star toggle: symbol, exchange (`None` for the active
/// exchange) and account type.
pub fn star_toggle_parts(key: &str) -> (r: (String, Option<String>, String))
    ensures
        (r.0@, match r.1 {
            Some(e) => Some(e@),
            None => None,
        }, r.2@) == star_parts_of(key@),
{
    proof {
        reveal_strlit("S");
    }
    match split_symbol_key(key) {
        SymbolKey::Bare(a) => (a, None, string_of_s()),
        SymbolKey::Pair(a, b) => (a, None, b),
        SymbolKey::Triple(a, b, c) => (a, Some(b), c),
    }
}

/// The `(symbol, exchange, account type)` of a selected search result; an
/// empty exchange stands for the active exchange. With one colon the text
/// after it is the exchange; the account type is then `S`.
pub open spec fn search_item_parts_of(s: Seq<char>) -> (Seq<char>, Seq<char>, Seq<char>) {
    match key_parts_of(s) {
        KeyParts::Bare(a) => (a, Seq::empty(), "S"@),
        KeyParts::Pair(a, b) => (a, b, "S"@),
        KeyParts::Triple(a, b, c) => (a, b, c),
    }
}

/// The key of a selected search result: symbol, exchange (empty for the
/// active exchange) and account type.
pub fn search_item_parts(key: &str) -> (r: (String, String, String))
    ensures
        (r.0@, r.1@, r.2@) == search_item_parts_of(key@),
{
    proof {
        reveal_strlit("S");
    }
    match split_symbol_key(key) {
        SymbolKey::Bare(a) => (a, String::new(), string_of_s()),
        SymbolKey::Pair(a, b) => (a, b, string_of_s()),
        SymbolKey::Triple(a, b, c) => (a, b, c),
    }
}

/// The spot account type label `S`.
fn string_of_s() -> (r: String)
    ensures
        r@ == "S"@,
{
    proof {
        reveal_strlit("S");
    }
    let mut v: Vec<char> = Vec::new();
    v.push('S');
    let r = string_from_range(&v, 0, 1);
    assert(v@.subrange(0, 1) =~= "S"@);
    r
}

// ---------------------------------------------------------------------------
// Numbered default names
// ---------------------------------------------------------------------------

/// The number `n` of a name `{prefix}{n}`, parsed as a `u32`.
pub open spec fn numbered_value(name: Seq<char>, prefix: Seq<char>) -> Option<nat> {
    if starts_with(name, prefix) {
        spec_parse_unsigned(name.skip(prefix.len() as int), u32::MAX as nat)
    } else {
        None
    }
}

/// The largest number among the names `{prefix}{n}`, 0 when there is none.
pub open spec fn max_numbered(names: Seq<String>, prefix: Seq<char>) -> nat
    decreases names.len(),
{
    if names.len() == 0 {
        0
    } else {
        let m = max_numbered(names.drop_last(), prefix);
        match numbered_value(names.last()@, prefix) {
            Some(v) => if v > m {
                v
            } else {
                m
            },
            None => m,
        }
    }
}

/// The number of `name` if it is `{prefix}{n}`.
fn numbered_value_of(name: &String, prefix: &Vec<char>) -> (r: Option<u32>)
    ensures
        match r {
            Some(v) => numbered_value(name@, prefix@) == Some(v as nat),
            None => numbered_value(name@, prefix@) is None,
        },
{
    let v = chars_of(name.as_str());
    if !matches_at(&v, 0, prefix) {
        return None;
    }
    let ghost d = v@.skip(prefix@.len() as int);
    assert(v@.subrange(prefix@.len() as int, v@.len() as int) =~= d);
    match parse_u64_in(&v, prefix.len(), v.len()) {
        Some(x) => {
            if x <= 0xffff_ffffu64 {
                Some(x as u32)
            } else {
                None
            }
        },
        None => None,
    }
}

/// The next free default name `{prefix}{n}`: one more than the largest
/// number already used by a name `{prefix}{n}`, as the "new watchlist" and
/// "new indicator set" buttons propose. No name may already use the largest
/// `u32`, whose successor has no `u32` value.
pub fn next_numbered_name(prefix: &str, names: &Vec<String>) -> (r: String)
    requires
        forall|i: int|
            0 <= i < names@.len() ==> numbered_value(#[trigger] names@[i]@, prefix@) != Some(
                u32::MAX as nat,
            ),
    ensures
        r@ == prefix@ + decimal_string(max_numbered(names@, prefix@) + 1),
{
    let p = chars_of(prefix);
    let mut max_n: u32 = 0;
    let mut i: usize = 0;
    while i < names.len()
        invariant
            i <= names@.len(),
            p@ == prefix@,
            max_n as nat == max_numbered(names@.take(i as int), prefix@),
            max_n < u32::MAX,
            forall|j: int|
                0 <= j < names@.len() ==> numbered_value(#[trigger] names@[j]@, prefix@) != Some(
                    u32::MAX as nat,
                ),
        decreases names@.len() - i,
    {
        assert(names@.take(i + 1).drop_last() =~= names@.take(i as int));
        assert(names@.take(i + 1).last() == names@[i as int]);
        match numbered_value_of(&names[i], &p) {
            Some(x) => {
                if x > max_n {
                    max_n = x;
                }
            },
            None => {},
        }
        i = i + 1;
    }
    assert(names@.take(names@.len() as int) =~= names@);
    let mut out = p;
    push_decimal(&mut out, (max_n + 1) as usize);
    let r = string_from_range(&out, 0, out.len());
    assert(out@.subrange(0, out@.len() as int) =~= out@);
    r
}

/// The largest number is at least every number in use, and at most the
/// largest `u32`.
proof fn lemma_max_numbered(names: Seq<String>, prefix: Seq<char>)
    ensures
        forall|i: int|
            0 <= i < names.len() ==> match numbered_value(#[trigger] names[i]@, prefix) {
                Some(v) => v <= max_numbered(names, prefix),
                None => true,
            },
        max_numbered(names, prefix) <= u32::MAX,
        max_numbered(names, prefix) == 0 || exists|i: int|
            0 <= i < names.len() && numbered_value(#[trigger] names[i]@, prefix) == Some(
                max_numbered(names, prefix),
            ),
    decreases names.len(),
{
    if names.len() > 0 {
        let t = names.drop_last();
        lemma_max_numbered(t, prefix);
        assert forall|i: int| 0 <= i < t.len() implies #[trigger] names[i] == t[i] by {}
        let m = max_numbered(t, prefix);
        if m > 0 {
            let i = choose|i: int|
                0 <= i < t.len() && numbered_value(#[trigger] t[i]@, prefix) == Some(m);
            assert(names[i] == t[i]);
        }
        let last = names.len() - 1;
        assert(names[last] == names.last());
    }
}

/// The proposed name is new: no existing name is already `{prefix}{n}`
/// with the proposed number.
pub proof fn law_next_numbered_name_is_new(names: Seq<String>, prefix: Seq<char>)
    requires
        forall|i: int|
            0 <= i < names.len() ==> numbered_value(#[trigger] names[i]@, prefix) != Some(
                u32::MAX as nat,
            ),
    ensures
        forall|i: int|
            0 <= i < names.len() ==> #[trigger] names[i]@ != prefix + decimal_string(
                max_numbered(names, prefix) + 1,
            ),
{
    lemma_max_numbered(names, prefix);
    let m = max_numbered(names, prefix);
    assert(m < u32::MAX) by {
        if m == u32::MAX {
            let i = choose|i: int|
                0 <= i < names.len() && numbered_value(#[trigger] names[i]@, prefix) == Some(m);
            assert(numbered_value(names[i]@, prefix) == Some(u32::MAX as nat));
        }
    }
    let d = decimal_string(m + 1);
    let r = prefix + d;
    lemma_parse_decimal_string(m + 1, u32::MAX as nat);
    assert(r.subrange(0, prefix.len() as int) =~= prefix);
    assert(r.skip(prefix.len() as int) =~= d);
    assert(numbered_value(r, prefix) == Some((m + 1) as nat));
    assert forall|i: int| 0 <= i < names.len() implies #[trigger] names[i]@ != r by {
        if names[i]@ == r {
            assert(numbered_value(names[i]@, prefix) == Some((m + 1) as nat));
        }
    }
}

} // verus!
