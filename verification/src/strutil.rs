//! Verified string helpers: trimming, case-insensitive matching,
//! substring replacement and decimal rendering.

use vstd::prelude::*;
use vstd::string::StrSliceExecFns;
use vstd::string::StringExecFns;

verus! {

/// ASCII whitespace, as trimmed from names and pasted codes.
pub open spec fn is_ws(c: char) -> bool {
    c == ' ' || c == '\t' || c == '\n' || c == '\r'
}

fn is_ws_exec(c: char) -> (r: bool)
    ensures
        r == is_ws(c),
{
    c == ' ' || c == '\t' || c == '\n' || c == '\r'
}

/// `s` with leading whitespace removed.
pub open spec fn spec_trim_start(s: Seq<char>) -> Seq<char>
    decreases s.len(),
{
    if s.len() > 0 && is_ws(s[0]) {
        spec_trim_start(s.drop_first())
    } else {
        s
    }
}

/// `s` with trailing whitespace removed.
pub open spec fn spec_trim_end(s: Seq<char>) -> Seq<char>
    decreases s.len(),
{
    if s.len() > 0 && is_ws(s.last()) {
        spec_trim_end(s.drop_last())
    } else {
        s
    }
}

/// `s` with whitespace removed from both ends.
pub open spec fn spec_trim(s: Seq<char>) -> Seq<char> {
    spec_trim_end(spec_trim_start(s))
}

proof fn lemma_trim_start_skip(s: Seq<char>, i: int)
    requires
        0 <= i <= s.len(),
        forall|j: int| 0 <= j < i ==> is_ws(s[j]),
    ensures
        spec_trim_start(s) == spec_trim_start(s.skip(i)),
    decreases i,
{
    if i > 0 {
        assert(is_ws(s[0]));
        assert(s.drop_first() =~= s.skip(1));
        assert(forall|j: int| 0 <= j < i - 1 ==> is_ws(#[trigger] s.skip(1)[j]));
        lemma_trim_start_skip(s.skip(1), i - 1);
        assert(s.skip(1).skip(i - 1) =~= s.skip(i));
    } else {
        assert(s.skip(0) =~= s);
    }
}

proof fn lemma_trim_start_noop(s: Seq<char>)
    requires
        s.len() == 0 || !is_ws(s[0]),
    ensures
        spec_trim_start(s) == s,
{
}

proof fn lemma_trim_end_take(s: Seq<char>, j: int)
    requires
        0 <= j <= s.len(),
        forall|k: int| j <= k < s.len() ==> is_ws(s[k]),
    ensures
        spec_trim_end(s) == spec_trim_end(s.take(j)),
    decreases s.len() - j,
{
    if j < s.len() {
        assert(is_ws(s.last()));
        assert(s.drop_last() =~= s.take(s.len() - 1));
        assert(forall|k: int| j <= k < s.len() - 1 ==> is_ws(#[trigger] s.take(s.len() - 1)[k]));
        lemma_trim_end_take(s.take(s.len() - 1), j);
        assert(s.take(s.len() - 1).take(j) =~= s.take(j));
    } else {
        assert(s.take(s.len() as int) =~= s);
    }
}

proof fn lemma_trim_end_noop(s: Seq<char>)
    requires
        s.len() == 0 || !is_ws(s.last()),
    ensures
        spec_trim_end(s) == s,
{
}

/// Remove ASCII whitespace from both ends of `s`.
pub fn trim_str<'a>(s: &'a str) -> (r: &'a str)
    ensures
        r@ == spec_trim(s@),
{
    let n = s.unicode_len();
    let mut i: usize = 0;
    while i < n && is_ws_exec(s.get_char(i))
        invariant
            0 <= i <= n,
            n == s@.len(),
            forall|j: int| 0 <= j < i ==> is_ws(s@[j]),
        decreases n - i,
    {
        i = i + 1;
    }
    let mut j: usize = n;
    while j > i && is_ws_exec(s.get_char(j - 1))
        invariant
            i <= j <= n,
            n == s@.len(),
            forall|k: int| j <= k < n ==> is_ws(s@[k]),
        decreases j,
    {
        j = j - 1;
    }
    let r = s.substring_char(i, j);
    proof {
        let t = s@.skip(i as int);
        lemma_trim_start_skip(s@, i as int);
        lemma_trim_start_noop(t);
        let u = t.take(j as int - i as int);
        assert(forall|k: int| j - i <= k < t.len() ==> is_ws(#[trigger] t[k]));
        lemma_trim_end_take(t, j as int - i as int);
        if j > i {
            assert(u.last() == s@[j - 1]);
        }
        lemma_trim_end_noop(u);
        assert(u =~= s@.subrange(i as int, j as int));
    }
    r
}

/// ASCII lowercase of a single character; all others are unchanged.
pub open spec fn lower_char(c: char) -> char {
    if 65 <= c as u32 && c as u32 <= 90 {
        (c as u32 + 32) as char
    } else {
        c
    }
}

/// ASCII lowercase of a character sequence.
pub open spec fn spec_lower(s: Seq<char>) -> Seq<char> {
    s.map_values(|c: char| lower_char(c))
}

fn lower_char_exec(c: char) -> (r: char)
    ensures
        r == lower_char(c),
{
    let u = c as u32;
    if 65 <= u && u <= 90 {
        ((u + 32) as u8) as char
    } else {
        c
    }
}

/// Does `s`, lowercased in its ASCII range, read exactly as `t`?
pub fn eq_lowered(s: &str, t: &str) -> (r: bool)
    ensures
        r == (spec_lower(s@) == t@),
{
    let n = s.unicode_len();
    if n != t.unicode_len() {
        proof {
            assert(spec_lower(s@).len() == s@.len());
        }
        return false;
    }
    let mut i: usize = 0;
    while i < n
        invariant
            0 <= i <= n,
            n == s@.len(),
            n == t@.len(),
            forall|j: int| 0 <= j < i ==> lower_char(s@[j]) == t@[j],
        decreases n - i,
    {
        if lower_char_exec(s.get_char(i)) != t.get_char(i) {
            proof {
                assert(spec_lower(s@)[i as int] == lower_char(s@[i as int]));
            }
            return false;
        }
        i = i + 1;
    }
    proof {
        assert(spec_lower(s@) =~= t@);
    }
    true
}

/// `s` with every non-overlapping occurrence of `pat` replaced by `to`,
/// scanning left to right.
pub open spec fn spec_replace(s: Seq<char>, pat: Seq<char>, to: Seq<char>) -> Seq<char>
    recommends
        pat.len() > 0,
    decreases s.len(),
{
    if s.len() == 0 {
        s
    } else if pat.len() > 0 && s.len() >= pat.len() && s.subrange(0, pat.len() as int) == pat {
        to + spec_replace(s.skip(pat.len() as int), pat, to)
    } else {
        seq![s[0]] + spec_replace(s.drop_first(), pat, to)
    }
}

fn matches_at(s: &str, i: usize, pat: &str) -> (r: bool)
    requires
        i + pat@.len() <= s@.len(),
    ensures
        r == (s@.subrange(i as int, i as int + pat@.len() as int) == pat@),
{
    let sn = s.unicode_len();
    let p = pat.unicode_len();
    let mut j: usize = 0;
    while j < p
        invariant
            0 <= j <= p,
            p == pat@.len(),
            sn == s@.len(),
            i + p <= s@.len(),
            forall|k: int| 0 <= k < j ==> s@[i + k] == pat@[k],
        decreases p - j,
    {
        if s.get_char(i + j) != pat.get_char(j) {
            proof {
                let w = s@.subrange(i as int, i as int + pat@.len() as int);
                assert(w[j as int] == s@[i + j]);
            }
            return false;
        }
        j = j + 1;
    }
    proof {
        assert(s@.subrange(i as int, i as int + pat@.len() as int) =~= pat@);
    }
    true
}

/// Replace every occurrence of `pat` in `s` by `to`, leftmost first.
pub fn replace_str(s: &str, pat: &str, to: &str) -> (r: String)
    requires
        pat@.len() > 0,
    ensures
        r@ == spec_replace(s@, pat@, to@),
{
    let n = s.unicode_len();
    let p = pat.unicode_len();
    let mut out = String::new();
    let mut i: usize = 0;
    proof {
        assert(s@.skip(0) =~= s@);
        assert(out@ + spec_replace(s@, pat@, to@) =~= spec_replace(s@, pat@, to@));
    }
    while i < n
        invariant
            0 <= i <= n,
            n == s@.len(),
            p == pat@.len(),
            p > 0,
            spec_replace(s@, pat@, to@) == out@ + spec_replace(s@.skip(i as int), pat@, to@),
        decreases n - i,
    {
        let ghost rest = s@.skip(i as int);
        if n - i >= p && matches_at(s, i, pat) {
            out.append(to);
            proof {
                assert(rest.subrange(0, p as int) =~= s@.subrange(i as int, i as int + p as int));
                assert(rest.skip(p as int) =~= s@.skip(i as int + p as int));
            }
            i = i + p;
        } else {
            let piece = s.substring_char(i, i + 1);
            out.append(piece);
            proof {
                if n - i >= p {
                    assert(rest.subrange(0, p as int) =~= s@.subrange(
                        i as int,
                        i as int + p as int,
                    ));
                }
                assert(piece@ =~= seq![rest[0]]);
                assert(rest.drop_first() =~= s@.skip(i as int + 1));
            }
            i = i + 1;
        }
    }
    proof {
        assert(s@.skip(n as int) =~= Seq::<char>::empty());
        assert(out@ + Seq::<char>::empty() =~= out@);
    }
    out
}

/// The character for a single decimal digit.
pub open spec fn digit_char(d: int) -> char
    recommends
        0 <= d < 10,
{
    (48 + d) as char
}

/// The decimal rendering of a non-negative number, most significant digit
/// first, with no leading zeros (a lone zero for 0).
pub open spec fn spec_dec_digits(n: int) -> Seq<char>
    recommends
        0 <= n,
    decreases n,
{
    if n < 10 {
        seq![digit_char(n)]
    } else {
        spec_dec_digits(n / 10) + seq![digit_char(n % 10)]
    }
}

fn digit_str(d: u64) -> (r: &'static str)
    requires
        d < 10,
    ensures
        r@ == seq![digit_char(d as int)],
{
    let r = if d == 0 {
        "0"
    } else if d == 1 {
        "1"
    } else if d == 2 {
        "2"
    } else if d == 3 {
        "3"
    } else if d == 4 {
        "4"
    } else if d == 5 {
        "5"
    } else if d == 6 {
        "6"
    } else if d == 7 {
        "7"
    } else if d == 8 {
        "8"
    } else {
        "9"
    };
    proof {
        reveal_strlit("0");
        reveal_strlit("1");
        reveal_strlit("2");
        reveal_strlit("3");
        reveal_strlit("4");
        reveal_strlit("5");
        reveal_strlit("6");
        reveal_strlit("7");
        reveal_strlit("8");
        reveal_strlit("9");
        assert(r@ =~= seq![digit_char(d as int)]);
    }
    r
}

/// Render `n` in decimal.
pub fn u64_to_dec(n: u64) -> (r: String)
    ensures
        r@ == spec_dec_digits(n as int),
    decreases n,
{
    if n < 10 {
        let mut out = String::new();
        out.append(digit_str(n));
        proof {
            assert(out@ =~= spec_dec_digits(n as int));
        }
        out
    } else {
        let mut out = u64_to_dec(n / 10);
        out.append(digit_str(n % 10));
        out
    }
}

/// `s` with every trailing `/` removed.
pub open spec fn spec_trim_end_slashes(s: Seq<char>) -> Seq<char>
    decreases s.len(),
{
    if s.len() > 0 && s.last() == '/' {
        spec_trim_end_slashes(s.drop_last())
    } else {
        s
    }
}

proof fn lemma_trim_end_slashes_take(s: Seq<char>, j: int)
    requires
        0 <= j <= s.len(),
        forall|k: int| j <= k < s.len() ==> s[k] == '/',
    ensures
        spec_trim_end_slashes(s) == spec_trim_end_slashes(s.take(j)),
    decreases s.len() - j,
{
    if j < s.len() {
        assert(s.last() == '/');
        assert(s.drop_last() =~= s.take(s.len() - 1));
        assert(forall|k: int| j <= k < s.len() - 1 ==> #[trigger] s.take(s.len() - 1)[k] == '/');
        lemma_trim_end_slashes_take(s.take(s.len() - 1), j);
        assert(s.take(s.len() - 1).take(j) =~= s.take(j));
    } else {
        assert(s.take(s.len() as int) =~= s);
    }
}

/// Strip any trailing `/` characters from `s`.
pub fn trim_end_slashes<'a>(s: &'a str) -> (r: &'a str)
    ensures
        r@ == spec_trim_end_slashes(s@),
{
    let n = s.unicode_len();
    let mut j: usize = n;
    while j > 0 && s.get_char(j - 1) == '/'
        invariant
            0 <= j <= n,
            n == s@.len(),
            forall|k: int| j <= k < n ==> s@[k] == '/',
        decreases j,
    {
        j = j - 1;
    }
    let r = s.substring_char(0, j);
    proof {
        lemma_trim_end_slashes_take(s@, j as int);
        let u = s@.take(j as int);
        if j > 0 {
            assert(u.last() == s@[j - 1]);
        }
        assert(r@ =~= u);
    }
    r
}

} // verus!
