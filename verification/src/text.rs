//! Character-level helpers for the validators: extracting the characters
//! of a string, splitting on a separator, and parsing unsigned decimal
//! numbers the way `str::parse::<u32>` does.

use vstd::prelude::*;
use vstd::string::StrSliceExecFns;

verus! {

/// True for the ASCII decimal digits `'0'` through `'9'`.
pub open spec fn is_digit_char(c: char) -> bool {
    '0' as int <= c as int <= '9' as int
}

/// Numeric value of a decimal digit character.
pub open spec fn digit_value(c: char) -> int {
    c as int - '0' as int
}

/// Every character of `s` is a decimal digit.
pub open spec fn all_digits(s: Seq<char>) -> bool {
    forall|i: int| 0 <= i < s.len() ==> is_digit_char(s[i])
}

/// Value of a digit string read in base ten.
pub open spec fn dec_value(s: Seq<char>) -> int
    decreases s.len(),
{
    if s.len() == 0 {
        0
    } else {
        dec_value(s.drop_last()) * 10 + digit_value(s.last())
    }
}

/// The digit portion of a decimal literal: an optional leading `'+'`
/// sign is skipped, as `str::parse` for unsigned integers does.
pub open spec fn digits_of(s: Seq<char>) -> Seq<char> {
    if s.len() > 0 && s[0] == '+' {
        s.drop_first()
    } else {
        s
    }
}

/// What `str::parse::<u32>` returns on `s`: the value of the digits when
/// they are non-empty, all decimal, and the value fits in a `u32`.
pub open spec fn parse_u32_spec(s: Seq<char>) -> Option<u32> {
    let d = digits_of(s);
    if d.len() > 0 && all_digits(d) && dec_value(d) <= u32::MAX {
        Some(dec_value(d) as u32)
    } else {
        None
    }
}

/// A digit string has a non-negative value.
proof fn lemma_dec_value_nonneg(s: Seq<char>)
    requires
        all_digits(s),
    ensures
        dec_value(s) >= 0,
    decreases s.len(),
{
    if s.len() > 0 {
        assert(all_digits(s.drop_last())) by {
            assert(forall|i: int|
                0 <= i < s.drop_last().len() ==> s.drop_last()[i] == s[i]);
        }
        lemma_dec_value_nonneg(s.drop_last());
    }
}

/// Extending a digit string on the right cannot decrease its value.
proof fn lemma_dec_value_prefix_le(s: Seq<char>, i: int)
    requires
        all_digits(s),
        0 <= i <= s.len(),
    ensures
        dec_value(s.subrange(0, i)) <= dec_value(s),
    decreases s.len() - i,
{
    if i < s.len() {
        let pre = s.subrange(0, i);
        let ext = s.subrange(0, i + 1);
        assert(ext.drop_last() =~= pre);
        assert(all_digits(pre)) by {
            assert(forall|j: int| 0 <= j < pre.len() ==> pre[j] == s[j]);
        }
        lemma_dec_value_nonneg(pre);
        assert(dec_value(ext) == dec_value(pre) * 10 + digit_value(s[i]));
        assert(dec_value(pre) * 10 >= dec_value(pre)) by (nonlinear_arith)
            requires dec_value(pre) >= 0;
        lemma_dec_value_prefix_le(s, i + 1);
    } else {
        assert(s.subrange(0, i) =~= s);
    }
}

/// The characters of `s`, in order, as a vector.
pub fn chars_of(s: &str) -> (v: Vec<char>)
    ensures
        v@ == s@,
{
    let n: usize = s.unicode_len();
    let mut v: Vec<char> = Vec::new();
    let mut i: usize = 0;
    while i < n
        invariant
            i <= n,
            n == s@.len(),
            v@ == s@.subrange(0, i as int),
        decreases n - i,
    {
        v.push(s.get_char(i));
        assert(v@ =~= s@.subrange(0, i + 1 as int));
        i = i + 1;
    }
    assert(s@.subrange(0, n as int) =~= s@);
    v
}

/// Splitting `s` at every occurrence of `sep`, carrying the piece
/// accumulated so far; mirrors `str::split` with a `char` pattern.
pub open spec fn split_rec(s: Seq<char>, sep: char, cur: Seq<char>) -> Seq<Seq<char>>
    decreases s.len(),
{
    if s.len() == 0 {
        seq![cur]
    } else if s[0] == sep {
        seq![cur] + split_rec(s.drop_first(), sep, Seq::empty())
    } else {
        split_rec(s.drop_first(), sep, cur.push(s[0]))
    }
}

/// The pieces of `s` between occurrences of `sep`, as `str::split`
/// yields them: an empty string splits to one empty piece, and every
/// separator contributes a boundary.
pub open spec fn split_spec(s: Seq<char>, sep: char) -> Seq<Seq<char>> {
    split_rec(s, sep, Seq::empty())
}

/// The pieces of `s` between occurrences of `sep`.
pub fn split_char(s: &Vec<char>, sep: char) -> (parts: Vec<Vec<char>>)
    ensures
        parts@.len() == split_spec(s@, sep).len(),
        forall|k: int| 0 <= k < parts@.len() ==> parts@[k]@ == split_spec(s@, sep)[k],
{
    let mut parts: Vec<Vec<char>> = Vec::new();
    let mut cur: Vec<char> = Vec::new();
    let mut i: usize = 0;
    let ghost mut done: Seq<Seq<char>> = Seq::empty();
    assert(s@.subrange(0, s@.len() as int) =~= s@);
    assert(Seq::empty() + split_rec(s@, sep, Seq::<char>::empty()) =~= split_spec(s@, sep));
    while i < s.len()
        invariant
            i <= s@.len(),
            done.len() == parts@.len(),
            forall|k: int| 0 <= k < done.len() ==> parts@[k]@ == done[k],
            split_spec(s@, sep) == done + split_rec(
                s@.subrange(i as int, s@.len() as int),
                sep,
                cur@,
            ),
        decreases s@.len() - i,
    {
        let ghost rest = s@.subrange(i as int, s@.len() as int);
        let ghost old_cur = cur@;
        assert(rest.drop_first() =~= s@.subrange(i + 1 as int, s@.len() as int));
        if s[i] == sep {
            parts.push(cur);
            cur = Vec::new();
            proof {
                done = done.push(old_cur);
                assert(done + split_rec(rest.drop_first(), sep, Seq::empty())
                    =~= done.drop_last() + (seq![old_cur] + split_rec(
                        rest.drop_first(),
                        sep,
                        Seq::empty(),
                    )));
                assert(done.drop_last() =~= done.subrange(0, done.len() - 1));
            }
        } else {
            cur.push(s[i]);
        }
        i = i + 1;
    }
    assert(s@.subrange(s@.len() as int, s@.len() as int) =~= Seq::<char>::empty());
    let ghost old_cur = cur@;
    parts.push(cur);
    proof {
        done = done.push(old_cur);
        assert(done =~= done.drop_last() + seq![old_cur]);
    }
    parts
}

/// Parse a vector of characters as `str::parse::<u32>` would parse the
/// same characters.
pub fn parse_u32_chars(s: &Vec<char>) -> (r: Option<u32>)
    ensures
        r == parse_u32_spec(s@),
{
    let ghost d = digits_of(s@);
    let start: usize = if s.len() > 0 && s[0] == '+' {
        1
    } else {
        0
    };
    assert(d =~= s@.subrange(start as int, s@.len() as int));
    if s.len() == start {
        return None;
    }
    let mut acc: u32 = 0;
    let mut i: usize = start;
    while i < s.len()
        invariant
            start <= i <= s@.len(),
            d == digits_of(s@),
            d =~= s@.subrange(start as int, s@.len() as int),
            all_digits(d.subrange(0, i - start)),
            acc == dec_value(d.subrange(0, i - start)),
        decreases s@.len() - i,
    {
        let c = s[i];
        let ghost pre = d.subrange(0, i - start);
        let ghost ext = d.subrange(0, i + 1 - start);
        assert(ext.drop_last() =~= pre);
        assert(ext.last() == d[i - start]);
        if !('0' <= c && c <= '9') {
            assert(!is_digit_char(d[i - start]));
            assert(!all_digits(d));
            return None;
        }
        let dv: u32 = (c as u32) - ('0' as u32);
        assert(dv == digit_value(c));
        let wide: u64 = (acc as u64) * 10 + (dv as u64);
        assert(wide == dec_value(ext));
        if wide > u32::MAX as u64 {
            // The value of the digits seen so far already exceeds
            // `u32::MAX`, so the full string cannot parse either: if a
            // later character is not a digit the parse fails outright,
            // and otherwise the value only grows.
            if all_digits_check(s, i, start) {
                proof {
                    assert forall|k: int| 0 <= k < d.len() implies is_digit_char(d[k]) by {
                        if k < i - start {
                            assert(pre[k] == d[k]);
                        } else {
                            assert(d[k] == s@[k + start]);
                        }
                    }
                    lemma_dec_value_prefix_le(d, i + 1 - start);
                    assert(dec_value(d) >= dec_value(ext));
                }
            } else {
                proof {
                    let j: int = choose|j: int|
                        i <= j < s@.len() && !is_digit_char(s@[j]);
                    assert(!is_digit_char(d[j - start]));
                    assert(!all_digits(d));
                }
            }
            return None;
        }
        acc = wide as u32;
        i = i + 1;
    }
    assert(d.subrange(0, s@.len() - start) =~= d);
    Some(acc)
}

/// Whether every character of `s` from `i` on is a decimal digit;
/// `start` marks where the digit portion begins so the result can be
/// phrased over that portion.
fn all_digits_check(s: &Vec<char>, i: usize, start: usize) -> (r: bool)
    requires
        start <= i <= s@.len(),
    ensures
        r == forall|j: int| i <= j < s@.len() ==> is_digit_char(s@[j]),
{
    let mut j: usize = i;
    while j < s.len()
        invariant
            i <= j <= s@.len(),
            forall|k: int| i <= k < j ==> is_digit_char(s@[k]),
        decreases s@.len() - j,
    {
        let c = s[j];
        if !('0' <= c && c <= '9') {
            return false;
        }
        j = j + 1;
    }
    true
}

/// Whether two string slices hold the same characters.
pub fn str_eq(a: &str, b: &str) -> (r: bool)
    ensures
        r == (a@ == b@),
{
    let na: usize = a.unicode_len();
    let nb: usize = b.unicode_len();
    if na != nb {
        return false;
    }
    let mut i: usize = 0;
    while i < na
        invariant
            i <= na,
            na == a@.len(),
            na == b@.len(),
            forall|k: int| 0 <= k < i ==> a@[k] == b@[k],
        decreases na - i,
    {
        if a.get_char(i) != b.get_char(i) {
            return false;
        }
        i = i + 1;
    }
    proof {
        assert(a@ =~= b@);
    }
    true
}

/// A copy of a vector of strings whose mathematical value is unchanged.
pub fn clone_string_vec(v: &Vec<String>) -> (r: Vec<String>)
    ensures
        r.deep_view() == v.deep_view(),
{
    let r = v.clone();
    proof {
        assert forall|i: int| 0 <= i < r@.len() implies r@[i]@ == v@[i]@ by {
            assert(vstd::pervasive::cloned::<String>(v@[i], r@[i]));
        }
        assert(r.deep_view() =~= v.deep_view());
    }
    r
}

/// Relies on `String::push` from std: appends one character at the end.
#[verifier::external_body]
pub(crate) fn push_char(s: &mut String, c: char)
    ensures
        final(s)@ == old(s)@.push(c),
{
    s.push(c);
}

/// The character for one decimal digit value.
pub open spec fn digit_char(d: nat) -> char {
    if d == 0 {
        '0'
    } else if d == 1 {
        '1'
    } else if d == 2 {
        '2'
    } else if d == 3 {
        '3'
    } else if d == 4 {
        '4'
    } else if d == 5 {
        '5'
    } else if d == 6 {
        '6'
    } else if d == 7 {
        '7'
    } else if d == 8 {
        '8'
    } else {
        '9'
    }
}

/// The decimal digits of `n`, most significant first, without sign or
/// padding.
pub open spec fn dec_str(n: nat) -> Seq<char>
    decreases n,
{
    if n < 10 {
        seq![digit_char(n)]
    } else {
        dec_str(n / 10).push(digit_char(n % 10))
    }
}

/// The character for one decimal digit.
fn digit_to_char(d: u32) -> (c: char)
    requires
        d < 10,
    ensures
        c == digit_char(d as nat),
{
    match d {
        0 => '0',
        1 => '1',
        2 => '2',
        3 => '3',
        4 => '4',
        5 => '5',
        6 => '6',
        7 => '7',
        8 => '8',
        _ => '9',
    }
}

/// Append the decimal digits of `n` to `out`.
fn push_dec_digits(n: u32, out: &mut Vec<char>)
    ensures
        final(out)@ == old(out)@ + dec_str(n as nat),
    decreases n,
{
    if n < 10 {
        out.push(digit_to_char(n));
        assert(out@ =~= old(out)@ + dec_str(n as nat));
    } else {
        push_dec_digits(n / 10, out);
        out.push(digit_to_char(n % 10));
        assert(out@ =~= old(out)@ + dec_str(n as nat));
    }
}

/// The decimal rendering of `n`.
pub fn u32_to_string(n: u32) -> (r: String)
    ensures
        r@ == dec_str(n as nat),
{
    let mut v: Vec<char> = Vec::new();
    push_dec_digits(n, &mut v);
    assert(v@ =~= dec_str(n as nat));
    string_from_chars(&v)
}

/// A `String` holding exactly the characters of `v`.
pub fn string_from_chars(v: &Vec<char>) -> (r: String)
    ensures
        r@ == v@,
{
    let mut r = String::new();
    let mut i: usize = 0;
    while i < v.len()
        invariant
            i <= v@.len(),
            r@ == v@.subrange(0, i as int),
        decreases v@.len() - i,
    {
        push_char(&mut r, v[i]);
        assert(r@ =~= v@.subrange(0, i + 1 as int));
        i = i + 1;
    }
    assert(v@.subrange(0, v@.len() as int) =~= v@);
    r
}

} // verus!
