//! Verified helpers for character-level string work.
//!
//! Every path, cache key and command argument in this crate is plain text,
//! so the contracts of the rest of the library are stated over `Seq<char>`
//! views; this module supplies the executable operations those contracts
//! need: equality, prefix/suffix tests, slicing and decimal rendering.

use vstd::prelude::*;
use vstd::string::*;

verus! {

/// Relies on `String::push`: appends exactly the given character.
pub assume_specification[ String::push ](s: &mut String, ch: char)
    ensures
        final(s)@ == old(s)@.push(ch),
;

/// `pre` is a prefix of `s`.
pub open spec fn spec_has_prefix(s: Seq<char>, pre: Seq<char>) -> bool {
    pre.len() <= s.len() && s.subrange(0, pre.len() as int) == pre
}

/// `suf` is a suffix of `s`.
pub open spec fn spec_has_suffix(s: Seq<char>, suf: Seq<char>) -> bool {
    suf.len() <= s.len() && s.subrange(s.len() - suf.len(), s.len() as int) == suf
}

/// Character-by-character equality of two string slices.
pub fn str_eq(a: &str, b: &str) -> (r: bool)
    ensures
        r == (a@ == b@),
{
    let a_len = a.unicode_len();
    let b_len = b.unicode_len();
    if a_len != b_len {
        proof {
            assert(a@ != b@) by {
                if a@ == b@ {
                    assert(a@.len() == b@.len());
                }
            }
        }
        return false;
    }
    let mut i: usize = 0;
    while i < a_len
        invariant
            i <= a_len,
            a_len == a@.len(),
            a_len == b@.len(),
            forall|j: int| 0 <= j < i ==> a@[j] == b@[j],
        decreases a_len - i,
    {
        if a.get_char(i) != b.get_char(i) {
            return false;
        }
        i += 1;
    }
    proof {
        assert(a@ =~= b@);
    }
    true
}

/// `s` starts with `pre`.
pub fn starts_with(s: &str, pre: &str) -> (r: bool)
    ensures
        r == spec_has_prefix(s@, pre@),
{
    let s_len = s.unicode_len();
    let pre_len = pre.unicode_len();
    if pre_len > s_len {
        return false;
    }
    let head = s.substring_char(0, pre_len);
    str_eq(head, pre)
}

/// `s` ends with `suf`.
pub fn ends_with(s: &str, suf: &str) -> (r: bool)
    ensures
        r == spec_has_suffix(s@, suf@),
{
    let s_len = s.unicode_len();
    let suf_len = suf.unicode_len();
    if suf_len > s_len {
        return false;
    }
    let tail = s.substring_char(s_len - suf_len, s_len);
    str_eq(tail, suf)
}

/// The first `n` characters of `s`, or all of `s` when it is shorter.
pub fn take_chars(s: &str, n: usize) -> (r: String)
    ensures
        r@ == s@.take(if n <= s@.len() { n as int } else { s@.len() as int }),
{
    let len = s.unicode_len();
    let upto = if n <= len {
        n
    } else {
        len
    };
    let part = s.substring_char(0, upto);
    proof {
        assert(part@ =~= s@.take(upto as int));
    }
    part.to_owned()
}

/// Everything after the first `n` characters of `s`; empty when `n` is past
/// the end.
pub fn skip_chars(s: &str, n: usize) -> (r: String)
    ensures
        r@ == s@.skip(if n <= s@.len() { n as int } else { s@.len() as int }),
{
    let len = s.unicode_len();
    let from = if n <= len {
        n
    } else {
        len
    };
    let part = s.substring_char(from, len);
    proof {
        assert(part@ =~= s@.skip(from as int));
    }
    part.to_owned()
}

/// Index of the first occurrence of `c` in `s`.
pub fn find_char(s: &str, c: char) -> (r: Option<usize>)
    ensures
        match r {
            Some(i) => i < s@.len() && s@[i as int] == c && forall|j: int|
                0 <= j < i ==> s@[j] != c,
            None => forall|j: int| 0 <= j < s@.len() ==> s@[j] != c,
        },
{
    let len = s.unicode_len();
    let mut i: usize = 0;
    while i < len
        invariant
            i <= len,
            len == s@.len(),
            forall|j: int| 0 <= j < i ==> s@[j] != c,
        decreases len - i,
    {
        if s.get_char(i) == c {
            return Some(i);
        }
        i += 1;
    }
    None
}

/// `s` contains the character `c`.
pub fn contains_char(s: &str, c: char) -> (r: bool)
    ensures
        r == exists|j: int| 0 <= j < s@.len() && s@[j] == c,
{
    match find_char(s, c) {
        Some(i) => {
            proof {
                assert(0 <= i < s@.len() && s@[i as int] == c);
            }
            true
        },
        None => false,
    }
}

/// An ASCII whitespace character.
pub open spec fn spec_is_space(c: char) -> bool {
    c == ' ' || c == '\t' || c == '\n' || c == '\r' || c == '\u{b}' || c == '\u{c}'
}

/// `s` holds nothing but whitespace.
pub open spec fn spec_blank(s: Seq<char>) -> bool {
    forall|i: int| 0 <= i < s.len() ==> spec_is_space(#[trigger] s[i])
}

/// Whether `s` is empty or all whitespace.
pub fn is_blank(s: &str) -> (r: bool)
    ensures
        r == spec_blank(s@),
{
    let len = s.unicode_len();
    let mut i: usize = 0;
    while i < len
        invariant
            i <= len,
            len == s@.len(),
            forall|j: int| 0 <= j < i ==> spec_is_space(#[trigger] s@[j]),
        decreases len - i,
    {
        let c = s.get_char(i);
        if !(c == ' ' || c == '\t' || c == '\n' || c == '\r' || c == '\u{b}' || c == '\u{c}') {
            return false;
        }
        i += 1;
    }
    true
}

/// `s` with every occurrence of `from` replaced by `to`.
pub fn replace_char(s: &str, from: char, to: char) -> (r: String)
    ensures
        r@ == s@.map_values(
            |c: char|
                if c == from {
                    to
                } else {
                    c
                },
        ),
{
    let len = s.unicode_len();
    let mut out = String::new();
    let mut i: usize = 0;
    while i < len
        invariant
            i <= len,
            len == s@.len(),
            out@ == s@.take(i as int).map_values(
                |c: char|
                    if c == from {
                        to
                    } else {
                        c
                    },
            ),
        decreases len - i,
    {
        let c = s.get_char(i);
        if c == from {
            out.push(to);
        } else {
            out.push(c);
        }
        proof {
            assert(out@ =~= s@.take(i + 1 as int).map_values(
                |c: char|
                    if c == from {
                        to
                    } else {
                        c
                    },
            ));
        }
        i += 1;
    }
    proof {
        assert(s@.take(len as int) =~= s@);
    }
    out
}

/// Whether some element of `v` has the same characters as `s`.
pub fn vec_contains_str(v: &Vec<String>, s: &str) -> (r: bool)
    ensures
        r == v.deep_view().contains(s@),
{
    let n = v.len();
    let mut i: usize = 0;
    while i < n
        invariant
            i <= n,
            n == v@.len(),
            forall|j: int| 0 <= j < i ==> v.deep_view()[j] != s@,
        decreases n - i,
    {
        if str_eq(v[i].as_str(), s) {
            proof {
                assert(v.deep_view()[i as int] == s@);
            }
            return true;
        }
        i += 1;
    }
    proof {
        assert(!v.deep_view().contains(s@)) by {
            if v.deep_view().contains(s@) {
                let j = choose|j: int| 0 <= j < v.deep_view().len() && v.deep_view()[j] == s@;
            }
        }
    }
    false
}

/// The pieces of `s` between occurrences of `c`: always at least one
/// piece, and none holds `c`.
pub open spec fn spec_split(s: Seq<char>, c: char) -> Seq<Seq<char>>
    decreases s.len(),
{
    if s.len() == 0 {
        seq![Seq::<char>::empty()]
    } else if s[0] == c {
        seq![Seq::<char>::empty()] + spec_split(s.skip(1), c)
    } else {
        let rest = spec_split(s.skip(1), c);
        seq![seq![s[0]] + rest[0]] + rest.skip(1)
    }
}

/// Splitting never yields an empty list.
pub proof fn lemma_split_nonempty(s: Seq<char>, c: char)
    ensures
        spec_split(s, c).len() >= 1,
    decreases s.len(),
{
    if s.len() > 0 {
        lemma_split_nonempty(s.skip(1), c);
    }
}

/// Split `s` at every occurrence of `c`.
pub fn split_char(s: &str, c: char) -> (r: Vec<String>)
    ensures
        r.deep_view() == spec_split(s@, c),
{
    let n = s.unicode_len();
    let mut out: Vec<String> = Vec::new();
    let mut cur = String::new();
    let mut i: usize = 0;
    proof {
        lemma_split_nonempty(s@, c);
        assert(s@.skip(0) =~= s@);
    }
    while i < n
        invariant
            i <= n,
            n == s@.len(),
            spec_split(s@.skip(i as int), c).len() >= 1,
            spec_split(s@, c) == out.deep_view() + seq![cur@ + spec_split(s@.skip(i as int), c)[0]]
                + spec_split(s@.skip(i as int), c).skip(1),
        decreases n - i,
    {
        let ghost rest = s@.skip(i as int);
        let ghost rest1 = s@.skip(i + 1 as int);
        proof {
            assert(rest =~= seq![s@[i as int]] + rest1);
            lemma_split_nonempty(rest1, c);
        }
        let ch = s.get_char(i);
        if ch == c {
            proof {
                assert(rest.skip(1) =~= rest1);
                assert(rest[0] == c);
                assert(spec_split(rest, c) =~= seq![Seq::<char>::empty()] + spec_split(rest1, c));
            }
            let ghost old_out = out.deep_view();
            let ghost old_cur = cur@;
            out.push(cur);
            cur = String::new();
            proof {
                assert(out.deep_view() =~= old_out.push(old_cur));
                assert(spec_split(rest, c)[0] =~= Seq::<char>::empty());
                assert(old_cur + spec_split(rest, c)[0] =~= old_cur);
                assert(spec_split(rest, c).skip(1) =~= spec_split(rest1, c));
                assert(out.deep_view() + seq![cur@ + spec_split(rest1, c)[0]] + spec_split(
                    rest1,
                    c,
                ).skip(1) =~= old_out + seq![old_cur] + spec_split(rest1, c));
                assert(seq![old_cur] + spec_split(rest1, c) =~= seq![old_cur + spec_split(
                    rest,
                    c,
                )[0]] + spec_split(rest, c).skip(1));
            }
        } else {
            proof {
                assert(rest.skip(1) =~= rest1);
                assert(rest[0] == s@[i as int]);
            }
            let ghost prev_cur = cur@;
            cur.push(ch);
            proof {
                assert(spec_split(rest, c)[0] =~= seq![s@[i as int]] + spec_split(rest1, c)[0]);
                assert(cur@ + spec_split(rest1, c)[0] =~= prev_cur + spec_split(rest, c)[0]);
                assert(spec_split(rest, c).skip(1) =~= spec_split(rest1, c).skip(1));
            }
        }
        i += 1;
    }
    proof {
        assert(s@.skip(n as int) =~= Seq::<char>::empty());
        assert(spec_split(Seq::<char>::empty(), c) == seq![Seq::<char>::empty()]);
        assert(spec_split(s@, c) =~= out.deep_view() + seq![cur@]);
    }
    let ghost old_out = out.deep_view();
    let ghost last = cur@;
    out.push(cur);
    proof {
        assert(out.deep_view() =~= old_out.push(last));
        assert(out.deep_view() =~= spec_split(s@, c));
    }
    out
}

/// A decimal digit.
pub open spec fn spec_is_digit(c: char) -> bool {
    48 <= c as int && c as int <= 57
}

/// The numeric value of a digit string, most significant digit first.
pub open spec fn spec_digits_value(s: Seq<char>) -> int
    decreases s.len(),
{
    if s.len() == 0 {
        0
    } else {
        spec_digits_value(s.drop_last()) * 10 + (s.last() as int - 48)
    }
}

/// Digit strings never render negative values.
pub proof fn lemma_digits_value_nonneg(s: Seq<char>)
    requires
        forall|j: int| 0 <= j < s.len() ==> spec_is_digit(#[trigger] s[j]),
    ensures
        spec_digits_value(s) >= 0,
    decreases s.len(),
{
    if s.len() > 0 {
        lemma_digits_value_nonneg(s.drop_last());
        assert(spec_digits_value(s.drop_last()) * 10 >= 0) by (nonlinear_arith)
            requires
                spec_digits_value(s.drop_last()) >= 0,
        ;
    }
}

/// What `parse` reads digits from: the text after an optional leading `+`.
pub open spec fn spec_parse_u32_body(s: Seq<char>) -> Seq<char> {
    if s.len() > 0 && s[0] == '+' {
        s.skip(1)
    } else {
        s
    }
}

/// The texts that parse as a `u32`: an optional `+`, then one or more
/// digits, with a value that fits.
pub open spec fn spec_parse_u32_ok(s: Seq<char>) -> bool {
    let body = spec_parse_u32_body(s);
    body.len() > 0 && (forall|j: int| 0 <= j < body.len() ==> spec_is_digit(#[trigger] body[j]))
        && spec_digits_value(body) <= u32::MAX
}

/// The value a parseable text denotes.
pub open spec fn spec_parse_u32_value(s: Seq<char>) -> int {
    spec_digits_value(spec_parse_u32_body(s))
}

/// Parse a `u32` the way the standard parser does: an optional leading
/// `+`, then one or more decimal digits; anything else, or a value that
/// does not fit, is no number.
pub fn parse_u32(s: &str) -> (r: Option<u32>)
    ensures
        r is Some <==> spec_parse_u32_ok(s@),
        r matches Some(v) ==> v == spec_parse_u32_value(s@),
{
    let len = s.unicode_len();
    let start: usize = if len > 0 && s.get_char(0) == '+' {
        1
    } else {
        0
    };
    let ghost body = spec_parse_u32_body(s@);
    proof {
        assert(body =~= s@.skip(start as int));
    }
    if start >= len {
        return None;
    }
    let mut value: u64 = 0;
    let mut over = false;
    let mut i = start;
    while i < len
        invariant
            start <= i <= len,
            len == s@.len(),
            body == s@.skip(start as int),
            body == spec_parse_u32_body(s@),
            body.len() == len - start,
            forall|j: int| start <= j < i ==> spec_is_digit(#[trigger] s@[j]),
            !over ==> value == spec_digits_value(body.take(i - start)) && value <= u32::MAX,
            over ==> spec_digits_value(body.take(i - start)) > u32::MAX,
        decreases len - i,
    {
        let c = s.get_char(i);
        let code = c as u32;
        if !(48 <= code && code <= 57) {
            proof {
                assert(body[i - start] == s@[i as int]);
                assert(!spec_is_digit(body[i - start]));
            }
            return None;
        }
        let d = (code - 48) as u64;
        let ghost prefix = body.take(i - start);
        let ghost prefix1 = body.take(i + 1 - start);
        proof {
            assert(prefix1.drop_last() =~= prefix);
            assert(prefix1.last() == s@[i as int]);
        }
        if !over {
            let nv = value * 10 + d;
            if nv > 0xffffffff {
                over = true;
                proof {
                    assert(spec_digits_value(prefix1) == value * 10 + d);
                }
            } else {
                value = nv;
                proof {
                    assert(spec_digits_value(prefix1) == spec_digits_value(prefix) * 10 + d);
                }
            }
        } else {
            proof {
                assert(forall|j: int| 0 <= j < prefix.len() ==> spec_is_digit(#[trigger] prefix[j]));
                lemma_digits_value_nonneg(prefix);
                assert(spec_digits_value(prefix1) == spec_digits_value(prefix) * 10 + (
                s@[i as int] as int - 48));
                assert(spec_digits_value(prefix) * 10 >= spec_digits_value(prefix))
                    by (nonlinear_arith)
                    requires
                        spec_digits_value(prefix) >= 0,
                ;
            }
        }
        i += 1;
    }
    proof {
        assert(body.take(len - start) =~= body);
    }
    if over {
        return None;
    }
    Some(value as u32)
}

/// The decimal rendering of a natural number, most significant digit first.
pub open spec fn spec_dec_digit(d: int) -> char {
    if d == 0 {
        '0'
    } else if d == 1 {
        '1'
    } else if d == 2 {
        '2'
    } else if d == 3 {
        '3'
    } else if d == 4 {
        '4'
    } else if d == 5 {
        '5'
    } else if d == 6 {
        '6'
    } else if d == 7 {
        '7'
    } else if d == 8 {
        '8'
    } else {
        '9'
    }
}

/// Decimal digit sequence of `n` (no sign, no leading zeros except for 0).
pub open spec fn spec_dec(n: nat) -> Seq<char>
    decreases n,
{
    if n < 10 {
        seq![spec_dec_digit(n as int)]
    } else {
        spec_dec((n / 10) as nat) + seq![spec_dec_digit((n % 10) as int)]
    }
}

/// One decimal digit as a string slice.
fn dec_digit_str(d: u64) -> (r: &'static str)
    requires
        d < 10,
    ensures
        r@ == seq![spec_dec_digit(d as int)],
{
    proof {
        reveal_strlit("0");
        reveal_strlit("1");
        reveal_strlit("2");
        reveal_strlit("3");
        reveal_strlit("4");
        reveal_strlit("5");
        reveal_strlit("6");
        reveal_strlit("7");
        reveal_strlit("8");
        reveal_strlit("9");
    }
    if d == 0 {
        "0"
    } else if d == 1 {
        "1"
    } else if d == 2 {
        "2"
    } else if d == 3 {
        "3"
    } else if d == 4 {
        "4"
    } else if d == 5 {
        "5"
    } else if d == 6 {
        "6"
    } else if d == 7 {
        "7"
    } else if d == 8 {
        "8"
    } else {
        "9"
    }
}

/// Render `n` in decimal.
pub fn u64_to_dec(n: u64) -> (r: String)
    ensures
        r@ == spec_dec(n as nat),
    decreases n,
{
    if n < 10 {
        dec_digit_str(n).to_owned()
    } else {
        let head = u64_to_dec(n / 10);
        head.concat(dec_digit_str(n % 10))
    }
}

/// Render `n` in decimal.
pub fn u128_to_dec(n: u128) -> (r: String)
    ensures
        r@ == spec_dec(n as nat),
    decreases n,
{
    if n < 10 {
        dec_digit_str(n as u64).to_owned()
    } else {
        let head = u128_to_dec(n / 10);
        head.concat(dec_digit_str((n % 10) as u64))
    }
}

} // verus!
