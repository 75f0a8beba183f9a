//! Character-level text helpers used by the query, expression and key builders:
//! decimal rendering, trimming, comma-separated token lists, prefix/suffix
//! stripping and unsigned integer parsing.

use vstd::prelude::*;
use vstd::string::*;

verus! {

// ---------------------------------------------------------------------------
// Building strings
// ---------------------------------------------------------------------------

/// Append one character (`String::push`).
#[verifier::external_body]
pub(crate) fn push_char(s: &mut String, c: char)
    ensures final(s)@ == old(s)@.push(c),
{
    s.push(c)
}

/// Append a string slice.
pub(crate) fn push_str(s: &mut String, t: &str)
    ensures final(s)@ == old(s)@ + t@,
{
    s.append(t)
}

/// Equality of two string slices by their characters.
pub fn str_eq(a: &str, b: &str) -> (r: bool)
    ensures r == (a@ == b@),
{
    let x = a.to_owned();
    let y = b.to_owned();
    x == y
}

// ---------------------------------------------------------------------------
// Decimal rendering
// ---------------------------------------------------------------------------

/// The ASCII digit for a value below ten.
pub open spec fn digit_char(d: nat) -> char {
    if d == 0 { '0' } else if d == 1 { '1' } else if d == 2 { '2' } else if d == 3 { '3' }
    else if d == 4 { '4' } else if d == 5 { '5' } else if d == 6 { '6' } else if d == 7 { '7' }
    else if d == 8 { '8' } else { '9' }
}

/// Decimal digits of a natural number, without leading zeros (`0` is `"0"`).
pub open spec fn decimal(n: nat) -> Seq<char>
    decreases n,
{
    if n < 10 {
        seq![digit_char(n)]
    } else {
        decimal(n / 10).push(digit_char(n % 10))
    }
}

/// Decimal rendering of a signed integer (a leading `-` when negative).
pub open spec fn signed_decimal(n: int) -> Seq<char> {
    if n < 0 { seq!['-'] + decimal((-n) as nat) } else { decimal(n as nat) }
}

fn digit(d: u64) -> (c: char)
    requires d < 10,
    ensures c == digit_char(d as nat),
{
    if d == 0 { '0' } else if d == 1 { '1' } else if d == 2 { '2' } else if d == 3 { '3' }
    else if d == 4 { '4' } else if d == 5 { '5' } else if d == 6 { '6' } else if d == 7 { '7' }
    else if d == 8 { '8' } else { '9' }
}

/// Append the decimal digits of `n`.
pub fn push_decimal(out: &mut String, n: u64)
    ensures final(out)@ == old(out)@ + decimal(n as nat),
    decreases n,
{
    if n >= 10 {
        push_decimal(out, n / 10);
        push_char(out, digit(n % 10));
    } else {
        push_char(out, digit(n));
        assert(decimal(n as nat) =~= seq![digit_char(n as nat)]);
    }
}

/// Append the decimal rendering of a signed integer.
pub fn push_signed_decimal(out: &mut String, n: i64)
    ensures final(out)@ == old(out)@ + signed_decimal(n as int),
{
    if n < 0 {
        push_char(out, '-');
        let m: u64 = if n == i64::MIN { 9223372036854775808u64 } else { (-n) as u64 };
        push_decimal(out, m);
        assert(final(out)@ =~= old(out)@ + (seq!['-'] + decimal((-(n as int)) as nat)));
    } else {
        push_decimal(out, n as u64);
    }
}

/// The decimal rendering of `n` as a new string.
pub fn decimal_string(n: u64) -> (s: String)
    ensures s@ == decimal(n as nat),
{
    let mut s = String::new();
    push_decimal(&mut s, n);
    assert(s@ =~= decimal(n as nat));
    s
}

// ---------------------------------------------------------------------------
// Whitespace and trimming
// ---------------------------------------------------------------------------

/// Unicode `White_Space` code points (the set `char::is_whitespace` and
/// `str::trim` use).
pub open spec fn is_space(c: char) -> bool {
    ||| ('\u{9}' <= c && c <= '\u{d}')
    ||| c == ' '
    ||| c == '\u{85}'
    ||| c == '\u{a0}'
    ||| c == '\u{1680}'
    ||| ('\u{2000}' <= c && c <= '\u{200a}')
    ||| c == '\u{2028}'
    ||| c == '\u{2029}'
    ||| c == '\u{202f}'
    ||| c == '\u{205f}'
    ||| c == '\u{3000}'
}

/// Number of leading white-space characters.
pub open spec fn leading_space(s: Seq<char>) -> nat
    decreases s.len(),
{
    if s.len() == 0 || !is_space(s[0]) { 0 } else { 1 + leading_space(s.drop_first()) }
}

/// Number of trailing white-space characters.
pub open spec fn trailing_space(s: Seq<char>) -> nat
    decreases s.len(),
{
    if s.len() == 0 || !is_space(s.last()) { 0 } else { 1 + trailing_space(s.drop_last()) }
}

/// `s` without leading and trailing white space.
pub open spec fn trimmed(s: Seq<char>) -> Seq<char> {
    let lead = leading_space(s);
    if lead == s.len() {
        Seq::empty()
    } else {
        s.subrange(lead as int, s.len() - trailing_space(s))
    }
}

/// Remove leading and trailing white space (`str::trim`).
#[verifier::external_body]
pub(crate) fn trim(s: &str) -> (r: &str)
    ensures r@ == trimmed(s@),
{
    s.trim()
}

// ---------------------------------------------------------------------------
// Comma-separated token lists
// ---------------------------------------------------------------------------

/// The pieces of `s` between separators (always at least one piece).
pub open spec fn split_on(s: Seq<char>, sep: char) -> Seq<Seq<char>>
    decreases s.len(),
{
    if s.len() == 0 {
        seq![Seq::empty()]
    } else {
        let rest = split_on(s.drop_last(), sep);
        if s.last() == sep {
            rest.push(Seq::empty())
        } else {
            rest.update(rest.len() - 1, rest.last().push(s.last()))
        }
    }
}

/// Trimmed, non-empty pieces, in order.
pub open spec fn kept_tokens(pieces: Seq<Seq<char>>) -> Seq<Seq<char>>
    decreases pieces.len(),
{
    if pieces.len() == 0 {
        Seq::empty()
    } else {
        let rest = kept_tokens(pieces.drop_last());
        let t = trimmed(pieces.last());
        if t.len() > 0 { rest.push(t) } else { rest }
    }
}

/// The tokens of a comma-separated list: split on `,`, trim each piece and
/// drop empty pieces.
pub open spec fn csv_tokens(s: Seq<char>) -> Seq<Seq<char>> {
    kept_tokens(split_on(s, ','))
}

proof fn lemma_split_nonempty(s: Seq<char>, sep: char)
    ensures split_on(s, sep).len() >= 1,
    decreases s.len(),
{
    if s.len() > 0 {
        lemma_split_nonempty(s.drop_last(), sep);
    }
}

/// Views of a list of strings.
pub open spec fn strings_view(v: Seq<String>) -> Seq<Seq<char>> {
    v.map_values(|x: String| x@)
}

/// Split a comma-separated list into trimmed, non-empty tokens.
pub fn split_csv(s: &str) -> (out: Vec<String>)
    ensures strings_view(out@) == csv_tokens(s@),
{
    let n = s.unicode_len();
    let mut out: Vec<String> = Vec::new();
    let mut cur = String::new();
    let mut i: usize = 0;
    proof { lemma_split_nonempty(s@.subrange(0, 0), ','); }
    while i < n
        invariant
            n == s@.len(),
            i <= n,
            split_on(s@.subrange(0, i as int), ',').len() >= 1,
            split_on(s@.subrange(0, i as int), ',').last() == cur@,
            strings_view(out@) == kept_tokens(split_on(s@.subrange(0, i as int), ',').drop_last()),
        decreases n - i,
    {
        let c = s.get_char(i);
        let ghost prefix = s@.subrange(0, i as int);
        let ghost next = s@.subrange(0, i + 1);
        proof {
            assert(next.drop_last() =~= prefix);
            assert(next.last() == c);
            lemma_split_nonempty(prefix, ',');
        }
        if c == ',' {
            let t = trim(cur.as_str());
            let ghost before = out@;
            if !t.is_empty() {
                out.push(t.to_owned());
                proof {
                    assert(strings_view(out@) =~= strings_view(before).push(t@));
                }
            }
            cur = String::new();
            proof {
                let ps = split_on(prefix, ',');
                assert(split_on(next, ',') == ps.push(Seq::empty()));
                assert(split_on(next, ',').drop_last() =~= ps);
                assert(ps.drop_last().push(ps.last()) =~= ps);
                assert(kept_tokens(ps) == {
                    let r = kept_tokens(ps.drop_last());
                    let tt = trimmed(ps.last());
                    if tt.len() > 0 { r.push(tt) } else { r }
                });
                assert(cur@ =~= Seq::<char>::empty());
            }
        } else {
            let ghost old_cur = cur@;
            push_char(&mut cur, c);
            proof {
                let ps = split_on(prefix, ',');
                let qs = split_on(next, ',');
                assert(qs == ps.update(ps.len() - 1, ps.last().push(c)));
                assert(qs.drop_last() =~= ps.drop_last());
                assert(qs.last() == cur@);
            }
        }
        i = i + 1;
    }
    let t = trim(cur.as_str());
    let ghost before = out@;
    if !t.is_empty() {
        out.push(t.to_owned());
        proof {
            assert(strings_view(out@) =~= strings_view(before).push(t@));
        }
    }
    proof {
        assert(s@.subrange(0, n as int) =~= s@);
        let ps = split_on(s@, ',');
        assert(ps.drop_last().push(ps.last()) =~= ps);
    }
    out
}

// ---------------------------------------------------------------------------
// Prefix and suffix stripping
// ---------------------------------------------------------------------------

/// `s` without `p` when `s` starts with `p`.
pub open spec fn without_prefix(s: Seq<char>, p: Seq<char>) -> Option<Seq<char>> {
    if p.len() <= s.len() && s.subrange(0, p.len() as int) == p {
        Some(s.subrange(p.len() as int, s.len() as int))
    } else {
        None
    }
}

/// `s` without `p` when `s` ends with `p`.
pub open spec fn without_suffix(s: Seq<char>, p: Seq<char>) -> Option<Seq<char>> {
    if p.len() <= s.len() && s.subrange(s.len() - p.len(), s.len() as int) == p {
        Some(s.subrange(0, s.len() - p.len()))
    } else {
        None
    }
}

/// Whether `s[at..at + p.len()]` equals `p`.
fn matches_at(s: &str, at: usize, p: &str) -> (r: bool)
    requires at + p@.len() <= s@.len(),
    ensures r == (s@.subrange(at as int, at + p@.len()) == p@),
{
    let m = p.unicode_len();
    let n = s.unicode_len();
    let mut k: usize = 0;
    while k < m
        invariant
            m == p@.len(),
            n == s@.len(),
            at + m <= s@.len(),
            k <= m,
            forall|j: int| 0 <= j < k ==> s@[at + j] == p@[j],
        decreases m - k,
    {
        if s.get_char(at + k) != p.get_char(k) {
            proof {
                assert(s@.subrange(at as int, at + m)[k as int] != p@[k as int]);
            }
            return false;
        }
        k = k + 1;
    }
    proof {
        assert(s@.subrange(at as int, at + m) =~= p@);
    }
    true
}

/// Strip a prefix (`str::strip_prefix`).
pub fn strip_prefix<'a>(s: &'a str, p: &str) -> (r: Option<&'a str>)
    ensures
        r is Some <==> without_prefix(s@, p@) is Some,
        r matches Some(x) ==> Some(x@) == without_prefix(s@, p@),
{
    let n = s.unicode_len();
    let m = p.unicode_len();
    if m <= n && matches_at(s, 0, p) {
        Some(s.substring_char(m, n))
    } else {
        None
    }
}

/// Strip a suffix (`str::strip_suffix`).
pub fn strip_suffix<'a>(s: &'a str, p: &str) -> (r: Option<&'a str>)
    ensures
        r is Some <==> without_suffix(s@, p@) is Some,
        r matches Some(x) ==> Some(x@) == without_suffix(s@, p@),
{
    let n = s.unicode_len();
    let m = p.unicode_len();
    if m <= n && matches_at(s, n - m, p) {
        Some(s.substring_char(0, n - m))
    } else {
        None
    }
}

/// Number of trailing copies of `c`.
pub open spec fn trailing_count(s: Seq<char>, c: char) -> nat
    decreases s.len(),
{
    if s.len() == 0 || s.last() != c { 0 } else { 1 + trailing_count(s.drop_last(), c) }
}

/// `s` with every trailing `c` removed (`str::trim_end_matches`).
pub open spec fn trim_end_char(s: Seq<char>, c: char) -> Seq<char> {
    s.subrange(0, s.len() - trailing_count(s, c))
}

proof fn lemma_trailing_count_le(s: Seq<char>, c: char)
    ensures trailing_count(s, c) <= s.len(),
    decreases s.len(),
{
    if s.len() > 0 && s.last() == c {
        lemma_trailing_count_le(s.drop_last(), c);
    }
}

/// Remove every trailing `c`.
pub fn trim_end_matches_char<'a>(s: &'a str, c: char) -> (r: &'a str)
    ensures r@ == trim_end_char(s@, c),
{
    let n = s.unicode_len();
    let mut end: usize = n;
    proof { assert(s@.subrange(0, n as int) =~= s@); }
    while end > 0 && s.get_char(end - 1) == c
        invariant
            n == s@.len(),
            end <= n,
            trailing_count(s@, c) == trailing_count(s@.subrange(0, end as int), c) + (n - end),
        decreases end,
    {
        proof {
            let pre = s@.subrange(0, end as int);
            assert(pre.drop_last() =~= s@.subrange(0, end - 1));
        }
        end = end - 1;
    }
    proof {
        let pre = s@.subrange(0, end as int);
        assert(trailing_count(pre, c) == 0);
    }
    s.substring_char(0, end)
}

// ---------------------------------------------------------------------------
// Unsigned integer parsing
// ---------------------------------------------------------------------------

/// Whether `c` is an ASCII decimal digit.
pub open spec fn is_digit(c: char) -> bool {
    '0' <= c && c <= '9'
}

/// The value of a sequence of decimal digits.
pub open spec fn digits_value(s: Seq<char>) -> nat
    decreases s.len(),
{
    if s.len() == 0 {
        0
    } else {
        digits_value(s.drop_last()) * 10 + ((s.last() as int - '0' as int) as nat)
    }
}

/// What `str::parse::<u32>` gives: an optional `+`, then one or more ASCII
/// digits whose value fits in 32 bits.
pub open spec fn parse_u32_spec(s: Seq<char>) -> Option<u32> {
    let d = if s.len() > 0 && s[0] == '+' { s.drop_first() } else { s };
    if d.len() > 0 && (forall|i: int| 0 <= i < d.len() ==> is_digit(#[trigger] d[i]))
        && digits_value(d) <= u32::MAX {
        Some(digits_value(d) as u32)
    } else {
        None
    }
}

/// Parse an unsigned 32-bit integer (`str::parse::<u32>`).
#[verifier::external_body]
pub(crate) fn parse_u32(s: &str) -> (r: Option<u32>)
    ensures r == parse_u32_spec(s@),
{
    s.parse::<u32>().ok()
}

// ---------------------------------------------------------------------------
// Joining and quoting
// ---------------------------------------------------------------------------

/// The pieces joined with `sep` between consecutive pieces.
pub open spec fn joined(parts: Seq<Seq<char>>, sep: Seq<char>) -> Seq<char>
    decreases parts.len(),
{
    if parts.len() == 0 {
        Seq::empty()
    } else if parts.len() == 1 {
        parts[0]
    } else {
        joined(parts.drop_last(), sep) + sep + parts.last()
    }
}

/// Join strings with a separator (`[String]::join`).
pub fn join(parts: &Vec<String>, sep: &str) -> (s: String)
    ensures s@ == joined(strings_view(parts@), sep@),
{
    let mut out = String::new();
    let mut i: usize = 0;
    while i < parts.len()
        invariant
            i <= parts@.len(),
            out@ == joined(strings_view(parts@.subrange(0, i as int)), sep@),
        decreases parts@.len() - i,
    {
        let ghost pre = strings_view(parts@.subrange(0, i as int));
        let ghost next = strings_view(parts@.subrange(0, i + 1));
        proof {
            assert(next.drop_last() =~= pre);
            assert(next.last() == parts@[i as int]@);
        }
        if i > 0 {
            push_str(&mut out, sep);
        }
        push_str(&mut out, parts[i].as_str());
        proof {
            if i == 0 {
                assert(next.len() == 1);
                assert(out@ =~= next[0]);
            } else {
                assert(out@ =~= joined(pre, sep@) + sep@ + parts@[i as int]@);
            }
        }
        i = i + 1;
    }
    assert(parts@.subrange(0, parts@.len() as int) =~= parts@);
    out
}

/// One character as it stands inside a double-quoted literal: `"` and `\`
/// are preceded by a backslash, every other character stands as it is.
pub open spec fn escape_char(c: char) -> Seq<char> {
    if c == '"' || c == '\\' { seq!['\\', c] } else { seq![c] }
}

/// `s` with every `"` and every `\` preceded by a backslash.
pub open spec fn escaped(s: Seq<char>) -> Seq<char>
    decreases s.len(),
{
    if s.len() == 0 {
        Seq::empty()
    } else {
        escaped(s.drop_last()) + escape_char(s.last())
    }
}

/// Escaping distributes over concatenation.
pub proof fn escaped_concat(a: Seq<char>, b: Seq<char>)
    ensures escaped(a + b) == escaped(a) + escaped(b),
    decreases b.len(),
{
    if b.len() == 0 {
        assert(a + b =~= a);
        assert(escaped(a) + escaped(b) =~= escaped(a));
    } else {
        assert((a + b).drop_last() =~= a + b.drop_last());
        assert((a + b).last() == b.last());
        escaped_concat(a, b.drop_last());
        assert(escaped(a + b) =~= escaped(a) + escaped(b));
    }
}

/// Precede every `"` and every `\` in `s` with a backslash.
pub fn escape_in(s: &str) -> (r: String)
    ensures r@ == escaped(s@),
{
    let n = s.unicode_len();
    let mut out = String::new();
    let mut i: usize = 0;
    while i < n
        invariant
            n == s@.len(),
            i <= n,
            out@ == escaped(s@.subrange(0, i as int)),
        decreases n - i,
    {
        let c = s.get_char(i);
        proof {
            assert(s@.subrange(0, i + 1).drop_last() =~= s@.subrange(0, i as int));
        }
        let ghost o = out@;
        if c == '"' || c == '\\' {
            push_char(&mut out, '\\');
            push_char(&mut out, c);
            assert(out@ =~= o + seq!['\\', c]);
        } else {
            push_char(&mut out, c);
            assert(out@ =~= o + seq![c]);
        }
        i = i + 1;
    }
    assert(s@.subrange(0, n as int) =~= s@);
    out
}

} // verus!
