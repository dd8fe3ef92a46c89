//! Text building blocks: digit rendering, comparison and slicing of strings.

use vstd::prelude::*;
use vstd::utf8::*;
use vstd::string::StringSliceAdditionalSpecFns;
use vstd::string::StrSliceExecFns;
use vstd::string::StringExecFns;

verus! {

/// Appends one character to a string (`String::push`).
#[verifier::external_body]
pub fn push_char(s: &mut String, c: char)
    ensures
        final(s)@ == old(s)@.push(c),
{
    s.push(c);
}

/// The character of a decimal digit.
pub open spec fn digit_char(d: nat) -> char {
    (48 + d) as char
}

/// The decimal rendering of a natural number, without leading zeros.
pub open spec fn decimal_text(n: nat) -> Seq<char>
    decreases n,
{
    if n < 10 {
        seq![digit_char(n)]
    } else {
        decimal_text(n / 10).push(digit_char(n % 10))
    }
}

/// Renders `n` in decimal, as `{}` formatting does.
pub fn decimal(n: u32) -> (r: String)
    ensures
        r@ == decimal_text(n as nat),
    decreases n,
{
    let d: u32 = n % 10;
    let c: char = ((48 + d) as u8) as char;
    if n < 10 {
        let mut s = String::new();
        push_char(&mut s, c);
        s
    } else {
        let mut s = decimal(n / 10);
        push_char(&mut s, c);
        s
    }
}


/// The character of an upper-case hexadecimal digit.
pub open spec fn hex_digit_char(d: nat) -> char {
    if d < 10 {
        (48 + d) as char
    } else {
        (55 + d) as char
    }
}

/// The `width` lowest hexadecimal digits of `v`, most significant first,
/// padded with zeros.
pub open spec fn hex_text(v: nat, width: nat) -> Seq<char>
    decreases width,
{
    if width == 0 {
        seq![]
    } else {
        hex_text(v / 16, (width - 1) as nat).push(hex_digit_char(v % 16))
    }
}

/// Renders the `width` lowest hexadecimal digits of `v` in upper case,
/// padded with zeros (`{:0width$X}` for values that fit).
pub fn hex_fixed(v: u64, width: u8) -> (r: String)
    ensures
        r@ == hex_text(v as nat, width as nat),
    decreases width,
{
    if width == 0 {
        String::new()
    } else {
        let d: u64 = v % 16;
        let c: char = if d < 10 {
            ((48 + d) as u8) as char
        } else {
            ((55 + d) as u8) as char
        };
        let mut s = hex_fixed(v / 16, width - 1);
        push_char(&mut s, c);
        s
    }
}

/// A string made of a literal-like piece of text.
pub fn owned(s: &str) -> (r: String)
    ensures
        r@ == s@,
{
    s.to_owned()
}

/// `a` followed by `b`.
pub fn concat2(a: &str, b: &str) -> (r: String)
    ensures
        r@ == a@ + b@,
{
    let mut r = owned(a);
    r.append(b);
    r
}

/// `a`, `b` and `c` in a row.
pub fn concat3(a: &str, b: &str, c: &str) -> (r: String)
    ensures
        r@ == a@ + b@ + c@,
{
    let mut r = concat2(a, b);
    r.append(c);
    r
}

/// `a`, `b`, `c` and `d` in a row.
pub fn concat4(a: &str, b: &str, c: &str, d: &str) -> (r: String)
    ensures
        r@ == a@ + b@ + c@ + d@,
{
    let mut r = concat3(a, b, c);
    r.append(d);
    r
}

/// `a` to `e` in a row.
pub fn concat5(a: &str, b: &str, c: &str, d: &str, e: &str) -> (r: String)
    ensures
        r@ == a@ + b@ + c@ + d@ + e@,
{
    let mut r = concat4(a, b, c, d);
    r.append(e);
    r
}

/// Whether two strings hold the same characters.
pub fn str_eq(a: &str, b: &str) -> (r: bool)
    ensures
        r == (a@ == b@),
{
    let n = a.unicode_len();
    if n != b.unicode_len() {
        return false;
    }
    let mut i: usize = 0;
    while i < n
        invariant
            n == a@.len(),
            n == b@.len(),
            i <= n,
            forall|j: int| 0 <= j < i ==> a@[j] == b@[j],
        decreases n - i,
    {
        if a.get_char(i) != b.get_char(i) {
            return false;
        }
        i = i + 1;
    }
    assert(a@ =~= b@);
    true
}

/// What is left of `s` after `prefix`, if `s` starts with `prefix`
/// (`str::strip_prefix`).
pub fn strip_prefix(s: &str, prefix: &str) -> (r: Option<String>)
    ensures
        r is Some <==> prefix@.is_prefix_of(s@),
        r matches Some(rest) ==> rest@ == s@.skip(prefix@.len() as int),
{
    let n = s.unicode_len();
    let m = prefix.unicode_len();
    if m > n {
        return None;
    }
    let mut i: usize = 0;
    while i < m
        invariant
            n == s@.len(),
            m == prefix@.len(),
            m <= n,
            i <= m,
            forall|j: int| 0 <= j < i ==> prefix@[j] == s@[j],
        decreases m - i,
    {
        if s.get_char(i) != prefix.get_char(i) {
            return None;
        }
        i = i + 1;
    }
    assert(prefix@ =~= s@.subrange(0, m as int));
    let rest = s.substring_char(m, n);
    assert(rest@ =~= s@.skip(m as int));
    Some(owned(rest))
}

/// The UTF-8 encoding of two character sequences in a row is the encoding
/// of the first followed by that of the second.
pub proof fn lemma_encode_concat(a: Seq<char>, b: Seq<char>)
    ensures
        encode_utf8(a + b) == encode_utf8(a) + encode_utf8(b),
    decreases a.len(),
{
    if a.len() == 0 {
        assert(a + b =~= b);
    } else {
        lemma_encode_concat(a.drop_first(), b);
        assert((a + b).drop_first() =~= a.drop_first() + b);
        assert((a + b)[0] == a[0]);
    }
}

/// Whether `start..end` delimits a run of whole characters in the UTF-8
/// bytes `bytes`, so that `&text[start..end]` does not panic.
pub open spec fn slice_ok(bytes: Seq<u8>, start: int, end: int) -> bool {
    &&& 0 <= start <= end <= bytes.len()
    &&& is_char_boundary(bytes, start)
    &&& is_char_boundary(bytes, end)
}

proof fn lemma_boundary_of_suffix(bytes: Seq<u8>, start: int, end: int)
    requires
        valid_utf8(bytes),
        slice_ok(bytes, start, end),
    ensures
        valid_utf8(bytes.subrange(start, bytes.len() as int)),
        is_char_boundary(bytes.subrange(start, bytes.len() as int), end - start),
{
    let tail = bytes.subrange(start, bytes.len() as int);
    valid_utf8_split(bytes, start);
    if end < bytes.len() {
        is_char_boundary_iff_not_is_continuation_byte(bytes, end);
        is_char_boundary_iff_not_is_continuation_byte(tail, end - start);
        assert(tail[end - start] == bytes[end]);
    } else {
        is_char_boundary_start_end_of_seq(tail);
    }
}

/// The characters whose UTF-8 encoding is `bytes[start..end]` of `s`
/// (`&s[start..end]`), or `None` where that slice would panic.
pub fn byte_slice(s: &str, start: usize, end: usize) -> (r: Option<String>)
    ensures
        r is Some <==> slice_ok(s.spec_bytes(), start as int, end as int),
        r matches Some(t) ==> encode_utf8(t@) == s.spec_bytes().subrange(start as int, end as int),
{
    let total = s.as_bytes().len();
    if !(start <= end && end <= total && s.is_char_boundary(start) && s.is_char_boundary(end)) {
        return None;
    }
    proof {
        encode_utf8_valid_utf8(s@);
        lemma_boundary_of_suffix(s.spec_bytes(), start as int, end as int);
    }
    let (_, tail) = s.split_at(start);
    let (piece, _) = tail.split_at(end - start);
    proof {
        let b = s.spec_bytes();
        assert(piece.spec_bytes() =~= b.subrange(start as int, end as int));
    }
    Some(owned(piece))
}


/// `hex_text` has as many digits as asked for.
pub proof fn lemma_hex_text_len(v: nat, width: nat)
    ensures
        hex_text(v, width).len() == width,
    decreases width,
{
    if width > 0 {
        lemma_hex_text_len(v / 16, (width - 1) as nat);
    }
}


/// How many `/` characters `s` starts with.
pub open spec fn leading_slashes(s: Seq<char>) -> nat
    decreases s.len(),
{
    if s.len() > 0 && s[0] == '/' {
        1 + leading_slashes(s.drop_first())
    } else {
        0
    }
}

/// `s` without the `/` characters it starts with.
pub fn trim_leading_slashes(s: &str) -> (r: String)
    ensures
        r@ == s@.skip(leading_slashes(s@) as int),
{
    let n = s.unicode_len();
    let mut i: usize = 0;
    assert(s@.skip(0) =~= s@);
    while i < n && s.get_char(i) == '/'
        invariant
            n == s@.len(),
            i <= n,
            leading_slashes(s@) == i + leading_slashes(s@.skip(i as int)),
        decreases n - i,
    {
        assert(s@.skip(i as int).drop_first() =~= s@.skip(i + 1));
        i = i + 1;
    }
    assert(leading_slashes(s@.skip(i as int)) == 0);
    let rest = s.substring_char(i, n);
    assert(rest@ =~= s@.skip(i as int));
    owned(rest)
}


/// What is left after the leading slashes does not start with one.
pub proof fn lemma_no_slash_after_trim(s: Seq<char>)
    ensures
        leading_slashes(s) <= s.len(),
        s.skip(leading_slashes(s) as int).len() == 0 || s.skip(leading_slashes(s) as int)[0] != '/',
    decreases s.len(),
{
    if s.len() > 0 && s[0] == '/' {
        lemma_no_slash_after_trim(s.drop_first());
        assert(s.skip(leading_slashes(s) as int) =~= s.drop_first().skip(leading_slashes(s.drop_first()) as int));
    } else {
        assert(s.skip(0) =~= s);
    }
}

} // verus!
