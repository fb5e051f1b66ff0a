//! Text on the wire and in names.

use vstd::prelude::*;
use vstd::slice::*;
use vstd::string::*;
use vstd::utf8::*;

use crate::bytes::same_bytes;

verus! {

/// The offset of the first zero byte, or the length when there is none.
pub open spec fn nul_position(s: Seq<u8>) -> int
    decreases s.len(),
{
    if s.len() == 0 || s[0] == 0 {
        0
    } else {
        1 + nul_position(s.drop_first())
    }
}

/// The bytes before the first zero byte.
pub open spec fn before_nul(s: Seq<u8>) -> Seq<u8> {
    s.take(nul_position(s))
}

/// The text of a zero-terminated field; `None` when it is not UTF-8.
pub open spec fn c_text(s: Seq<u8>) -> Option<Seq<char>> {
    if valid_utf8(before_nul(s)) {
        Some(decode_utf8(before_nul(s)))
    } else {
        None
    }
}

/// Unit `i` of a field of two-byte units, the low byte first.
pub open spec fn unit(s: Seq<u8>, i: int) -> u32 {
    (s[2 * i] + 0x100 * s[2 * i + 1]) as u32
}

/// Whether a unit begins a pair.
pub open spec fn is_leading(u: u32) -> bool {
    0xd800 <= u < 0xdc00
}

/// Whether a unit ends a pair.
pub open spec fn is_trailing(u: u32) -> bool {
    0xdc00 <= u < 0xe000
}

/// The text of a zero-terminated UTF-16 field from unit `i` on. A unit that
/// lacks its other half stands for the replacement character.
pub open spec fn wide_text(s: Seq<u8>, i: int) -> Seq<char>
    decreases s.len() - 2 * i,
{
    if 2 * i + 2 > s.len() || i < 0 || unit(s, i) == 0 {
        Seq::empty()
    } else if is_leading(unit(s, i)) && 2 * i + 4 <= s.len() && is_trailing(unit(s, i + 1)) {
        let code = 0x1_0000 + 0x400 * (unit(s, i) - 0xd800) + (unit(s, i + 1) - 0xdc00);
        seq![code as char] + wide_text(s, i + 2)
    } else if is_leading(unit(s, i)) || is_trailing(unit(s, i)) {
        seq!['\u{fffd}'] + wide_text(s, i + 1)
    } else {
        seq![unit(s, i) as char] + wide_text(s, i + 1)
    }
}

/// Whether `pat` stands in `s` at offset `i`.
pub open spec fn occurs_at(s: Seq<char>, pat: Seq<char>, i: int) -> bool {
    &&& 0 <= i <= s.len() - pat.len()
    &&& s.subrange(i, i + pat.len()) == pat
}

/// Whether `pat` stands anywhere in `s`.
pub open spec fn contains_text(s: Seq<char>, pat: Seq<char>) -> bool {
    exists|i: int| occurs_at(s, pat, i)
}

/// Whether `i` is the first position at which `pat` stands in `s`.
pub open spec fn first_at(s: Seq<char>, pat: Seq<char>, i: int) -> bool {
    &&& occurs_at(s, pat, i)
    &&& forall|j: int| j < i ==> !#[trigger] occurs_at(s, pat, j)
}

/// The first position at which `pat` stands in `s`.
pub open spec fn position_of(s: Seq<char>, pat: Seq<char>) -> Option<int> {
    if exists|i: int| first_at(s, pat, i) {
        Some(choose|i: int| first_at(s, pat, i))
    } else {
        None
    }
}

/// Whether `s` begins with `pat`.
pub open spec fn begins_with(s: Seq<char>, pat: Seq<char>) -> bool {
    occurs_at(s, pat, 0)
}

/// An optional text as characters.
pub open spec fn optional(s: Option<String>) -> Option<Seq<char>> {
    match s {
        Some(s) => Some(s@),
        None => None,
    }
}

/// The digit for a value below sixteen, in upper case.
pub open spec fn digit(d: int) -> char {
    if d < 10 { (0x30 + d) as char } else { (0x41 + (d - 10)) as char }
}

/// A number in decimal, without leading zeros.
pub open spec fn decimal(n: nat) -> Seq<char>
    decreases n,
{
    if n < 10 {
        seq![digit(n as int)]
    } else {
        decimal(n / 10).push(digit((n % 10) as int))
    }
}

/// A number in decimal, with a minus sign when it is negative.
pub open spec fn signed_decimal(n: int) -> Seq<char> {
    if n < 0 {
        seq!['-'] + decimal((-n) as nat)
    } else {
        decimal(n as nat)
    }
}

/// A byte in hexadecimal, without leading zeros.
pub open spec fn hex_byte(n: int) -> Seq<char> {
    if n < 16 {
        seq![digit(n)]
    } else {
        seq![digit(n / 16), digit(n % 16)]
    }
}

/// Whether a character is white space in Unicode.
pub open spec fn white_space(c: char) -> bool {
    let n = c as u32;
    ||| 0x09 <= n <= 0x0d
    ||| n == 0x20
    ||| n == 0x85
    ||| n == 0xa0
    ||| n == 0x1680
    ||| 0x2000 <= n <= 0x200a
    ||| n == 0x2028
    ||| n == 0x2029
    ||| n == 0x202f
    ||| n == 0x205f
    ||| n == 0x3000
}

/// A text without the white space at its start.
pub open spec fn trim_start(s: Seq<char>) -> Seq<char>
    decreases s.len(),
{
    if s.len() > 0 && white_space(s[0]) { trim_start(s.drop_first()) } else { s }
}

/// A text without the white space at its end.
pub open spec fn trim_end(s: Seq<char>) -> Seq<char>
    decreases s.len(),
{
    if s.len() > 0 && white_space(s.last()) { trim_end(s.drop_last()) } else { s }
}

/// A text without the white space at its ends.
pub open spec fn trimmed(s: Seq<char>) -> Seq<char> {
    trim_end(trim_start(s))
}

/// `std::str::from_utf8`: it succeeds exactly on valid UTF-8 and gives the
/// characters that the bytes encode.
#[verifier::external_body]
fn from_utf8(bytes: &[u8]) -> (r: Option<&str>)
    ensures
        r is Some <==> valid_utf8(bytes@),
        r matches Some(s) ==> s@ == decode_utf8(bytes@),
{
    core::str::from_utf8(bytes).ok()
}

/// `String::push`: it appends one character.
pub assume_specification[ String::push ](s: &mut String, c: char)
    ensures
        final(s)@ == old(s)@.push(c),
;

/// `char::from_u32`: it gives the character with a code, and nothing for the
/// codes that no character has.
pub assume_specification[ char::from_u32 ](i: u32) -> (r: Option<char>)
    ensures
        r is Some <==> i < 0xd800 || 0xe000 <= i <= 0x10ffff,
        r matches Some(c) ==> c == i as char,
;

proof fn lemma_nul_position_bounds(s: Seq<u8>)
    ensures
        0 <= nul_position(s) <= s.len(),
    decreases s.len(),
{
    if s.len() != 0 && s[0] != 0 {
        lemma_nul_position_bounds(s.drop_first());
    }
}

proof fn lemma_nul_position(s: Seq<u8>, n: int)
    requires
        0 <= n <= s.len(),
        forall|i: int| 0 <= i < n ==> s[i] != 0,
        n == s.len() || s[n] == 0,
    ensures
        nul_position(s) == n,
    decreases n,
{
    if n > 0 {
        lemma_nul_position(s.drop_first(), n - 1);
    }
}

/// The text of a zero-terminated field.
pub fn c_string(bytes: &[u8]) -> (r: Option<&str>)
    ensures
        r is Some <==> c_text(bytes@) is Some,
        r matches Some(s) ==> Some(s@) == c_text(bytes@),
{
    let mut n: usize = 0;
    while n < bytes.len() && bytes[n] != 0
        invariant
            n <= bytes@.len(),
            forall|i: int| 0 <= i < n ==> bytes@[i] != 0,
        decreases bytes@.len() - n,
    {
        n += 1;
    }
    proof {
        lemma_nul_position(bytes@, n as int);
        assert(before_nul(bytes@) =~= bytes@.subrange(0, n as int));
    }
    from_utf8(slice_subrange(bytes, 0, n))
}

fn push_code(out: &mut String, code: u32)
    requires
        code < 0xd800 || 0xe000 <= code <= 0x10ffff,
    ensures
        final(out)@ == old(out)@.push(code as char),
{
    match char::from_u32(code) {
        Some(c) => {
            out.push(c);
        },
        None => {},
    }
}

/// The text of a zero-terminated UTF-16 field.
pub fn c_wide_string(bytes: &[u8]) -> (r: String)
    ensures
        r@ == wide_text(bytes@, 0),
{
    let mut out = String::new();
    let mut at: usize = 0;
    let ghost mut i: int = 0;
    assert(out@ + wide_text(bytes@, 0) =~= wide_text(bytes@, 0));
    while bytes.len() - at >= 2
        invariant_except_break
            at == 2 * i,
            at <= bytes@.len(),
            bytes@.len() == bytes.len(),
            out@ + wide_text(bytes@, i) == wide_text(bytes@, 0),
        ensures
            out@ == wide_text(bytes@, 0),
        decreases bytes@.len() - at,
    {
        let ghost before = out@;
        let u: u32 = bytes[at] as u32 + 0x100 * (bytes[at + 1] as u32);
        if u == 0 {
            assert(out@ + Seq::<char>::empty() =~= out@);
            break;
        }
        if 0xd800 <= u && u < 0xdc00 && bytes.len() - at >= 4 {
            let v: u32 = bytes[at + 2] as u32 + 0x100 * (bytes[at + 3] as u32);
            if 0xdc00 <= v && v < 0xe000 {
                push_code(&mut out, 0x1_0000 + 0x400 * (u - 0xd800) + (v - 0xdc00));
                at += 4;
                proof {
                    assert(out@ + wide_text(bytes@, i + 2) =~= before + wide_text(bytes@, i));
                    i = i + 2;
                }
                continue ;
            }
        }
        if 0xd800 <= u && u < 0xe000 {
            out.push('\u{fffd}');
        } else {
            push_code(&mut out, u);
        }
        at += 2;
        proof {
            assert(out@ + wide_text(bytes@, i + 1) =~= before + wide_text(bytes@, i));
            i = i + 1;
        }
    }
    assert(out@ + Seq::<char>::empty() =~= out@);
    out
}

/// The characters of `s`.
pub fn chars_of(s: &str) -> (r: Vec<char>)
    ensures
        r@ == s@,
{
    let mut out: Vec<char> = Vec::new();
    for c in iter: s.chars()
        invariant
            out@ == s@.take(iter.index()),
            iter.seq() == s@,
    {
        out.push(c);
    }
    assert(out@ =~= s@);
    out
}

/// The text of a character slice.
pub fn text_of(chars: &[char]) -> (r: String)
    ensures
        r@ == chars@,
{
    let mut out = String::new();
    let mut i: usize = 0;
    while i < chars.len()
        invariant
            i <= chars@.len(),
            out@ == chars@.take(i as int),
        decreases chars@.len() - i,
    {
        out.push(chars[i]);
        i += 1;
        assert(out@ =~= chars@.take(i as int));
    }
    assert(chars@.take(i as int) =~= chars@);
    out
}

/// Whether two texts are the same.
pub fn same_text(a: &str, b: &str) -> (r: bool)
    ensures
        r == (a@ == b@),
{
    let r = same_bytes(a.as_bytes(), b.as_bytes());
    proof {
        encode_utf8_decode_utf8(a@);
        encode_utf8_decode_utf8(b@);
    }
    r
}

/// Whether `pat` stands in `s` at offset `i`.
pub fn text_at(s: &[char], pat: &[char], i: usize) -> (r: bool)
    ensures
        r == occurs_at(s@, pat@, i as int),
{
    if pat.len() > s.len() || i > s.len() - pat.len() {
        return false;
    }
    let mut j: usize = 0;
    while j < pat.len()
        invariant
            j <= pat@.len(),
            i + pat@.len() <= s@.len() == s.len(),
            forall|k: int| 0 <= k < j ==> s@[i + k] == pat@[k],
        decreases pat@.len() - j,
    {
        if s[i + j] != pat[j] {
            assert(s@.subrange(i as int, i + pat@.len())[j as int] != pat@[j as int]);
            return false;
        }
        j += 1;
    }
    assert(s@.subrange(i as int, i + pat@.len()) =~= pat@);
    true
}

/// The first position at which `pat` stands in `s`.
pub fn find(s: &[char], pat: &[char]) -> (r: Option<usize>)
    ensures
        r is Some == contains_text(s@, pat@),
        r is None ==> position_of(s@, pat@) is None,
        r matches Some(i) ==> position_of(s@, pat@) == Some(i as int) && i + pat@.len() <= s@.len(),
{
    if pat.len() > s.len() {
        return None;
    }
    let last: usize = s.len() - pat.len();
    let mut i: usize = 0;
    loop
        invariant
            i <= last,
            last + pat@.len() == s@.len(),
            forall|j: int| j < i ==> !occurs_at(s@, pat@, j),
        decreases last - i,
    {
        if text_at(s, pat, i) {
            proof {
                assert(first_at(s@, pat@, i as int));
                assert(first_at(s@, pat@, position_of(s@, pat@)->0));
            }
            return Some(i);
        }
        if i == last {
            return None;
        }
        i += 1;
    }
}

/// Whether `pat` stands anywhere in `s`.
pub fn has_text(s: &str, pat: &str) -> (r: bool)
    ensures
        r == contains_text(s@, pat@),
{
    let text = chars_of(s);
    let wanted = chars_of(pat);
    find(text.as_slice(), wanted.as_slice()).is_some()
}

/// Whether `s` begins with `pat`.
pub fn starts_with(s: &str, pat: &str) -> (r: bool)
    ensures
        r == begins_with(s@, pat@),
{
    let text = chars_of(s);
    let wanted = chars_of(pat);
    text_at(text.as_slice(), wanted.as_slice(), 0)
}

/// The digit for a value below sixteen.
pub fn digit_char(d: u8) -> (r: char)
    requires
        d < 16,
    ensures
        r == digit(d as int),
{
    if d < 10 {
        (0x30 + d) as char
    } else {
        (0x41 + (d - 10)) as char
    }
}

/// Append `n` in decimal.
pub fn push_decimal(out: &mut String, n: u64)
    ensures
        final(out)@ == old(out)@ + decimal(n as nat),
    decreases n,
{
    if n < 10 {
        out.push(digit_char(n as u8));
        assert(out@ =~= old(out)@ + decimal(n as nat));
    } else {
        push_decimal(out, n / 10);
        out.push(digit_char((n % 10) as u8));
        assert(out@ =~= old(out)@ + decimal(n as nat));
    }
}

/// Append `n` in decimal, with its sign.
pub fn push_signed(out: &mut String, n: i32)
    ensures
        final(out)@ == old(out)@ + signed_decimal(n as int),
{
    if n < 0 {
        out.push('-');
        let magnitude: u64 = (-(n as i64)) as u64;
        push_decimal(out, magnitude);
        assert(out@ =~= old(out)@ + signed_decimal(n as int));
    } else {
        push_decimal(out, n as u64);
    }
}

/// Append `n` in hexadecimal.
pub fn push_hex(out: &mut String, n: u8)
    ensures
        final(out)@ == old(out)@ + hex_byte(n as int),
{
    if n >= 16 {
        out.push(digit_char(n / 16));
    }
    out.push(digit_char(n % 16));
    assert(out@ =~= old(out)@ + hex_byte(n as int));
}

fn is_white_space(c: char) -> (r: bool)
    ensures
        r == white_space(c),
{
    let n: u32 = c as u32;
    (0x09 <= n && n <= 0x0d) || n == 0x20 || n == 0x85 || n == 0xa0 || n == 0x1680 || (0x2000 <= n
        && n <= 0x200a) || n == 0x2028 || n == 0x2029 || n == 0x202f || n == 0x205f || n == 0x3000
}

/// A copy of `s` without the white space at its ends.
pub fn trim(s: &str) -> (r: String)
    ensures
        r@ == trimmed(s@),
{
    let chars = chars_of(s);
    let mut start: usize = 0;
    assert(s@.skip(0) =~= s@);
    while start < chars.len() && is_white_space(chars[start])
        invariant
            chars@ == s@,
            start <= chars@.len(),
            trim_start(s@.skip(start as int)) == trim_start(s@),
        decreases chars@.len() - start,
    {
        assert(s@.skip(start as int).drop_first() =~= s@.skip(start + 1));
        start += 1;
    }
    let mut end: usize = chars.len();
    assert(s@.subrange(start as int, end as int) =~= s@.skip(start as int));
    while end > start && is_white_space(chars[end - 1])
        invariant
            chars@ == s@,
            start <= end <= chars@.len(),
            trim_end(s@.subrange(start as int, end as int)) == trimmed(s@),
        decreases end,
    {
        assert(s@.subrange(start as int, end as int).drop_last() =~= s@.subrange(
            start as int,
            end - 1,
        ));
        end -= 1;
    }
    text_of(slice_subrange(chars.as_slice(), start, end))
}

/// A copy of `s`.
pub fn owned(s: &str) -> (r: String)
    ensures
        r@ == s@,
{
    String::from_str(s)
}

/// The number that decimal digits stand for.
pub open spec fn value_of_digits(s: Seq<char>) -> int
    decreases s.len(),
{
    if s.len() == 0 {
        0
    } else {
        10 * value_of_digits(s.drop_last()) + (s.last() as int - '0' as int)
    }
}

/// A number in decimal is made of digits, has no leading zero, and stands for the number.
pub proof fn law_decimal_reads_back(n: nat, i: int)
    ensures
        value_of_digits(decimal(n)) == n,
        decimal(n).len() > 0,
        0 <= i < decimal(n).len() ==> '0' <= decimal(n)[i] <= '9',
        n > 0 ==> decimal(n)[0] != '0',
        n < 10 <==> decimal(n).len() == 1,
    decreases n,
{
    let s = decimal(n);
    assert('0' as int == 0x30 && '9' as int == 0x39);
    if n < 10 {
        assert(s.drop_last() =~= Seq::<char>::empty());
        assert(value_of_digits(s.drop_last()) == 0);
        assert(s.last() == digit(n as int));
    } else {
        law_decimal_reads_back(n / 10, i);
        law_decimal_reads_back(n / 10, 0);
        assert(s.drop_last() =~= decimal(n / 10));
        assert(s.last() == digit((n % 10) as int));
    }
}

/// A negative number has a minus sign before its digits.
pub proof fn law_signed_decimal_reads_back(n: int)
    ensures
        n >= 0 ==> value_of_digits(signed_decimal(n)) == n && signed_decimal(n)[0] != '-',
        n < 0 ==> signed_decimal(n)[0] == '-' && value_of_digits(signed_decimal(n).drop_first())
            == -n,
{
    if n >= 0 {
        law_decimal_reads_back(n as nat, 0);
        assert('-' as int == 0x2d && '0' as int == 0x30);
    } else {
        law_decimal_reads_back((-n) as nat, 0);
        assert(signed_decimal(n).drop_first() =~= decimal((-n) as nat));
    }
}

/// The digits in their order; a byte in hexadecimal is its two halves, the high one first
/// and left out where it is zero.
pub proof fn law_hexadecimal_reads_back(n: int, high: int, low: int)
    requires
        0 <= high < 16,
        0 <= low < 16,
        n == 16 * high + low,
    ensures
        low < 10 ==> digit(low) as int == '0' as int + low,
        low >= 10 ==> digit(low) as int == 'A' as int + (low - 10),
        high == 0 ==> hex_byte(n) == seq![digit(low)],
        high > 0 ==> hex_byte(n) == seq![digit(high), digit(low)],
{
    assert('0' as int == 0x30 && 'A' as int == 0x41);
}

/// A text that is written into a field, with a zero behind it, is read back, whatever
/// stands behind the zero.
pub proof fn law_field_reads_back(name: Seq<char>, rest: Seq<u8>)
    requires
        forall|i: int| 0 <= i < encode_utf8(name).len() ==> encode_utf8(name)[i] != 0,
        rest.len() == 0 || rest[0] == 0,
    ensures
        c_text(encode_utf8(name) + rest) == Some(name),
{
    let all = encode_utf8(name);
    lemma_nul_position(all + rest, all.len() as int);
    assert(before_nul(all + rest) =~= all);
    encode_utf8_valid_utf8(name);
    encode_utf8_decode_utf8(name);
}

/// A unit of UTF-16 that stands for itself is read as its character, and a pair of units as
/// the character that they encode; a zero ends the text.
pub proof fn law_wide_text_reads_back(s: Seq<u8>, i: int, code: int)
    requires
        0 <= i,
        2 * i + 2 <= s.len(),
    ensures
        unit(s, i) == 0 ==> wide_text(s, i).len() == 0,
        0 < code < 0xd800 || 0xe000 <= code < 0x1_0000 ==> (s[2 * i] == code % 0x100 && s[2 * i + 1]
            == code / 0x100 ==> wide_text(s, i) == seq![code as char] + wide_text(s, i + 1)),
        0x1_0000 <= code < 0x11_0000 && 2 * i + 4 <= s.len() ==> (s[2 * i] == (0xd800 + (code
            - 0x1_0000) / 0x400) % 0x100 && s[2 * i + 1] == (0xd800 + (code - 0x1_0000) / 0x400)
            / 0x100 && s[2 * i + 2] == (0xdc00 + (code - 0x1_0000) % 0x400) % 0x100 && s[2 * i + 3]
            == (0xdc00 + (code - 0x1_0000) % 0x400) / 0x100 ==> wide_text(s, i) == seq![
            code as char,
        ] + wide_text(s, i + 2)),
{
}

/// Trimming takes white space away from the ends, all of it and nothing else.
pub proof fn law_trimmed_keeps_the_rest(s: Seq<char>)
    ensures
        trimmed(s).len() > 0 ==> !white_space(trimmed(s)[0]) && !white_space(trimmed(s).last()),
        exists|i: int, j: int|
            0 <= i <= j <= s.len() && trimmed(s) == #[trigger] s.subrange(i, j) && (forall|k: int|
                0 <= k < i || j <= k < s.len() ==> white_space(#[trigger] s[k])),
{
    let i = lemma_trim_start(s);
    let t = trim_start(s);
    let j = lemma_trim_end(t);
    assert(s.subrange(i, s.len() as int).subrange(0, j) =~= s.subrange(i, i + j));
    assert forall|k: int| 0 <= k < i || i + j <= k < s.len() implies white_space(
        #[trigger] s[k],
    ) by {
        if k >= i {
            assert(t[k - i] == s[k]);
        }
    }
    if trimmed(s).len() > 0 {
        assert(trimmed(s)[0] == t[0]);
    }
}

proof fn lemma_trim_start(s: Seq<char>) -> (n: int)
    ensures
        0 <= n <= s.len(),
        trim_start(s) == s.subrange(n, s.len() as int),
        forall|k: int| 0 <= k < n ==> white_space(#[trigger] s[k]),
        n < s.len() ==> !white_space(s[n]),
    decreases s.len(),
{
    if s.len() > 0 && white_space(s[0]) {
        let rest = s.drop_first();
        let n = lemma_trim_start(rest);
        assert(rest.subrange(n, rest.len() as int) =~= s.subrange(n + 1, s.len() as int));
        assert forall|k: int| 0 <= k < n + 1 implies white_space(#[trigger] s[k]) by {
            if k > 0 {
                assert(rest[k - 1] == s[k]);
            }
        }
        n + 1
    } else {
        assert(s =~= s.subrange(0, s.len() as int));
        0
    }
}

proof fn lemma_trim_end(s: Seq<char>) -> (n: int)
    ensures
        0 <= n <= s.len(),
        trim_end(s) == s.subrange(0, n),
        forall|k: int| n <= k < s.len() ==> white_space(#[trigger] s[k]),
        n > 0 ==> !white_space(s[n - 1]),
    decreases s.len(),
{
    if s.len() > 0 && white_space(s.last()) {
        let rest = s.drop_last();
        let n = lemma_trim_end(rest);
        assert(rest.subrange(0, n) =~= s.subrange(0, n));
        assert forall|k: int| n <= k < s.len() implies white_space(#[trigger] s[k]) by {
            if k < rest.len() {
                assert(rest[k] == s[k]);
            }
        }
        if n > 0 {
            assert(rest[n - 1] == s[n - 1]);
        }
        n
    } else {
        assert(s =~= s.subrange(0, s.len() as int));
        s.len() as int
    }
}

/// The first place of a text is found where there is one, and none before it is one.
pub proof fn law_first_place_is_found(s: Seq<char>, pat: Seq<char>)
    ensures
        position_of(s, pat) is Some <==> contains_text(s, pat),
        position_of(s, pat) matches Some(i) ==> {
            &&& s.subrange(i, i + pat.len()) == pat
            &&& 0 <= i <= s.len() - pat.len()
            &&& forall|j: int| 0 <= j < i ==> !#[trigger] occurs_at(s, pat, j)
        },
{
    if contains_text(s, pat) {
        let i = choose|i: int| occurs_at(s, pat, i);
        lemma_first_place(s, pat, i);
    }
}

proof fn lemma_first_place(s: Seq<char>, pat: Seq<char>, i: int)
    requires
        occurs_at(s, pat, i),
    ensures
        exists|k: int| first_at(s, pat, k),
    decreases i,
{
    if exists|j: int| j < i && occurs_at(s, pat, j) {
        let j = choose|j: int| j < i && occurs_at(s, pat, j);
        lemma_first_place(s, pat, j);
    } else {
        assert(first_at(s, pat, i));
    }
}

} // verus!
