//! Furuno report lines: `$N`, a hexadecimal opcode and fields, all separated by
//! commas.

use vstd::prelude::*;
use vstd::string::*;

use super::protocol::CommandId;
use crate::text::{chars_of, text_of};

verus! {

/// Why a report line or a report is refused.
#[derive(Clone, Copy, Debug, PartialEq, Eq, Structural)]
pub enum ReportError {
    /// The line does not begin with `$N`.
    NotAReport,
    /// The opcode is not a hexadecimal byte.
    BadOpcode,
    /// The report has too few fields.
    TooFewFields { command: CommandId, count: usize },
    /// No range slot has this wire index in this wire unit.
    UnknownRange { index: i32, unit: i32 },
}

/// A report line taken apart.
pub struct ReportLine {
    pub command: CommandId,
    pub fields: Vec<String>,
}

/// What the fields hold.
pub open spec fn fields_view(fields: Seq<String>) -> Seq<Seq<char>> {
    Seq::new(fields.len(), |i: int| fields[i]@)
}

/// The offset of the first `c`, or the length when there is none.
pub open spec fn position(s: Seq<char>, c: char) -> int
    decreases s.len(),
{
    if s.len() == 0 || s[0] == c {
        0
    } else {
        1 + position(s.drop_first(), c)
    }
}

/// The parts of a text between commas.
pub open spec fn comma_parts(s: Seq<char>) -> Seq<Seq<char>>
    decreases s.len(),
{
    let i = position(s, ',');
    if 0 <= i < s.len() {
        seq![s.take(i)] + comma_parts(s.skip(i + 1))
    } else {
        seq![s]
    }
}

/// A text without the line ends that it ends with.
pub open spec fn without_line_end(s: Seq<char>) -> Seq<char>
    decreases s.len(),
{
    if s.len() >= 2 && s[s.len() - 2] == '\r' && s[s.len() - 1] == '\n' {
        without_line_end(s.take(s.len() - 2))
    } else {
        s
    }
}

/// The value of a hexadecimal digit.
pub open spec fn hex_digit(c: char) -> Option<int> {
    if '0' <= c <= '9' {
        Some(c as int - '0' as int)
    } else if 'a' <= c <= 'f' {
        Some(c as int - 'a' as int + 10)
    } else if 'A' <= c <= 'F' {
        Some(c as int - 'A' as int + 10)
    } else {
        None
    }
}

/// The value of a run of hexadecimal digits.
pub open spec fn hex_value(s: Seq<char>) -> Option<int>
    decreases s.len(),
{
    if s.len() == 0 {
        Some(0)
    } else {
        match (hex_value(s.drop_last()), hex_digit(s.last())) {
            (Some(v), Some(d)) => Some(16 * v + d),
            _ => None,
        }
    }
}

/// The byte that a text stands for in hexadecimal: digits, perhaps after a plus
/// sign.
pub open spec fn hex_number(s: Seq<char>) -> Option<int> {
    let digits = if s.len() > 0 && s[0] == '+' { s.skip(1) } else { s };
    match hex_value(digits) {
        Some(v) if digits.len() > 0 && v <= 0xff => Some(v),
        _ => None,
    }
}

/// The line from its first dollar sign on.
pub open spec fn from_dollar(line: Seq<char>) -> Seq<char> {
    line.skip(position(line, '$'))
}

/// Whether a line holds a dollar sign whose next character takes more than one
/// byte.
pub open spec fn has_wide_mode(line: Seq<char>) -> bool {
    let s = from_dollar(line);
    s.len() >= 2 && s[1] as u32 >= 0x80
}

/// What a line says: nothing where it has no dollar sign or an opcode that is
/// not in use, else the command and the fields.
pub open spec fn line_meaning(line: Seq<char>) -> Result<
    Option<(CommandId, Seq<Seq<char>>)>,
    ReportError,
> {
    let s = from_dollar(line);
    if s.len() == 0 {
        Ok(None)
    } else if s.len() < 2 || s[1] != 'N' {
        Err(ReportError::NotAReport)
    } else {
        let parts = comma_parts(without_line_end(s.skip(2)));
        match hex_number(parts[0]) {
            None => Err(ReportError::BadOpcode),
            Some(code) => if exists|c: CommandId| #[trigger] c.code() == code {
                Ok(Some((choose|c: CommandId| #[trigger] c.code() == code, parts.drop_first())))
            } else {
                Ok(None)
            },
        }
    }
}

pub proof fn lemma_position(s: Seq<char>, c: char, n: int)
    requires
        0 <= n <= s.len(),
        forall|i: int| 0 <= i < n ==> s[i] != c,
        n == s.len() || s[n] == c,
    ensures
        position(s, c) == n,
    decreases n,
{
    if n > 0 {
        lemma_position(s.drop_first(), c, n - 1);
    }
}

/// The offset of the first `c` from `start` on, or the length.
pub fn find_char(s: &[char], c: char, start: usize) -> (r: usize)
    requires
        start <= s@.len(),
    ensures
        r == start + position(s@.skip(start as int), c),
        start <= r <= s@.len(),
        r < s@.len() ==> s@[r as int] == c,
{
    let mut i: usize = start;
    while i < s.len() && s[i] != c
        invariant
            start <= i <= s@.len(),
            forall|k: int| start <= k < i ==> s@[k] != c,
        decreases s@.len() - i,
    {
        i += 1;
    }
    proof {
        let t = s@.skip(start as int);
        assert forall|k: int| 0 <= k < i - start implies t[k] != c by {
            assert(s@[start + k] != c);
        }
        lemma_position(t, c, i - start);
    }
    i
}

fn trimmed_len(s: &[char], start: usize) -> (r: usize)
    requires
        start <= s@.len(),
    ensures
        start <= r <= s@.len(),
        s@.subrange(start as int, r as int) == without_line_end(s@.skip(start as int)),
{
    let mut end: usize = s.len();
    assert(s@.subrange(start as int, end as int) =~= s@.skip(start as int));
    while end - start >= 2 && s[end - 2] == '\r' && s[end - 1] == '\n'
        invariant
            start <= end <= s@.len(),
            without_line_end(s@.subrange(start as int, end as int)) == without_line_end(
                s@.skip(start as int),
            ),
        decreases end,
    {
        let ghost t = s@.subrange(start as int, end as int);
        end -= 2;
        assert(t.take(t.len() - 2) =~= s@.subrange(start as int, end as int));
    }
    end
}

fn split_commas(s: &[char], start: usize, end: usize) -> (r: Vec<String>)
    requires
        start <= end <= s@.len(),
    ensures
        fields_view(r@) == comma_parts(s@.subrange(start as int, end as int)),
        r@.len() > 0,
{
    let mut out: Vec<String> = Vec::new();
    let mut at: usize = start;
    let ghost whole = comma_parts(s@.subrange(start as int, end as int));
    let text = vstd::slice::slice_subrange(s, 0, end);
    assert(fields_view(out@) + whole =~= whole);
    loop
        invariant_except_break
            start <= at <= end <= s@.len(),
            text@ == s@.subrange(0, end as int),
            whole == comma_parts(s@.subrange(start as int, end as int)),
            fields_view(out@) + comma_parts(s@.subrange(at as int, end as int)) == whole,
        ensures
            fields_view(out@) == whole,
            out@.len() > 0,
        decreases end - at,
    {
        let comma: usize = find_char(text, ',', at);
        let ghost rest = s@.subrange(at as int, end as int);
        let ghost listed = fields_view(out@);
        assert(text@.skip(at as int) =~= rest);
        out.push(text_of(vstd::slice::slice_subrange(text, at, comma)));
        proof {
            assert(text@.subrange(at as int, comma as int) =~= rest.take(comma - at));
            assert(fields_view(out@) =~= listed.push(rest.take(comma - at)));
        }
        if comma == end {
            assert(rest.take(comma - at) =~= rest);
            assert(fields_view(out@) =~= listed + seq![rest]);
            break;
        }
        at = comma + 1;
        proof {
            let head = rest.take(position(rest, ','));
            let tail = rest.skip(position(rest, ',') + 1);
            assert(tail =~= s@.subrange(at as int, end as int));
            assert(listed + (seq![head] + comma_parts(tail)) =~= listed.push(head) + comma_parts(
                tail,
            ));
        }
    }
    out
}

fn digit_value(c: char) -> (r: Option<u32>)
    ensures
        r is Some <==> hex_digit(c) is Some,
        r matches Some(d) ==> hex_digit(c) == Some(d as int) && d < 16,
{
    if '0' <= c && c <= '9' {
        Some(c as u32 - '0' as u32)
    } else if 'a' <= c && c <= 'f' {
        Some(c as u32 - 'a' as u32 + 10)
    } else if 'A' <= c && c <= 'F' {
        Some(c as u32 - 'A' as u32 + 10)
    } else {
        None
    }
}

proof fn lemma_hex_prefix(s: Seq<char>, n: int)
    requires
        0 <= n <= s.len(),
    ensures
        hex_value(s.take(n)) is None ==> hex_value(s) is None,
        hex_value(s) matches Some(v) ==> v >= 0 && v >= hex_value(s.take(n))->0,
    decreases s.len(),
{
    if n == s.len() {
        assert(s.take(n) =~= s);
        if n > 0 {
            lemma_hex_prefix(s.drop_last(), n - 1);
        }
    } else {
        lemma_hex_prefix(s.drop_last(), n);
        assert(s.drop_last().take(n) =~= s.take(n));
    }
}

/// The byte that a text stands for in hexadecimal.
pub fn parse_hex_byte(s: &str) -> (r: Option<u8>)
    ensures
        r is Some <==> hex_number(s@) is Some,
        r matches Some(v) ==> hex_number(s@) == Some(v as int),
{
    let chars = chars_of(s);
    let start: usize = if chars.len() > 0 && chars[0] == '+' {
        1
    } else {
        0
    };
    let ghost digits = if s@.len() > 0 && s@[0] == '+' { s@.skip(1) } else { s@ };
    assert(digits =~= s@.skip(start as int));
    if chars.len() == start {
        return None;
    }
    let mut value: u32 = 0;
    let mut i: usize = start;
    while i < chars.len()
        invariant
            chars@ == s@,
            digits == s@.skip(start as int),
            digits == if s@.len() > 0 && s@[0] == '+' { s@.skip(1) } else { s@ },
            digits.len() > 0,
            start <= i <= chars@.len(),
            value <= 0xff,
            hex_value(digits.take(i - start)) == Some(value as int),
        decreases chars@.len() - i,
    {
        let ghost next = digits.take(i + 1 - start);
        proof {
            assert(next.drop_last() =~= digits.take(i - start));
            assert(next.last() == s@[i as int]);
            lemma_hex_prefix(digits, i + 1 - start);
        }
        match digit_value(chars[i]) {
            Some(d) => {
                value = 16 * value + d;
            },
            None => {
                return None;
            },
        }
        if value > 0xff {
            return None;
        }
        i += 1;
    }
    assert(digits.take(i - start) =~= digits);
    Some(value as u8)
}

/// Whether a line holds a dollar sign whose next character takes more than one
/// byte.
pub fn is_wide_mode(line: &str) -> (r: bool)
    ensures
        r == has_wide_mode(line@),
{
    let chars = chars_of(line);
    assert(chars@.skip(0) =~= chars@);
    let at: usize = find_char(chars.as_slice(), '$', 0);
    assert(chars@.len() == chars.len());
    at < chars.len() && at + 1 < chars.len() && chars[at + 1] as u32 >= 0x80
}

/// Take a report line apart.
pub fn parse_line(line: &str) -> (r: Result<Option<ReportLine>, ReportError>)
    requires
        !has_wide_mode(line@),
    ensures
        match r {
            Err(e) => line_meaning(line@) == Err::<
                Option<(CommandId, Seq<Seq<char>>)>,
                ReportError,
            >(e),
            Ok(None) => line_meaning(line@) == Ok::<
                Option<(CommandId, Seq<Seq<char>>)>,
                ReportError,
            >(None),
            Ok(Some(l)) => line_meaning(line@) == Ok::<
                Option<(CommandId, Seq<Seq<char>>)>,
                ReportError,
            >(Some((l.command, fields_view(l.fields@)))),
        },
{
    let chars = chars_of(line);
    assert(chars@.skip(0) =~= chars@);
    let at: usize = find_char(chars.as_slice(), '$', 0);
    if at == chars.len() {
        assert(from_dollar(line@).len() == 0);
        return Ok(None);
    }
    let ghost s = from_dollar(line@);
    assert(s =~= chars@.skip(at as int));
    assert(chars@.len() == chars.len());
    if chars.len() - at < 2 || chars[at + 1] != 'N' {
        return Err(ReportError::NotAReport);
    }
    let start: usize = at + 2;
    let end: usize = trimmed_len(chars.as_slice(), start);
    assert(s.skip(2) =~= chars@.skip(start as int));
    let mut parts = split_commas(chars.as_slice(), start, end);
    let ghost all = comma_parts(without_line_end(s.skip(2)));
    assert(all == fields_view(parts@));
    let opcode = parts.remove(0);
    assert(fields_view(parts@) =~= all.drop_first());
    assert(all[0] == opcode@);
    match parse_hex_byte(opcode.as_str()) {
        None => Err(ReportError::BadOpcode),
        Some(code) => match CommandId::from_u8(code) {
            None => Ok(None),
            Some(command) => {
                proof {
                    let c = choose|c: CommandId| #[trigger] c.code() == code;
                    super::protocol::law_opcodes_distinct(c, command);
                }
                Ok(Some(ReportLine { command, fields: parts }))
            },
        },
    }
}

/// A plus sign before a number changes nothing, and a text without a digit is no number.
pub proof fn law_plus_sign_is_skipped(s: Seq<char>)
    requires
        s.len() > 0,
        s[0] != '+',
    ensures
        hex_number(seq!['+'] + s) == hex_number(s),
        hex_number(seq!['+']) is None,
        hex_number(Seq::empty()) is None,
{
    assert((seq!['+'] + s).skip(1) =~= s);
    assert(seq!['+'].skip(1) =~= Seq::<char>::empty());
}

/// Hexadecimal digits count from zero to fifteen, in either case.
pub proof fn law_hex_digits(c: char)
    ensures
        hex_digit('0') == Some(0int) && hex_digit('9') == Some(9int),
        hex_digit('a') == Some(10int) && hex_digit('f') == Some(15int),
        hex_digit('A') == Some(10int) && hex_digit('F') == Some(15int),
        hex_digit('g') is None && hex_digit('G') is None && hex_digit('/') is None && hex_digit(':')
            is None,
        hex_digit(c) matches Some(d) ==> 0 <= d < 16,
{
    assert('0' as int == 0x30 && '9' as int == 0x39 && 'a' as int == 0x61 && 'f' as int == 0x66
        && 'A' as int == 0x41 && 'F' as int == 0x46 && 'g' as int == 0x67 && 'G' as int == 0x47
        && '/' as int == 0x2f && ':' as int == 0x3a);
}

/// What stands before the first dollar sign does not matter, and a line without one says
/// nothing; one in another mode is no report.
pub proof fn law_lines_begin_with_a_dollar(noise: Seq<char>, line: Seq<char>)
    requires
        forall|i: int| 0 <= i < noise.len() ==> noise[i] != '$',
        line.len() > 0,
        line[0] == '$',
    ensures
        line_meaning(noise + line) == line_meaning(line),
        line_meaning(noise) == Ok::<Option<(CommandId, Seq<Seq<char>>)>, ReportError>(None),
        line.len() == 1 || line[1] != 'N' ==> line_meaning(line) == Err::<
            Option<(CommandId, Seq<Seq<char>>)>,
            ReportError,
        >(ReportError::NotAReport),
{
    lemma_position(noise + line, '$', noise.len() as int);
    lemma_position(line, '$', 0);
    lemma_position(noise, '$', noise.len() as int);
    assert(from_dollar(noise + line) =~= line);
    assert(from_dollar(line) =~= line);
    assert(from_dollar(noise) =~= Seq::<char>::empty());
}

/// An opcode is a byte: a number that is too large for one is none.
pub proof fn law_opcodes_are_bytes(s: Seq<char>)
    ensures
        hex_number(s) matches Some(v) ==> 0 <= v < 256,
{
    let digits = if s.len() > 0 && s[0] == '+' { s.skip(1) } else { s };
    lemma_hex_prefix(digits, 0);
    assert(digits.take(0) =~= Seq::<char>::empty());
}

} // verus!
