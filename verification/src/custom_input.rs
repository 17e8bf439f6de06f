//! The text of the custom-timer dialog: `work` or `work,break`, both whole
//! minutes above zero.

use vstd::prelude::*;
use vstd::string::*;

verus! {

/// Why a custom-timer text was turned down.
#[derive(Clone, Copy, Debug, PartialEq, Eq, Structural)]
pub enum CustomInputError {
    /// More than one comma.
    InvalidFormat,
    /// The work part is not a number that fits.
    InvalidWorkMinutes,
    /// The break part is not a number that fits.
    InvalidBreakMinutes,
    /// A part is zero.
    ZeroMinutes,
}

/// White space as `char::is_whitespace` has it.
pub open spec fn is_whitespace(c: char) -> bool {
    let code = c as u32;
    ||| 0x09 <= code <= 0x0D
    ||| code == 0x20
    ||| code == 0x85
    ||| code == 0xA0
    ||| code == 0x1680
    ||| 0x2000 <= code <= 0x200A
    ||| code == 0x2028
    ||| code == 0x2029
    ||| code == 0x202F
    ||| code == 0x205F
    ||| code == 0x3000
}

/// The first place at or after `lo`, before `hi`, that holds no white space;
/// `hi` if there is none.
pub open spec fn skip_whitespace(s: Seq<char>, lo: int, hi: int) -> int
    decreases hi - lo,
{
    if lo < hi && is_whitespace(s[lo]) {
        skip_whitespace(s, lo + 1, hi)
    } else {
        lo
    }
}

/// The end of `s[lo..hi]` once the white space at its end is dropped.
pub open spec fn drop_trailing_whitespace(s: Seq<char>, lo: int, hi: int) -> int
    decreases hi - lo,
{
    if lo < hi && is_whitespace(s[hi - 1]) {
        drop_trailing_whitespace(s, lo, hi - 1)
    } else {
        hi
    }
}

/// `s` without the white space at either end.
pub open spec fn trimmed(s: Seq<char>) -> Seq<char> {
    let from = skip_whitespace(s, 0, s.len() as int);
    let to = drop_trailing_whitespace(s, from, s.len() as int);
    s.subrange(from, to)
}

/// One of the ten decimal digits.
pub open spec fn is_digit(c: char) -> bool {
    '0' <= c <= '9'
}

/// The value of a decimal digit.
pub open spec fn digit_value(c: char) -> nat {
    (c as u32 - '0' as u32) as nat
}

/// Every character is a decimal digit.
pub open spec fn all_digits(s: Seq<char>) -> bool {
    forall|i: int| 0 <= i < s.len() ==> is_digit(#[trigger] s[i])
}

/// The number that a run of decimal digits writes.
pub open spec fn decimal_value(s: Seq<char>) -> nat
    decreases s.len(),
{
    if s.len() == 0 {
        0
    } else {
        decimal_value(s.drop_last()) * 10 + digit_value(s.last())
    }
}

/// The digits of a number text: the text itself, without a leading plus sign.
pub open spec fn unsigned_body(s: Seq<char>) -> Seq<char> {
    if s.len() > 0 && s[0] == '+' {
        s.drop_first()
    } else {
        s
    }
}

/// The `u32` that `s` writes: one or more decimal digits, an optional plus
/// sign in front, and a value that fits.
pub open spec fn parse_u32(s: Seq<char>) -> Option<u32> {
    let body = unsigned_body(s);
    if body.len() > 0 && all_digits(body) && decimal_value(body) <= u32::MAX {
        Some(decimal_value(body) as u32)
    } else {
        None
    }
}

/// The first place at or after `from` that holds a comma; the length of `s`
/// if there is none.
pub open spec fn find_comma(s: Seq<char>, from: int) -> int
    decreases s.len() - from,
{
    if from < s.len() && s[from] != ',' {
        find_comma(s, from + 1)
    } else if from < s.len() {
        from
    } else {
        s.len() as int
    }
}

/// What a custom-timer text means. With a comma, it must be the only one,
/// and the trimmed texts on either side are work and break minutes; without
/// one, the whole text is the work minutes. Zero minutes are turned down.
pub open spec fn parse_custom(input: Seq<char>) -> Result<(u32, Option<u32>), CustomInputError> {
    let comma = find_comma(input, 0);
    if comma < input.len() {
        if find_comma(input, comma + 1) < input.len() {
            Err(CustomInputError::InvalidFormat)
        } else {
            match parse_u32(trimmed(input.subrange(0, comma))) {
                None => Err(CustomInputError::InvalidWorkMinutes),
                Some(work) => match parse_u32(
                    trimmed(input.subrange(comma + 1, input.len() as int)),
                ) {
                    None => Err(CustomInputError::InvalidBreakMinutes),
                    Some(pause) => if work == 0 || pause == 0 {
                        Err(CustomInputError::ZeroMinutes)
                    } else {
                        Ok((work, Some(pause)))
                    },
                },
            }
        }
    } else {
        match parse_u32(input) {
            None => Err(CustomInputError::InvalidWorkMinutes),
            Some(work) => if work == 0 {
                Err(CustomInputError::ZeroMinutes)
            } else {
                Ok((work, None))
            },
        }
    }
}

/// A longer run of digits writes no smaller a number than any run it starts
/// with.
pub proof fn lemma_decimal_value_grows(s: Seq<char>, k: int)
    requires
        0 <= k <= s.len(),
    ensures
        decimal_value(s.take(k)) <= decimal_value(s),
    decreases s.len(),
{
    if k == s.len() {
        assert(s.take(k) =~= s);
    } else {
        lemma_decimal_value_grows(s.drop_last(), k);
        assert(s.drop_last().take(k) =~= s.take(k));
    }
}

/// Trimming leaves no white space at either end of what remains, and takes
/// nothing but white space away.
pub proof fn lemma_trimmed_ends(s: Seq<char>)
    ensures
        trimmed(s).len() > 0 ==> !is_whitespace(trimmed(s).first()) && !is_whitespace(
            trimmed(s).last(),
        ),
        trimmed(s).len() <= s.len(),
{
    let from = skip_whitespace(s, 0, s.len() as int);
    lemma_skip_whitespace(s, 0, s.len() as int);
    lemma_drop_trailing_whitespace(s, from, s.len() as int);
}

proof fn lemma_skip_whitespace(s: Seq<char>, lo: int, hi: int)
    requires
        0 <= lo <= hi <= s.len(),
    ensures
        lo <= skip_whitespace(s, lo, hi) <= hi,
        skip_whitespace(s, lo, hi) < hi ==> !is_whitespace(s[skip_whitespace(s, lo, hi)]),
    decreases hi - lo,
{
    if lo < hi && is_whitespace(s[lo]) {
        lemma_skip_whitespace(s, lo + 1, hi);
    }
}

proof fn lemma_drop_trailing_whitespace(s: Seq<char>, lo: int, hi: int)
    requires
        0 <= lo <= hi <= s.len(),
    ensures
        lo <= drop_trailing_whitespace(s, lo, hi) <= hi,
        lo < drop_trailing_whitespace(s, lo, hi) ==> !is_whitespace(
            s[drop_trailing_whitespace(s, lo, hi) - 1],
        ),
    decreases hi - lo,
{
    if lo < hi && is_whitespace(s[hi - 1]) {
        lemma_drop_trailing_whitespace(s, lo, hi - 1);
    }
}

/// Whether `c` is white space.
pub fn char_is_whitespace(c: char) -> (white: bool)
    ensures
        white == is_whitespace(c),
{
    let code: u32 = c as u32;
    (0x09 <= code && code <= 0x0D) || code == 0x20 || code == 0x85 || code == 0xA0 || code
        == 0x1680 || (0x2000 <= code && code <= 0x200A) || code == 0x2028 || code == 0x2029 || code
        == 0x202F || code == 0x205F || code == 0x3000
}

/// The characters of `text`, in order.
pub fn to_chars(text: &str) -> (chars: Vec<char>)
    ensures
        chars@ == text@,
{
    let count = text.unicode_len();
    let mut chars: Vec<char> = Vec::new();
    let mut i: usize = 0;
    while i < count
        invariant
            i <= count,
            count == text@.len(),
            chars@ == text@.take(i as int),
        decreases count - i,
    {
        chars.push(text.get_char(i));
        assert(chars@ =~= text@.take(i as int + 1));
        i += 1;
    }
    assert(text@.take(count as int) =~= text@);
    chars
}

/// A copy of `text[lo..hi]`.
fn copy_range(text: &Vec<char>, lo: usize, hi: usize) -> (part: Vec<char>)
    requires
        lo <= hi <= text.len(),
    ensures
        part@ == text@.subrange(lo as int, hi as int),
{
    let mut part: Vec<char> = Vec::new();
    let mut i: usize = lo;
    while i < hi
        invariant
            lo <= i <= hi <= text.len(),
            part@ == text@.subrange(lo as int, i as int),
        decreases hi - i,
    {
        part.push(text[i]);
        assert(part@ =~= text@.subrange(lo as int, i as int + 1));
        i += 1;
    }
    part
}

/// `text` without the white space at either end.
pub fn trim(text: &Vec<char>) -> (kept: Vec<char>)
    ensures
        kept@ == trimmed(text@),
{
    let len = text.len();
    let mut from: usize = 0;
    while from < len && char_is_whitespace(text[from])
        invariant
            from <= len == text.len(),
            skip_whitespace(text@, 0, len as int) == skip_whitespace(text@, from as int, len as int),
        decreases len - from,
    {
        from += 1;
    }
    let mut to: usize = len;
    while from < to && char_is_whitespace(text[to - 1])
        invariant
            from <= to <= len == text.len(),
            drop_trailing_whitespace(text@, from as int, len as int) == drop_trailing_whitespace(
                text@,
                from as int,
                to as int,
            ),
        decreases to - from,
    {
        to -= 1;
    }
    copy_range(text, from, to)
}

/// Reads `text` as a `u32`.
pub fn parse_minutes(text: &Vec<char>) -> (minutes: Option<u32>)
    ensures
        minutes == parse_u32(text@),
{
    let len = text.len();
    let start: usize = if len > 0 && text[0] == '+' {
        1
    } else {
        0
    };
    let ghost body = unsigned_body(text@);
    assert(body =~= text@.subrange(start as int, len as int));
    if start == len {
        return None;
    }
    let mut value: u64 = 0;
    let mut i: usize = start;
    while i < len
        invariant
            start <= i <= len == text.len(),
            body == text@.subrange(start as int, len as int),
            body == unsigned_body(text@),
            all_digits(body.take(i - start)),
            value == decimal_value(body.take(i - start)),
            value <= u32::MAX,
        decreases len - i,
    {
        let c = text[i];
        let ghost seen = body.take(i - start + 1);
        proof {
            assert(seen.drop_last() =~= body.take(i - start));
            assert(seen.last() == c);
        }
        if !('0' <= c && c <= '9') {
            assert(body[i - start] == c);
            assert(!is_digit(body[i - start]));
            assert(!all_digits(body));
            return None;
        }
        let digit: u64 = (c as u32 - '0' as u32) as u64;
        let next: u64 = value * 10 + digit;
        assert(next == decimal_value(seen));
        if next > 0xFFFF_FFFF {
            proof {
                lemma_decimal_value_grows(body, i - start + 1);
                assert(decimal_value(body) >= next);
            }
            return None;
        }
        assert(all_digits(seen)) by {
            assert forall|k: int| 0 <= k < seen.len() implies is_digit(#[trigger] seen[k]) by {
                if k < seen.len() - 1 {
                    assert(seen[k] == body.take(i - start)[k]);
                }
            }
        }
        value = next;
        i += 1;
    }
    assert(body.take(len - start) =~= body);
    Some(value as u32)
}

/// The first place at or after `from` that holds a comma, or the length of
/// `text`.
fn comma_position(text: &Vec<char>, from: usize) -> (at: usize)
    requires
        from <= text.len(),
    ensures
        at == find_comma(text@, from as int),
        from <= at <= text.len(),
{
    let mut at: usize = from;
    while at < text.len() && text[at] != ','
        invariant
            from <= at <= text.len(),
            find_comma(text@, from as int) == find_comma(text@, at as int),
        decreases text.len() - at,
    {
        at += 1;
    }
    at
}

/// Reads a custom-timer text: `work` or `work,break`.
pub fn parse_custom_input(input: &str) -> (parsed: Result<(u32, Option<u32>), CustomInputError>)
    ensures
        parsed == parse_custom(input@),
{
    let text = to_chars(input);
    parse_custom_chars(&text)
}

/// Reads a custom-timer text given as its characters.
pub fn parse_custom_chars(text: &Vec<char>) -> (parsed: Result<(u32, Option<u32>), CustomInputError>)
    ensures
        parsed == parse_custom(text@),
{
    let comma = comma_position(text, 0);
    if comma < text.len() {
        if comma_position(text, comma + 1) < text.len() {
            return Err(CustomInputError::InvalidFormat);
        }
        let work_text = trim(&copy_range(text, 0, comma));
        let break_text = trim(&copy_range(text, comma + 1, text.len()));
        match parse_minutes(&work_text) {
            None => Err(CustomInputError::InvalidWorkMinutes),
            Some(work) => match parse_minutes(&break_text) {
                None => Err(CustomInputError::InvalidBreakMinutes),
                Some(pause) => if work == 0 || pause == 0 {
                    Err(CustomInputError::ZeroMinutes)
                } else {
                    Ok((work, Some(pause)))
                },
            },
        }
    } else {
        match parse_minutes(text) {
            None => Err(CustomInputError::InvalidWorkMinutes),
            Some(work) => if work == 0 {
                Err(CustomInputError::ZeroMinutes)
            } else {
                Ok((work, None))
            },
        }
    }
}

impl CustomInputError {
    /// The message shown for this error.
    pub fn message(&self) -> (text: &'static str)
        ensures
            text@ == match self {
                CustomInputError::InvalidFormat => "Invalid format. Use 'work,break' or just 'work'"@,
                CustomInputError::InvalidWorkMinutes => "Invalid work minutes"@,
                CustomInputError::InvalidBreakMinutes => "Invalid break minutes"@,
                CustomInputError::ZeroMinutes => "Minutes must be greater than 0"@,
            },
    {
        match self {
            CustomInputError::InvalidFormat => "Invalid format. Use 'work,break' or just 'work'",
            CustomInputError::InvalidWorkMinutes => "Invalid work minutes",
            CustomInputError::InvalidBreakMinutes => "Invalid break minutes",
            CustomInputError::ZeroMinutes => "Minutes must be greater than 0",
        }
    }
}

} // verus!
