//! Duration specs: one token such as `25m` is a span of seconds, and a
//! sequence of tokens is the sum of their spans.

use vstd::prelude::*;
use vstd::string::*;

verus! {

pub const SECONDS_PER_MINUTE: u64 = 60;

pub const SECONDS_PER_HOUR: u64 = 3600;

/// The unit of a duration spec, written as the last letter of the token.
#[derive(Clone, Copy, Debug, PartialEq, Eq, Structural)]
pub enum Unit {
    Hours,
    Minutes,
    Seconds,
}

impl Unit {
    /// The letter that ends a token of this unit.
    pub open spec fn suffix(self) -> char {
        match self {
            Unit::Hours => 'h',
            Unit::Minutes => 'm',
            Unit::Seconds => 's',
        }
    }

    /// The seconds in one of this unit.
    pub open spec fn seconds(self) -> nat {
        match self {
            Unit::Hours => SECONDS_PER_HOUR as nat,
            Unit::Minutes => SECONDS_PER_MINUTE as nat,
            Unit::Seconds => 1,
        }
    }
}

/// Why a token is no duration.
#[derive(Clone, Copy, Debug, PartialEq, Eq, Structural)]
pub enum ParsingErrorKind {
    /// The token has none of the three forms.
    Invalid,
    /// The token has one of the three forms, but its seconds, or the total
    /// with its seconds added, do not fit in 64 bits.
    Overflow,
}

/// A token that could not be taken as a duration, and why.
#[derive(Clone, Debug, PartialEq, Eq)]
pub struct ParsingError {
    pub kind: ParsingErrorKind,
    /// The offending token.
    pub token: String,
}

/// What a [`ParsingError`] is to the contracts.
pub ghost struct ParsingErrorModel {
    pub kind: ParsingErrorKind,
    pub token: Seq<char>,
}

impl View for ParsingError {
    type V = ParsingErrorModel;

    open spec fn view(&self) -> ParsingErrorModel {
        ParsingErrorModel { kind: self.kind, token: self.token@ }
    }
}

impl ParsingErrorKind {
    /// Why the token is no duration, in words.
    pub open spec fn reason_text(self) -> Seq<char> {
        match self {
            ParsingErrorKind::Invalid => "invalid duration"@,
            ParsingErrorKind::Overflow => "duration too long"@,
        }
    }
}

impl ParsingError {
    /// Says in words why the token is no duration.
    pub fn reason(&self) -> (text: &'static str)
        ensures
            text@ == self.kind.reason_text(),
    {
        match self.kind {
            ParsingErrorKind::Invalid => "invalid duration",
            ParsingErrorKind::Overflow => "duration too long",
        }
    }

    /// What the error says of itself, whatever the token.
    pub fn message(&self) -> (text: &'static str)
        ensures
            text@ == "a duration parsing error occured"@,
    {
        "a duration parsing error occured"
    }
}

/// One of the ten decimal digits `0` to `9`.
pub open spec fn is_digit(c: char) -> bool {
    '0' <= c <= '9'
}

/// The number that a decimal digit writes.
pub open spec fn digit_value(c: char) -> nat
    recommends
        is_digit(c),
{
    (c as nat - '0' as nat) as nat
}

/// A numeral is one or more decimal digits.
pub open spec fn is_numeral(digits: Seq<char>) -> bool {
    digits.len() > 0 && forall|i: int| 0 <= i < digits.len() ==> is_digit(#[trigger] digits[i])
}

/// The number that a numeral writes, of whatever width.
pub open spec fn numeral_value(digits: Seq<char>) -> nat
    decreases digits.len(),
{
    if digits.len() == 0 {
        0
    } else {
        10 * numeral_value(digits.drop_last()) + digit_value(digits.last())
    }
}

/// The form of a duration spec of one unit: a numeral and then the letter
/// of the unit, with nothing before or after.
pub open spec fn has_form(token: Seq<char>, unit: Unit) -> bool {
    token.len() > 0 && token.last() == unit.suffix() && is_numeral(token.drop_last())
}

/// A duration spec has the form of hours, of minutes or of seconds.
pub open spec fn is_duration_spec(token: Seq<char>) -> bool {
    has_form(token, Unit::Hours) || has_form(token, Unit::Minutes) || has_form(
        token,
        Unit::Seconds,
    )
}

/// The unit of a duration spec.
pub open spec fn unit_of(token: Seq<char>) -> Unit
    recommends
        is_duration_spec(token),
{
    if has_form(token, Unit::Hours) {
        Unit::Hours
    } else if has_form(token, Unit::Minutes) {
        Unit::Minutes
    } else {
        Unit::Seconds
    }
}

/// The span of a duration spec in seconds: its numeral times the seconds in
/// its unit.
pub open spec fn spec_seconds(token: Seq<char>) -> nat
    recommends
        is_duration_spec(token),
{
    numeral_value(token.drop_last()) * unit_of(token).seconds()
}

/// No token has the form of two units: the forms end in different letters.
pub proof fn law_forms_exclude_each_other(token: Seq<char>, first: Unit, second: Unit)
    requires
        has_form(token, first),
        has_form(token, second),
    ensures
        first == second,
{
}

/// A numeral with a digit appended writes ten times the number and the
/// digit.
proof fn lemma_numeral_step(digits: Seq<char>, end: int)
    requires
        0 <= end < digits.len(),
    ensures
        numeral_value(digits.subrange(0, end + 1)) == 10 * numeral_value(digits.subrange(0, end))
            + digit_value(digits[end]),
{
    assert(digits.subrange(0, end + 1).drop_last() =~= digits.subrange(0, end));
}

/// A token that has the form of a unit is made of ASCII characters.
proof fn lemma_form_is_ascii(token: Seq<char>, unit: Unit)
    requires
        has_form(token, unit),
    ensures
        vstd::utf8::is_ascii_chars(token),
{
    assert forall|i: int| 0 <= i < token.len() implies '\0' <= #[trigger] token[i] <= '\u{7f}' by {
        if i < token.len() - 1 {
            assert(is_digit(token.drop_last()[i]));
        } else {
            assert(token[i] == token.last());
        }
    }
}

/// The numeral before the letter of `unit`, where the token has the form of
/// that unit.
///
/// `Ok(None)` says that the token has not the form; `Err(Overflow)` that it
/// has, with a numeral too large for 64 bits.
pub fn match_duration(input: &str, unit: Unit) -> (result: Result<Option<u64>, ParsingErrorKind>)
    ensures
        match result {
            Ok(None) => !has_form(input@, unit),
            Ok(Some(number)) => has_form(input@, unit) && number == numeral_value(
                input@.drop_last(),
            ),
            Err(kind) => has_form(input@, unit) && numeral_value(input@.drop_last()) > u64::MAX
                && kind == ParsingErrorKind::Overflow,
        },
{
    broadcast use is_ascii_spec_bytes;

    if !input.is_ascii() {
        proof {
            if has_form(input@, unit) {
                lemma_form_is_ascii(input@, unit);
            }
        }
        return Ok(None);
    }
    let bytes = input.as_bytes();
    let len = bytes.len();
    assert(forall|j: int| 0 <= j < len ==> #[trigger] bytes@[j] == input@[j] as u8);
    if len < 2 {
        return Ok(None);
    }
    let suffix: u8 = match unit {
        Unit::Hours => 104,
        Unit::Minutes => 109,
        Unit::Seconds => 115,
    };
    if bytes[len - 1] != suffix {
        return Ok(None);
    }
    let ghost digits = input@.drop_last();
    let mut value: u64 = 0;
    let mut overflowed = false;
    let mut i: usize = 0;
    while i < len - 1
        invariant
            input.is_ascii(),
            len == input@.len(),
            len == bytes@.len(),
            len >= 2,
            forall|j: int| 0 <= j < len ==> #[trigger] bytes@[j] == input@[j] as u8,
            digits == input@.drop_last(),
            0 <= i <= len - 1,
            forall|j: int| 0 <= j < i ==> is_digit(#[trigger] digits[j]),
            !overflowed ==> value == numeral_value(digits.subrange(0, i as int)),
            overflowed ==> numeral_value(digits.subrange(0, i as int)) > u64::MAX,
        decreases len - i,
    {
        let byte = bytes[i];
        if byte < 48 || byte > 57 {
            assert(!is_digit(digits[i as int]));
            return Ok(None);
        }
        proof {
            lemma_numeral_step(digits, i as int);
        }
        let digit: u64 = (byte - 48) as u64;
        assert(digit == digit_value(digits[i as int]));
        if !overflowed {
            match value.checked_mul(10) {
                None => {
                    overflowed = true;
                },
                Some(tens) => match tens.checked_add(digit) {
                    None => {
                        overflowed = true;
                    },
                    Some(next) => {
                        value = next;
                    },
                },
            }
        }
        i += 1;
    }
    assert(digits.subrange(0, i as int) =~= digits);
    if overflowed {
        Err(ParsingErrorKind::Overflow)
    } else {
        Ok(Some(value))
    }
}

/// The span of `input` where it has the form of `unit`, and `None` where it
/// has not.
fn parse_as(input: &str, unit: Unit) -> (result: Option<Result<u64, ParsingError>>)
    ensures
        match result {
            None => !has_form(input@, unit),
            Some(Ok(seconds)) => has_form(input@, unit) && seconds == spec_seconds(input@),
            Some(Err(error)) => has_form(input@, unit) && spec_seconds(input@) > u64::MAX
                && error@ == (ParsingErrorModel {
                kind: ParsingErrorKind::Overflow,
                token: input@,
            }),
        },
{
    let per_unit: u64 = match unit {
        Unit::Hours => SECONDS_PER_HOUR,
        Unit::Minutes => SECONDS_PER_MINUTE,
        Unit::Seconds => 1,
    };
    match match_duration(input, unit) {
        Ok(None) => None,
        Ok(Some(number)) => match number.checked_mul(per_unit) {
            Some(seconds) => Some(Ok(seconds)),
            None => Some(
                Err(ParsingError { kind: ParsingErrorKind::Overflow, token: input.to_owned() }),
            ),
        },
        Err(kind) => {
            assert(numeral_value(input@.drop_last()) * per_unit > u64::MAX) by (nonlinear_arith)
                requires
                    numeral_value(input@.drop_last()) > u64::MAX,
                    per_unit >= 1,
            ;
            Some(Err(ParsingError { kind, token: input.to_owned() }))
        },
    }
}

/// Parses one duration spec into seconds.
///
/// A token is a duration spec if it is a numeral followed by `h`, `m` or
/// `s` and nothing else; its span is the numeral times 3600, 60 or 1. A
/// token of another form is `Invalid`: a bare numeral, the empty token and a
/// token of several units among them. A duration spec whose span needs
/// more than 64 bits is an `Overflow`.
pub fn parse_duration(input: &str) -> (result: Result<u64, ParsingError>)
    ensures
        match result {
            Ok(seconds) => is_duration_spec(input@) && seconds == spec_seconds(input@),
            Err(error) => error.token@ == input@ && match error.kind {
                ParsingErrorKind::Invalid => !is_duration_spec(input@),
                ParsingErrorKind::Overflow => is_duration_spec(input@) && spec_seconds(input@)
                    > u64::MAX,
            },
        },
{
    if let Some(hours) = parse_as(input, Unit::Hours) {
        return hours;
    }
    if let Some(minutes) = parse_as(input, Unit::Minutes) {
        return minutes;
    }
    if let Some(seconds) = parse_as(input, Unit::Seconds) {
        return seconds;
    }
    Err(ParsingError { kind: ParsingErrorKind::Invalid, token: input.to_owned() })
}

/// A token that alone is a duration of at most the largest 64-bit number of
/// seconds.
pub open spec fn is_span(token: Seq<char>) -> bool {
    is_duration_spec(token) && spec_seconds(token) <= u64::MAX
}

/// The sum of the spans of `tokens`.
pub open spec fn sum_seconds(tokens: Seq<Seq<char>>) -> nat
    decreases tokens.len(),
{
    if tokens.len() == 0 {
        0
    } else {
        sum_seconds(tokens.drop_last()) + spec_seconds(tokens.last())
    }
}

/// Summing `tokens` from the first on stops at the token at `index`: it is
/// no span, or the sum up to it and with it does not fit in 64 bits.
pub open spec fn stops_at(tokens: Seq<Seq<char>>, index: int) -> bool
    recommends
        0 <= index < tokens.len(),
{
    !is_span(tokens[index]) || sum_seconds(tokens.take(index + 1)) > u64::MAX
}

/// What the error says of the token at which the sum stops.
pub open spec fn stop_kind(tokens: Seq<Seq<char>>, index: int) -> ParsingErrorKind
    recommends
        0 <= index < tokens.len(),
        stops_at(tokens, index),
{
    if is_duration_spec(tokens[index]) {
        ParsingErrorKind::Overflow
    } else {
        ParsingErrorKind::Invalid
    }
}

/// Sums the spans of a sequence of duration specs.
///
/// No token gives zero seconds. The sum fails at the first token that is
/// no span, or whose span takes the sum past 64 bits, and the error names
/// that token.
pub fn accumulate(tokens: &Vec<String>) -> (result: Result<u64, ParsingError>)
    ensures
        match result {
            Ok(total) => total == sum_seconds(tokens.deep_view()) && forall|i: int|
                0 <= i < tokens.len() ==> !stops_at(tokens.deep_view(), i),
            Err(error) => exists|i: int|
                0 <= i < tokens.len() && #[trigger] stops_at(tokens.deep_view(), i) && (forall|
                    j: int,
                | 0 <= j < i ==> !stops_at(tokens.deep_view(), j)) && error@
                    == (ParsingErrorModel {
                    kind: stop_kind(tokens.deep_view(), i),
                    token: tokens.deep_view()[i],
                }),
        },
{
    let ghost views = tokens.deep_view();
    let mut total: u64 = 0;
    let mut i: usize = 0;
    while i < tokens.len()
        invariant
            views == tokens.deep_view(),
            0 <= i <= tokens.len(),
            total == sum_seconds(views.take(i as int)),
            forall|j: int| 0 <= j < i ==> !stops_at(views, j),
        decreases tokens.len() - i,
    {
        assert(views.take(i + 1).drop_last() =~= views.take(i as int));
        assert(views[i as int] == tokens[i as int]@);
        match parse_duration(tokens[i].as_str()) {
            Err(error) => {
                assert(stops_at(views, i as int));
                return Err(error);
            },
            Ok(seconds) => match total.checked_add(seconds) {
                None => {
                    assert(stops_at(views, i as int));
                    return Err(
                        ParsingError {
                            kind: ParsingErrorKind::Overflow,
                            token: tokens[i].clone(),
                        },
                    );
                },
                Some(sum) => {
                    total = sum;
                },
            },
        }
        i += 1;
    }
    assert(views.take(i as int) =~= views);
    Ok(total)
}

} // verus!
