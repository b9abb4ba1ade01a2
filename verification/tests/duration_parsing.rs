use regex::Regex;
use spomo::feature::duration_parsing::{
    accumulate, match_duration, parse_duration, ParsingError, ParsingErrorKind, Unit,
};
use std::time::Duration;

#[test]
fn parsing_1h_duration_should_succeed() {
    let duration = parse_duration("1h").expect("should be parsed correctly");

    assert_eq!(Duration::from_secs(1 * 60 * 60), Duration::from_secs(duration));
}

#[test]
fn parsing_2h_duration_should_succeed() {
    let duration = parse_duration("2h").expect("should be parsed correctly");

    assert_eq!(Duration::from_secs(2 * 60 * 60), Duration::from_secs(duration));
}

#[test]
fn parsing_a_plain_number_should_fail() {
    let duration = parse_duration("15");

    assert!(duration.is_err());
}

#[test]
fn parsing_25m_duration_should_succeed() {
    let duration = parse_duration("25m").expect("should be parsed correctly");

    assert_eq!(Duration::from_secs(25 * 60), Duration::from_secs(duration));
}

#[test]
fn parsing_30s_duration_should_succeed() {
    let duration = parse_duration("30s").expect("should be parsed correctly");

    assert_eq!(Duration::from_secs(30), Duration::from_secs(duration));
}

#[test]
fn parsing_an_empty_string_should_fail() {
    let duration = parse_duration("");

    assert!(duration.is_err());
}

fn invalid(token: &str) -> Result<u64, ParsingError> {
    Err(ParsingError { kind: ParsingErrorKind::Invalid, token: token.to_string() })
}

fn overflow(token: &str) -> Result<u64, ParsingError> {
    Err(ParsingError { kind: ParsingErrorKind::Overflow, token: token.to_string() })
}

#[test]
fn parsing_gives_numeral_times_multiplier() {
    assert_eq!(Ok(3600), parse_duration("1h"));
    assert_eq!(Ok(1500), parse_duration("25m"));
    assert_eq!(Ok(30), parse_duration("30s"));
    assert_eq!(Ok(0), parse_duration("0h"));
    assert_eq!(Ok(7 * 3600), parse_duration("007h"));
    assert_eq!(Ok(123456789 * 60), parse_duration("123456789m"));
}

#[test]
fn parsing_rejects_other_forms() {
    for token in [
        "", "15", "h", "m", "s", "1h30m", "1.5h", "-1h", "+1h", "1 h", " 1h", "1h ", "1H", "1d",
        "h1", "1hh", "1h\n", "bad", "1\u{0663}h", "\u{0661}h", "1h\u{0}",
    ] {
        assert_eq!(invalid(token), parse_duration(token), "token {:?}", token);
    }
}

#[test]
fn parsing_reports_overflow() {
    // 2^64 = 18446744073709551616
    assert_eq!(Ok(u64::MAX), parse_duration("18446744073709551615s"));
    assert_eq!(overflow("18446744073709551616s"), parse_duration("18446744073709551616s"));
    assert_eq!(
        overflow("99999999999999999999999999h"),
        parse_duration("99999999999999999999999999h")
    );
    // the numeral fits, its seconds do not
    assert_eq!(Ok(307445734561825860 * 60), parse_duration("307445734561825860m"));
    assert_eq!(overflow("307445734561825861m"), parse_duration("307445734561825861m"));
    assert_eq!(Ok(5124095576030431 * 3600), parse_duration("5124095576030431h"));
    assert_eq!(overflow("5124095576030432h"), parse_duration("5124095576030432h"));
    // leading zeros add nothing
    assert_eq!(Ok(1), parse_duration("000000000000000000000000000001s"));
}

#[test]
fn matching_one_form() {
    assert_eq!(Ok(Some(25)), match_duration("25m", Unit::Minutes));
    assert_eq!(Ok(None), match_duration("25m", Unit::Hours));
    assert_eq!(Ok(None), match_duration("25m", Unit::Seconds));
    assert_eq!(Ok(None), match_duration("m", Unit::Minutes));
    assert_eq!(Ok(None), match_duration("2x5m", Unit::Minutes));
    assert_eq!(
        Err(ParsingErrorKind::Overflow),
        match_duration("18446744073709551616h", Unit::Hours)
    );
    assert_eq!(Ok(None), match_duration("18446744073709551616h", Unit::Minutes));
}

#[test]
fn no_token_has_two_forms() {
    for token in ["1h", "2m", "3s", "", "15", "hms", "1hm", "1ms", "12h", "0s"] {
        let forms = [Unit::Hours, Unit::Minutes, Unit::Seconds]
            .into_iter()
            .filter(|unit| match_duration(token, *unit) != Ok(None))
            .count();
        assert!(forms <= 1, "token {:?}", token);
        assert_eq!(forms == 1, parse_duration(token).is_ok(), "token {:?}", token);
    }
}

fn tokens(specs: &[&str]) -> Vec<String> {
    specs.iter().map(|spec| spec.to_string()).collect()
}

#[test]
fn accumulating_sums_the_spans() {
    assert_eq!(Ok(5400), accumulate(&tokens(&["1h", "30m"])));
    assert_eq!(Ok(3600 + 25 * 60 + 30), accumulate(&tokens(&["1h", "25m", "30s"])));
    assert_eq!(Ok(30), accumulate(&tokens(&["10s", "10s", "10s"])));
    assert_eq!(Ok(1), accumulate(&tokens(&["1s"])));
}

#[test]
fn accumulating_nothing_gives_zero() {
    assert_eq!(Ok(0), accumulate(&tokens(&[])));
}

#[test]
fn accumulating_names_the_offending_token() {
    let error = accumulate(&tokens(&["1h", "bad"])).expect_err("should fail");
    assert_eq!("bad", error.token);
    assert_eq!(ParsingErrorKind::Invalid, error.kind);
}

#[test]
fn accumulating_fails_at_the_first_offending_token() {
    assert_eq!(invalid("15"), accumulate(&tokens(&["1h", "15", "bad", "1s"])));
    assert_eq!(invalid(""), accumulate(&tokens(&["", "1h"])));
    assert_eq!(
        overflow("18446744073709551616s"),
        accumulate(&tokens(&["1s", "18446744073709551616s", "bad"]))
    );
}

#[test]
fn accumulating_reports_a_total_past_64_bits() {
    assert_eq!(Ok(u64::MAX), accumulate(&tokens(&["18446744073709551614s", "1s"])));
    assert_eq!(overflow("2s"), accumulate(&tokens(&["18446744073709551614s", "2s", "bad"])));
    assert_eq!(
        overflow("18446744073709551615s"),
        accumulate(&tokens(&["1s", "18446744073709551615s"]))
    );
}

#[test]
fn parsing_error_message() {
    let error = parse_duration("bad").expect_err("should fail");
    assert_eq!("a duration parsing error occured", error.message());
}

#[test]
fn parsing_error_reason() {
    let error = parse_duration("15").expect_err("should fail");
    assert_eq!("invalid duration", error.reason());
    let error = parse_duration("18446744073709551616s").expect_err("should fail");
    assert_eq!("duration too long", error.reason());
}

/// The span of a token as three anchored patterns read it.
fn span_by_patterns(token: &str) -> Option<u64> {
    let forms = [(r"^(\d+)h$", 3600u64), (r"^(\d+)m$", 60), (r"^(\d+)s$", 1)];
    let mut span = None;
    for (pattern, per_unit) in forms {
        let pattern = Regex::new(pattern).expect("the pattern is well formed");
        let number = pattern
            .captures(token)
            .and_then(|capture| capture.get(1))
            .and_then(|numeral| numeral.as_str().parse::<u64>().ok());
        if let Some(number) = number {
            assert!(span.is_none(), "token {:?} matches two patterns", token);
            span = number.checked_mul(per_unit);
        }
    }
    span
}

#[test]
fn parsing_agrees_with_the_anchored_patterns() {
    let mut samples: Vec<String> = tokens(&[
        "", "15", "1h", "2h", "25m", "30s", "1h30m", "0s", "00m", "h", "ms", "1.5h", "-1h",
        "+1h", "1 h", "1h ", " 1h", "1H", "1h\n", "\n1h", "1\u{0663}h", "\u{0661}h", "\u{ff11}h",
        "18446744073709551615s", "18446744073709551616s", "307445734561825860m",
        "307445734561825861m", "5124095576030431h", "5124095576030432h",
        "99999999999999999999999999s", "0000000000000000000000000000000000042m",
    ]);
    for number in 0..200u64 {
        for unit in ["h", "m", "s", "", "x", "hh"] {
            samples.push(format!("{}{}", number * 37, unit));
        }
    }
    for token in samples {
        assert_eq!(span_by_patterns(&token), parse_duration(&token).ok(), "token {:?}", token);
    }
}
