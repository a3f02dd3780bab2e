use factorio_server::error::ServerError;
use factorio_server::version::Version;
use std::str::FromStr;

#[test]
fn parses_three_parts() {
    let v = Version::parse("1.1.110").unwrap();
    assert_eq!(v, Version::from([1, 1, 110]));
    assert_eq!(v.to_string(), "1.1.110");
}

#[test]
fn from_str_agrees_with_parse() {
    assert_eq!(Version::from_str("0.11.7").unwrap(), Version::from([0, 11, 7]));
    assert_eq!("2.0.0".parse::<Version>().unwrap(), Version::new(2, 0, 0));
}

#[test]
fn newer_major_beats_larger_patch() {
    assert!(Version::parse("2.0.0").unwrap() > Version::parse("1.1.999").unwrap());
    assert!(Version::parse("2.0.0").unwrap().at_least(&Version::parse("1.1.999").unwrap()));
    assert!(!Version::parse("1.1.999").unwrap().at_least(&Version::parse("2.0.0").unwrap()));
}

#[test]
fn order_is_lexicographic() {
    let a = Version::from([1, 2, 3]);
    assert!(a < Version::from([1, 2, 4]));
    assert!(a < Version::from([1, 3, 0]));
    assert!(a < Version::from([2, 0, 0]));
    assert!(a > Version::from([1, 1, 65535]));
    assert!(a >= Version::from([1, 2, 3]));
    assert!(a <= Version::from([1, 2, 3]));
    assert_eq!(a.partial_cmp(&Version::from([1, 2, 3])), Some(std::cmp::Ordering::Equal));
}

#[test]
fn format_round_trips() {
    for text in ["0.0.0", "1.1.110", "65535.65535.65535", "10.200.3000"] {
        assert_eq!(Version::parse(text).unwrap().to_string(), text);
    }
    for triple in [[0, 0, 0], [1, 1, 110], [65535, 0, 9], [7, 70, 700]] {
        let v = Version::from(triple);
        assert_eq!(Version::parse(&v.to_string()).unwrap(), v);
    }
}

#[test]
fn padded_and_signed_parts_parse_but_format_plainly() {
    assert_eq!(Version::parse("01.002.3").unwrap().to_string(), "1.2.3");
    assert_eq!(Version::parse("+1.+2.+3").unwrap().to_string(), "1.2.3");
    assert_eq!(Version::parse("000000000000000000000000001.0.0").unwrap(), Version::from([1, 0, 0]));
}

#[test]
fn wrong_number_of_parts_is_rejected() {
    assert_eq!(
        Version::parse("1.2"),
        Err(ServerError::InvalidVersionFormat("expected 3 parts, got 2".to_string()))
    );
    assert_eq!(
        Version::parse("1.2.3.4"),
        Err(ServerError::InvalidVersionFormat("expected 3 parts, got 4".to_string()))
    );
    assert_eq!(
        Version::parse(""),
        Err(ServerError::InvalidVersionFormat("expected 3 parts, got 1".to_string()))
    );
}

#[test]
fn bad_parts_are_rejected() {
    assert_eq!(
        Version::parse("1.x.3"),
        Err(ServerError::InvalidVersionFormat("invalid version part: x".to_string()))
    );
    assert_eq!(
        Version::parse("1..3"),
        Err(ServerError::InvalidVersionFormat("invalid version part: ".to_string()))
    );
    assert_eq!(
        Version::parse("-1.2.3"),
        Err(ServerError::InvalidVersionFormat("invalid version part: -1".to_string()))
    );
    assert_eq!(
        Version::parse("1.2.+"),
        Err(ServerError::InvalidVersionFormat("invalid version part: +".to_string()))
    );
    assert_eq!(
        Version::parse("1.2.é"),
        Err(ServerError::InvalidVersionFormat("invalid version part: é".to_string()))
    );
}

#[test]
fn part_that_overflows_sixteen_bits_is_rejected() {
    assert_eq!(Version::parse("65535.0.0").unwrap(), Version::from([65535, 0, 0]));
    assert_eq!(
        Version::parse("65536.0.0"),
        Err(ServerError::InvalidVersionFormat("invalid version part: 65536".to_string()))
    );
    assert_eq!(
        Version::parse("0.0.99999999999999999999999999"),
        Err(ServerError::InvalidVersionFormat(
            "invalid version part: 99999999999999999999999999".to_string()
        ))
    );
}

#[test]
fn parse_agrees_with_the_standard_integer_grammar() {
    for part in ["0", "7", "+7", "007", "65535", "65536", "", "+", "-", "-0", " 1", "1 ", "1e3", "٣"] {
        let text = format!("{part}.0.0");
        let expected = part.parse::<u16>().ok().map(|n| Version::from([n, 0, 0]));
        assert_eq!(Version::parse(&text).ok(), expected, "{text}");
    }
}
