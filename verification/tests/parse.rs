use redditing_buddy::utils::is_ron_config_name;
use redditing_buddy::utils::parse_duration;
use redditing_buddy::utils::Span;

#[test]
fn parse_failures() {
    let wrong = vec!["ns", "-1s", "s20ms", "20msns"];
    wrong.iter().for_each(|x| {
        assert!(
            parse_duration(x).is_err(),
            "{}",
            format!("Should be error, but got: {}", x)
        )
    });
}

#[test]
fn parse_nano() {
    let a = vec!["2ns", "20ns", "0ns"];
    let b = vec![
        Span::from_nanos(2),
        Span::from_nanos(20),
        Span::from_nanos(0),
    ];

    a.iter()
        .zip(b.iter())
        .for_each(|(x, y)| assert_eq!(parse_duration(x).unwrap(), *y));
}

#[test]
fn parse_micro() {
    let a = vec!["2μs", "20μs", "0μs"];
    let b = vec![
        Span::from_micros(2),
        Span::from_micros(20),
        Span::from_micros(0),
    ];

    a.iter()
        .zip(b.iter())
        .for_each(|(x, y)| assert_eq!(parse_duration(x).unwrap(), *y));
}

#[test]
fn parse_millis() {
    let a = vec!["4ms", "40ms", "0ms"];
    let b = vec![
        Span::from_millis(4),
        Span::from_millis(40),
        Span::from_millis(0),
    ];

    a.iter()
        .zip(b.iter())
        .for_each(|(x, y)| assert_eq!(parse_duration(x).unwrap(), *y));
}

#[test]
fn parse_secs() {
    let a = vec!["5s", "50s", "0s"];
    let b = vec![
        Span::from_secs(5),
        Span::from_secs(50),
        Span::from_secs(0),
    ];

    a.iter()
        .zip(b.iter())
        .for_each(|(x, y)| assert_eq!(parse_duration(x).unwrap(), *y));
}

#[test]
fn parse_trims_whitespace() {
    assert_eq!(parse_duration("  600s\t").unwrap(), Span::from_secs(600));
    assert!(parse_duration("   ").is_err());
}

#[test]
fn parse_rejects_oversized_number() {
    assert!(parse_duration("99999999999999999999s").is_err());
    assert_eq!(
        parse_duration("18446744073709551615s").unwrap(),
        Span::from_secs(u64::MAX)
    );
}

#[test]
fn parse_error_message_names_the_shape() {
    let e = parse_duration("twenty seconds").unwrap_err();
    assert_eq!(
        e.message(),
        "String did not match expected shape of <number><metric>."
    );
}

#[test]
fn span_constructors_carry_over_seconds() {
    assert_eq!(
        Span::from_millis(1500),
        Span {
            secs: 1,
            nanos: 500_000_000
        }
    );
    assert_eq!(
        Span::from_micros(2_000_001),
        Span { secs: 2, nanos: 1000 }
    );
    assert_eq!(
        Span::from_nanos(3_000_000_002),
        Span { secs: 3, nanos: 2 }
    );
}

#[test]
fn ron_config_names() {
    assert!(is_ron_config_name("config.ron"));
    assert!(is_ron_config_name("some/dir/a.ron"));
    assert!(!is_ron_config_name("config"));
    assert!(!is_ron_config_name("config.json"));
    assert!(!is_ron_config_name(".ron"));
    assert!(!is_ron_config_name("dir/.ron"));
}
