use product_config::float::FloatReading;
use product_config::{
    Config, ConfigItem, ConfigOption, ConfigSetting, Datatype, Error, OptionKind, OptionName, Unit,
};

fn some(s: &str) -> Option<String> {
    Some(s.to_string())
}

fn unit(name: &str, regex: Option<&str>) -> Unit {
    Unit { name: name.to_string(), regex: regex.map(|r| r.to_string()) }
}

fn named(names: &[&str], datatype: Datatype) -> ConfigOption {
    ConfigOption {
        option_names: names
            .iter()
            .map(|n| OptionName { name: n.to_string(), kind: OptionKind::Conf })
            .collect(),
        default_value: None,
        datatype,
        allowed_values: None,
        as_of_version: "1.0.0".to_string(),
        deprecated_since: None,
        deprecated_for: None,
        importance: None,
        tags: None,
        additional_doc: None,
        description: None,
    }
}

fn text_of(unit: Option<&str>, min: Option<&str>, max: Option<&str>) -> Datatype {
    Datatype::String {
        min: min.map(|m| m.to_string()),
        max: max.map(|m| m.to_string()),
        unit: unit.map(|u| u.to_string()),
        accepted_units: None,
        default_unit: None,
    }
}

fn integer_of(min: Option<&str>, max: Option<&str>) -> Datatype {
    Datatype::Integer {
        min: min.map(|m| m.to_string()),
        max: max.map(|m| m.to_string()),
        unit: None,
        accepted_units: None,
        default_unit: None,
    }
}

fn build(units: Vec<Unit>, options: Vec<ConfigOption>) -> Result<Config, Error> {
    Config::new(ConfigItem {
        config_settings: ConfigSetting { unit: units },
        config_options: options,
    })
}

fn error_of(units: Vec<Unit>) -> Error {
    match build(units, vec![]) {
        Ok(_) => panic!("the schema was accepted"),
        Err(e) => e,
    }
}

fn unread() -> FloatReading {
    FloatReading { value: None, min: None, max: None, below_min: false, above_max: false }
}

fn check(engine: &Config, option_name: &str, value: &str) -> Result<String, Error> {
    engine.validate("1.0.0", option_name, value, &unread())
}

#[test]
fn empty_schema_builds_an_engine_that_knows_nothing() {
    let engine = build(vec![], vec![]).unwrap();
    assert_eq!(
        check(&engine, "anything", "1"),
        Err(Error::ConfigOptionNotFound { option_name: "anything".to_string() })
    );
}

#[test]
fn unit_without_a_name_fails_the_schema() {
    assert_eq!(
        error_of(vec![unit("", Some("^a$"))]),
        Error::ConfigSettingNotFound { name: "unit".to_string() }
    );
}

#[test]
fn unit_without_a_pattern_fails_the_schema() {
    assert_eq!(
        error_of(vec![unit("memory", None)]),
        Error::EmptyRegexPattern { unit: "memory".to_string() }
    );
}

#[test]
fn unit_with_an_empty_pattern_fails_the_schema() {
    assert_eq!(
        error_of(vec![unit("memory", Some(""))]),
        Error::EmptyRegexPattern { unit: "memory".to_string() }
    );
}

#[test]
fn unit_whose_pattern_does_not_compile_fails_the_schema() {
    assert_eq!(
        error_of(vec![unit("memory", Some("foo(bar"))]),
        Error::InvalidRegexPattern { unit: "memory".to_string(), regex: "foo(bar".to_string() }
    );
}

#[test]
fn nameless_unit_is_reported_before_its_pattern() {
    assert_eq!(
        error_of(vec![unit("", None)]),
        Error::ConfigSettingNotFound { name: "unit".to_string() }
    );
    assert_eq!(
        error_of(vec![unit("", Some("foo(bar"))]),
        Error::ConfigSettingNotFound { name: "unit".to_string() }
    );
}

#[test]
fn first_unit_with_a_defect_decides() {
    assert_eq!(
        error_of(vec![
            unit("fine", Some("^a$")),
            unit("broken", Some("foo(bar")),
            unit("", Some("^a$")),
            unit("empty", None),
        ]),
        Error::InvalidRegexPattern { unit: "broken".to_string(), regex: "foo(bar".to_string() }
    );
    assert_eq!(
        error_of(vec![unit("empty", None), unit("broken", Some("foo(bar"))]),
        Error::EmptyRegexPattern { unit: "empty".to_string() }
    );
}

#[test]
fn defect_of_a_unit_fails_the_schema_whatever_the_options() {
    let options = vec![named(&["a"], Datatype::Bool)];
    assert!(matches!(
        build(vec![unit("broken", Some("["))], options),
        Err(Error::InvalidRegexPattern { .. })
    ));
}

#[test]
fn later_option_takes_a_shared_name() {
    let engine = build(
        vec![],
        vec![
            named(&["shared", "first.only"], integer_of(None, Some("10"))),
            named(&["shared", "second.only"], Datatype::Bool),
        ],
    )
    .unwrap();
    assert_eq!(check(&engine, "shared", "true"), Ok("true".to_string()));
    assert!(matches!(check(&engine, "shared", "5"), Err(Error::DatatypeNotMatching { .. })));
    assert_eq!(check(&engine, "first.only", "5"), Ok("5".to_string()));
    assert_eq!(check(&engine, "second.only", "false"), Ok("false".to_string()));
}

#[test]
fn later_unit_takes_a_shared_name() {
    let engine = build(
        vec![unit("u", Some("^a+$")), unit("u", Some("^b+$"))],
        vec![named(&["o"], text_of(Some("u"), None, None))],
    )
    .unwrap();
    assert_eq!(check(&engine, "o", "bbb"), Ok("bbb".to_string()));
    assert_eq!(
        check(&engine, "o", "aaa"),
        Err(Error::DatatypeRegexNotMatching { option_name: "o".to_string(), value: "aaa".to_string() })
    );
}

#[test]
fn option_named_twice_is_found_once() {
    let engine = build(vec![], vec![named(&["twice", "twice"], Datatype::Bool)]).unwrap();
    assert_eq!(check(&engine, "twice", "true"), Ok("true".to_string()));
}

#[test]
fn text_option_must_name_a_unit() {
    let engine =
        build(vec![unit("u", Some("^a+$"))], vec![named(&["o"], text_of(None, None, None))])
            .unwrap();
    assert_eq!(
        check(&engine, "o", "aaa"),
        Err(Error::UnitNotProvided { option_name: "o".to_string() })
    );
}

#[test]
fn unit_of_a_text_option_must_be_in_the_schema() {
    let engine =
        build(vec![unit("u", Some("^a+$"))], vec![named(&["o"], text_of(Some("v"), None, None))])
            .unwrap();
    assert_eq!(
        check(&engine, "o", "aaa"),
        Err(Error::UnitSettingNotFound { option_name: "o".to_string(), unit: "v".to_string() })
    );
}

#[test]
fn empty_text_value_is_missing() {
    let engine =
        build(vec![unit("u", Some("^a*$"))], vec![named(&["o"], text_of(Some("u"), None, None))])
            .unwrap();
    assert_eq!(
        check(&engine, "o", ""),
        Err(Error::ConfigValueMissing { option_name: "o".to_string() })
    );
}

#[test]
fn text_shorter_than_the_lower_bound_is_out_of_bounds() {
    let engine = build(
        vec![unit("u", Some("^a+$"))],
        vec![named(&["o"], text_of(Some("u"), Some("3"), Some("5")))],
    )
    .unwrap();
    assert_eq!(
        check(&engine, "o", "aa"),
        Err(Error::ConfigValueOutOfBounds {
            option_name: "o".to_string(),
            received: "2".to_string(),
            expected: "3".to_string(),
        })
    );
    assert_eq!(check(&engine, "o", "aaa"), Ok("aaa".to_string()));
    assert_eq!(check(&engine, "o", "aaaaa"), Ok("aaaaa".to_string()));
}

#[test]
fn text_longer_than_the_upper_bound_is_out_of_bounds() {
    let engine = build(
        vec![unit("u", Some("^a+$"))],
        vec![named(&["o"], text_of(Some("u"), Some("3"), Some("5")))],
    )
    .unwrap();
    assert_eq!(
        check(&engine, "o", "aaaaaa"),
        Err(Error::ConfigValueOutOfBounds {
            option_name: "o".to_string(),
            received: "6".to_string(),
            expected: "5".to_string(),
        })
    );
}

#[test]
fn length_of_a_text_counts_characters() {
    let engine = build(
        vec![unit("u", Some("^.+$"))],
        vec![named(&["o"], text_of(Some("u"), None, Some("3")))],
    )
    .unwrap();
    assert_eq!(check(&engine, "o", "äöü"), Ok("äöü".to_string()));
    assert_eq!(
        check(&engine, "o", "äöüß"),
        Err(Error::ConfigValueOutOfBounds {
            option_name: "o".to_string(),
            received: "4".to_string(),
            expected: "3".to_string(),
        })
    );
}

#[test]
fn length_is_checked_before_the_unit() {
    let engine = build(vec![], vec![named(&["o"], text_of(None, Some("3"), None))]).unwrap();
    assert!(matches!(check(&engine, "o", "aa"), Err(Error::ConfigValueOutOfBounds { .. })));
    assert!(matches!(check(&engine, "o", "aaa"), Err(Error::UnitNotProvided { .. })));
}

#[test]
fn bound_of_a_text_must_be_a_length() {
    let engine = build(
        vec![unit("u", Some("^a+$"))],
        vec![named(&["o"], text_of(Some("u"), Some("-1"), None))],
    )
    .unwrap();
    assert_eq!(
        check(&engine, "o", "aaa"),
        Err(Error::DatatypeNotMatching {
            option_name: "o".to_string(),
            value: "-1".to_string(),
            datatype: "usize".to_string(),
        })
    );
}

#[test]
fn bound_of_an_integer_must_be_an_integer() {
    let engine = build(vec![], vec![named(&["o"], integer_of(Some("low"), None))]).unwrap();
    assert_eq!(
        check(&engine, "o", "5"),
        Err(Error::DatatypeNotMatching {
            option_name: "o".to_string(),
            value: "low".to_string(),
            datatype: "i64".to_string(),
        })
    );
    let engine = build(vec![], vec![named(&["o"], integer_of(Some("0"), some("1.5").as_deref()))])
        .unwrap();
    assert_eq!(
        check(&engine, "o", "5"),
        Err(Error::DatatypeNotMatching {
            option_name: "o".to_string(),
            value: "1.5".to_string(),
            datatype: "i64".to_string(),
        })
    );
}

#[test]
fn lower_bound_is_checked_before_the_upper_bound() {
    let engine = build(vec![], vec![named(&["o"], integer_of(Some("10"), Some("5")))]).unwrap();
    assert_eq!(
        check(&engine, "o", "7"),
        Err(Error::ConfigValueOutOfBounds {
            option_name: "o".to_string(),
            received: "7".to_string(),
            expected: "10".to_string(),
        })
    );
}

#[test]
fn integers_are_printed_without_sign_or_leading_zeros() {
    let engine = build(vec![], vec![named(&["o"], integer_of(Some("+007"), Some("0100")))]).unwrap();
    assert_eq!(
        check(&engine, "o", "+5"),
        Err(Error::ConfigValueOutOfBounds {
            option_name: "o".to_string(),
            received: "5".to_string(),
            expected: "7".to_string(),
        })
    );
    assert_eq!(
        check(&engine, "o", "0200"),
        Err(Error::ConfigValueOutOfBounds {
            option_name: "o".to_string(),
            received: "200".to_string(),
            expected: "100".to_string(),
        })
    );
    assert_eq!(check(&engine, "o", "0050"), Ok("0050".to_string()));
}

#[test]
fn integers_reach_to_the_ends_of_their_range() {
    let engine = build(vec![], vec![named(&["o"], integer_of(None, None))]).unwrap();
    assert_eq!(
        check(&engine, "o", "9223372036854775807"),
        Ok("9223372036854775807".to_string())
    );
    assert_eq!(
        check(&engine, "o", "-9223372036854775808"),
        Ok("-9223372036854775808".to_string())
    );
    assert!(matches!(
        check(&engine, "o", "9223372036854775808"),
        Err(Error::DatatypeNotMatching { .. })
    ));
    assert!(matches!(
        check(&engine, "o", "-9223372036854775809"),
        Err(Error::DatatypeNotMatching { .. })
    ));
}

#[test]
fn negative_integers_are_printed_with_their_sign() {
    let engine = build(vec![], vec![named(&["o"], integer_of(Some("-10"), None))]).unwrap();
    assert_eq!(
        check(&engine, "o", "-0011"),
        Err(Error::ConfigValueOutOfBounds {
            option_name: "o".to_string(),
            received: "-11".to_string(),
            expected: "-10".to_string(),
        })
    );
}

#[test]
fn text_that_is_no_integer_is_a_mismatch() {
    let engine = build(vec![], vec![named(&["o"], integer_of(None, None))]).unwrap();
    for value in ["+", "-", " 1", "1 ", "1_000", "0x10", "1.0", "--1", "+-1", "١"] {
        assert_eq!(
            check(&engine, "o", value),
            Err(Error::DatatypeNotMatching {
                option_name: "o".to_string(),
                value: value.to_string(),
                datatype: "i64".to_string(),
            })
        );
    }
}

#[test]
fn empty_integer_value_is_missing() {
    let engine = build(vec![], vec![named(&["o"], integer_of(None, None))]).unwrap();
    assert_eq!(
        check(&engine, "o", ""),
        Err(Error::ConfigValueMissing { option_name: "o".to_string() })
    );
}

#[test]
fn boolean_literals_are_accepted() {
    let engine = build(vec![], vec![named(&["o"], Datatype::Bool)]).unwrap();
    assert_eq!(check(&engine, "o", "true"), Ok("true".to_string()));
    assert_eq!(check(&engine, "o", "false"), Ok("false".to_string()));
}

#[test]
fn anything_but_a_boolean_literal_is_a_mismatch() {
    let engine = build(vec![], vec![named(&["o"], Datatype::Bool)]).unwrap();
    for value in ["True", "FALSE", "1", "yes", " true", "truefalse", ""] {
        assert_eq!(
            check(&engine, "o", value),
            Err(Error::DatatypeNotMatching {
                option_name: "o".to_string(),
                value: value.to_string(),
                datatype: "bool".to_string(),
            })
        );
    }
}

#[test]
fn array_values_pass_unchecked() {
    let engine = build(
        vec![],
        vec![named(
            &["o"],
            Datatype::Array { unit: None, accepted_units: None, default_unit: None },
        )],
    )
    .unwrap();
    assert_eq!(check(&engine, "o", "a,b,c"), Ok("a,b,c".to_string()));
    assert_eq!(check(&engine, "o", ""), Ok("".to_string()));
}

#[test]
fn allowed_values_narrow_an_array() {
    let mut option =
        named(&["o"], Datatype::Array { unit: None, accepted_units: None, default_unit: None });
    option.allowed_values = Some(vec!["a".to_string()]);
    let engine = build(vec![], vec![option]).unwrap();
    assert_eq!(check(&engine, "o", "a"), Ok("a".to_string()));
    assert_eq!(
        check(&engine, "o", "b"),
        Err(Error::ConfigValueNotInAllowedValues {
            option_name: "o".to_string(),
            value: "b".to_string(),
            allowed_values: vec!["a".to_string()],
        })
    );
}

#[test]
fn pattern_need_not_cover_the_whole_value_unless_it_is_anchored() {
    let engine = build(
        vec![unit("loose", Some("[0-9]+")), unit("tight", Some("^[0-9]+$"))],
        vec![
            named(&["l"], text_of(Some("loose"), None, None)),
            named(&["t"], text_of(Some("tight"), None, None)),
        ],
    )
    .unwrap();
    assert_eq!(check(&engine, "l", "ab12cd"), Ok("ab12cd".to_string()));
    assert!(matches!(check(&engine, "t", "ab12cd"), Err(Error::DatatypeRegexNotMatching { .. })));
    assert_eq!(check(&engine, "t", "12"), Ok("12".to_string()));
}
