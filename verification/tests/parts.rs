use product_config::allowed::{check_allowed_values, copy_texts, is_member};
use product_config::float::{check_datatype_float, check_float_bound, FloatReading};
use product_config::version_gate::check_version_supported_or_deprecated;
use product_config::Error;

fn list(items: &[&str]) -> Vec<String> {
    items.iter().map(|s| s.to_string()).collect()
}

#[test]
fn membership_is_by_text() {
    let values = list(&["a", "b", ""]);
    assert!(is_member(&values, &"a".to_string()));
    assert!(is_member(&values, &"".to_string()));
    assert!(!is_member(&values, &"c".to_string()));
    assert!(!is_member(&values, &"A".to_string()));
    assert!(!is_member(&vec![], &"a".to_string()));
}

#[test]
fn copy_keeps_every_text_in_order() {
    let values = list(&["b", "a", "b"]);
    assert_eq!(copy_texts(&values), values);
    assert_eq!(copy_texts(&vec![]), Vec::<String>::new());
}

#[test]
fn option_without_allowed_values_allows_everything() {
    assert_eq!(check_allowed_values("o", "x", &None), Ok(()));
    assert_eq!(check_allowed_values("o", "x", &Some(vec![])), Ok(()));
}

#[test]
fn allowed_values_are_compared_as_they_are_written() {
    let allowed = Some(list(&["1g", "2g"]));
    assert_eq!(check_allowed_values("o", "2g", &allowed), Ok(()));
    assert_eq!(
        check_allowed_values("o", "2G", &allowed),
        Err(Error::ConfigValueNotInAllowedValues {
            option_name: "o".to_string(),
            value: "2G".to_string(),
            allowed_values: list(&["1g", "2g"]),
        })
    );
}

#[test]
fn version_check_passes_from_the_introduction_to_the_deprecation() {
    let deprecated = Some("2.0.0".to_string());
    assert_eq!(check_version_supported_or_deprecated("o", "1.0.0", "1.0.0", &deprecated), Ok(()));
    assert_eq!(check_version_supported_or_deprecated("o", "1.9.9", "1.0.0", &deprecated), Ok(()));
    assert_eq!(
        check_version_supported_or_deprecated("o", "2.0.0-rc.1", "1.0.0", &deprecated),
        Ok(())
    );
    assert_eq!(check_version_supported_or_deprecated("o", "3.0.0", "1.0.0", &None), Ok(()));
}

#[test]
fn version_check_prints_versions_in_full() {
    assert_eq!(
        check_version_supported_or_deprecated("o", "1.0.0-beta.2+build.5", "1.0.0", &None),
        Err(Error::VersionNotSupported {
            option_name: "o".to_string(),
            product_version: "1.0.0-beta.2+build.5".to_string(),
            required_version: "1.0.0".to_string(),
        })
    );
    assert_eq!(
        check_version_supported_or_deprecated(
            "o",
            "2.1.0",
            "1.0.0",
            &Some("2.0.0-alpha".to_string())
        ),
        Err(Error::VersionDeprecated {
            option_name: "o".to_string(),
            product_version: "2.1.0".to_string(),
            deprecated_version: "2.0.0-alpha".to_string(),
        })
    );
}

#[test]
fn version_check_orders_pre_releases() {
    for (earlier, later) in [
        ("1.0.0-alpha", "1.0.0-alpha.1"),
        ("1.0.0-alpha.1", "1.0.0-alpha.beta"),
        ("1.0.0-alpha.beta", "1.0.0-beta"),
        ("1.0.0-beta.2", "1.0.0-beta.11"),
        ("1.0.0-rc.1", "1.0.0"),
        ("1.5.0", "1.19.0"),
        ("0.9.9", "1.0.0"),
    ] {
        assert!(matches!(
            check_version_supported_or_deprecated("o", earlier, later, &None),
            Err(Error::VersionNotSupported { .. })
        ));
        assert_eq!(check_version_supported_or_deprecated("o", later, earlier, &None), Ok(()));
        assert_eq!(check_version_supported_or_deprecated("o", later, later, &None), Ok(()));
    }
}

#[test]
fn product_version_is_read_before_the_version_of_the_option() {
    assert_eq!(
        check_version_supported_or_deprecated("o", "x", "y", &Some("z".to_string())),
        Err(Error::InvalidVersion { version: "x".to_string() })
    );
    assert_eq!(
        check_version_supported_or_deprecated("o", "1.0.0", "y", &Some("z".to_string())),
        Err(Error::InvalidVersion { version: "y".to_string() })
    );
    assert_eq!(
        check_version_supported_or_deprecated("o", "1.0.0", "1.0.0", &Some("z".to_string())),
        Err(Error::InvalidVersion { version: "z".to_string() })
    );
    assert!(matches!(
        check_version_supported_or_deprecated("o", "1.0.0", "2.0.0", &Some("z".to_string())),
        Err(Error::VersionNotSupported { .. })
    ));
}

#[test]
fn float_bound_that_is_not_set_is_kept() {
    let received = "2".to_string();
    assert_eq!(check_float_bound("o", &received, &None, &None, true), Ok(()));
    assert_eq!(check_float_bound("o", &received, &None, &Some("1".to_string()), true), Ok(()));
}

#[test]
fn float_bound_is_judged_from_the_reading() {
    let received = "2".to_string();
    let bound = Some("1.0".to_string());
    let printed = Some("1".to_string());
    assert_eq!(check_float_bound("o", &received, &bound, &printed, false), Ok(()));
    assert_eq!(
        check_float_bound("o", &received, &bound, &printed, true),
        Err(Error::ConfigValueOutOfBounds {
            option_name: "o".to_string(),
            received: "2".to_string(),
            expected: "1".to_string(),
        })
    );
    assert_eq!(
        check_float_bound("o", &received, &bound, &None, true),
        Err(Error::DatatypeNotMatching {
            option_name: "o".to_string(),
            value: "1.0".to_string(),
            datatype: "f64".to_string(),
        })
    );
}

#[test]
fn lower_float_bound_is_judged_before_the_upper_one() {
    let reading = FloatReading {
        value: Some("5".to_string()),
        min: Some("7".to_string()),
        max: Some("3".to_string()),
        below_min: true,
        above_max: true,
    };
    assert_eq!(
        check_datatype_float("o", "5.0", &Some("7".to_string()), &Some("3".to_string()), &reading),
        Err(Error::ConfigValueOutOfBounds {
            option_name: "o".to_string(),
            received: "5".to_string(),
            expected: "7".to_string(),
        })
    );
    assert_eq!(
        check_datatype_float("o", "5.0", &None, &Some("3".to_string()), &reading),
        Err(Error::ConfigValueOutOfBounds {
            option_name: "o".to_string(),
            received: "5".to_string(),
            expected: "3".to_string(),
        })
    );
    assert_eq!(check_datatype_float("o", "5.0", &None, &None, &reading), Ok(()));
}
