use crate::config::Config;
use crate::error::{opt_text, outcome_view, Error, ErrorView};
use crate::float::FloatReading;
use crate::index::{first_defect, resolve_index, resolve_unit};
use crate::pattern::regex_compiles;
use crate::schema::{ConfigOption, Unit};
use crate::version::{version_display, version_parses, version_precedes};
use vstd::prelude::*;

verus! {

/// An accepted value comes back unchanged: where the option is known and no
/// check finds anything, the verdict is the value itself, and a verdict that
/// accepts is never anything but the value.
pub proof fn law_accepted_value_is_unchanged(
    config: Config,
    product_version: Seq<char>,
    option_name: Seq<char>,
    value: Seq<char>,
    reading: FloatReading,
)
    ensures
        config.option_of(option_name) matches Some(option) && config.option_finding(
            option,
            product_version,
            option_name,
            value,
            reading,
        ) is None ==> config.verdict(product_version, option_name, value, reading) == Ok::<
            Seq<char>,
            ErrorView,
        >(value),
        config.verdict(product_version, option_name, value, reading) matches Ok(accepted)
            ==> accepted == value,
{
}

/// Validation has no hidden state: two results of validating the same
/// arguments on the same engine are the same.
pub proof fn law_validation_is_repeatable(
    config: Config,
    product_version: Seq<char>,
    option_name: Seq<char>,
    value: Seq<char>,
    reading: FloatReading,
    first: Result<String, Error>,
    second: Result<String, Error>,
)
    requires
        config.verdict(product_version, option_name, value, reading) == outcome_view(first),
        config.verdict(product_version, option_name, value, reading) == outcome_view(second),
    ensures
        outcome_view(first) == outcome_view(second),
        first is Ok <==> second is Ok,
{
}

/// An option is not supported exactly at the product versions that precede
/// the version it was introduced in: there validation fails with
/// `VersionNotSupported`, whatever the value, and at no other product version
/// does it fail with that error.
pub proof fn law_not_supported_before_introduction(
    config: Config,
    option: ConfigOption,
    product_version: Seq<char>,
    option_name: Seq<char>,
    value: Seq<char>,
    reading: FloatReading,
)
    requires
        config.option_of(option_name) == Some(option),
    ensures
        version_parses(product_version) && version_parses(option.as_of_version@)
            && version_precedes(product_version, option.as_of_version@) ==> config.verdict(
            product_version,
            option_name,
            value,
            reading,
        ) == Err::<Seq<char>, ErrorView>(
            ErrorView::VersionNotSupported {
                option_name,
                product_version: version_display(product_version),
                required_version: version_display(option.as_of_version@),
            },
        ),
        !version_precedes(product_version, option.as_of_version@) ==> !(config.verdict(
            product_version,
            option_name,
            value,
            reading,
        ) matches Err(ErrorView::VersionNotSupported { .. })),
{
}

/// A deprecated option is rejected whatever its value: at a product version
/// that supports the option and does not precede the version it was
/// deprecated in, validation fails with `VersionDeprecated`.
pub proof fn law_deprecated_whatever_the_value(
    config: Config,
    option: ConfigOption,
    deprecated_since: Seq<char>,
    product_version: Seq<char>,
    option_name: Seq<char>,
    value: Seq<char>,
    reading: FloatReading,
)
    requires
        config.option_of(option_name) == Some(option),
        opt_text(option.deprecated_since) == Some(deprecated_since),
        version_parses(product_version),
        version_parses(option.as_of_version@),
        version_parses(deprecated_since),
        !version_precedes(product_version, option.as_of_version@),
        !version_precedes(product_version, deprecated_since),
    ensures
        config.verdict(product_version, option_name, value, reading) == Err::<
            Seq<char>,
            ErrorView,
        >(
            ErrorView::VersionDeprecated {
                option_name,
                product_version: version_display(product_version),
                deprecated_version: version_display(deprecated_since),
            },
        ),
{
}

/// A name that no option goes by is reported before anything else is looked
/// at: the verdict is `ConfigOptionNotFound`, whatever the product version,
/// the value and the reading.
pub proof fn law_unknown_option_comes_first(
    config: Config,
    product_version: Seq<char>,
    option_name: Seq<char>,
    value: Seq<char>,
    reading: FloatReading,
)
    requires
        config.option_of(option_name) is None,
    ensures
        config.verdict(product_version, option_name, value, reading) == Err::<
            Seq<char>,
            ErrorView,
        >(ErrorView::ConfigOptionNotFound { option_name }),
{
}

/// Where several options go by one name, the last of them has it.
pub proof fn law_last_option_wins(options: Seq<ConfigOption>, name: Seq<char>, place: int)
    requires
        0 <= place < options.len(),
        options[place].goes_by(name),
        forall|later: int| place < later < options.len() ==> !(#[trigger] options[later]).goes_by(name),
    ensures
        resolve_index(options, name) == Some(place),
    decreases options.len(),
{
    if place < options.len() - 1 {
        let shorter = options.drop_last();
        assert(!options[options.len() - 1].goes_by(name));
        assert forall|later: int| place < later < shorter.len() implies !(
        #[trigger] shorter[later]).goes_by(name) by {
            assert(shorter[later] == options[later]);
        }
        law_last_option_wins(shorter, name, place);
    }
}

/// A name that no option goes by resolves to nothing.
pub proof fn law_unnamed_resolves_to_nothing(options: Seq<ConfigOption>, name: Seq<char>)
    requires
        forall|place: int| 0 <= place < options.len() ==> !(#[trigger] options[place]).goes_by(name),
    ensures
        resolve_index(options, name) is None,
    decreases options.len(),
{
    if options.len() > 0 {
        let shorter = options.drop_last();
        assert(!options[options.len() - 1].goes_by(name));
        assert forall|place: int| 0 <= place < shorter.len() implies !(
        #[trigger] shorter[place]).goes_by(name) by {
            assert(shorter[place] == options[place]);
        }
        law_unnamed_resolves_to_nothing(shorter, name);
    }
}

/// In a schema whose units have no defect, every unit resolves to a pattern
/// that is not empty and compiles.
pub proof fn law_resolved_pattern_compiles(units: Seq<Unit>, name: Seq<char>)
    requires
        first_defect(units) is None,
    ensures
        resolve_unit(units, name) matches Some(pattern) ==> pattern.len() > 0 && regex_compiles(
            pattern,
        ),
    decreases units.len(),
{
    if units.len() > 0 && units.last().name@ != name {
        law_resolved_pattern_compiles(units.drop_last(), name);
    }
}

} // verus!
