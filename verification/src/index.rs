use crate::error::ErrorView;
use crate::pattern::regex_compiles;
use crate::schema::{named_among, ConfigOption, OptionName, Unit};
use vstd::prelude::*;

verus! {

/// The place among `options` of the option that `name` resolves to: the last
/// one that goes by that name, so that a later option takes a name from an
/// earlier one.
pub open spec fn resolve_index(options: Seq<ConfigOption>, name: Seq<char>) -> Option<int>
    decreases options.len(),
{
    if options.len() == 0 {
        None
    } else if options.last().goes_by(name) {
        Some(options.len() - 1)
    } else {
        resolve_index(options.drop_last(), name)
    }
}

/// The option that `name` resolves to among `options`.
pub open spec fn resolve_option(options: Seq<ConfigOption>, name: Seq<char>) -> Option<
    ConfigOption,
> {
    match resolve_index(options, name) {
        Some(i) => Some(options[i]),
        None => None,
    }
}

/// The pattern that the unit `name` resolves to among `units`: that of the
/// last unit of that name.
pub open spec fn resolve_unit(units: Seq<Unit>, name: Seq<char>) -> Option<Seq<char>>
    decreases units.len(),
{
    if units.len() == 0 {
        None
    } else if units.last().name@ == name {
        Some(units.last().pattern_text())
    } else {
        resolve_unit(units.drop_last(), name)
    }
}

/// What is wrong with one unit: it has no name, it has no pattern or an empty
/// one, or its pattern is no regular expression.
pub open spec fn unit_defect(unit: Unit) -> Option<ErrorView> {
    if unit.name@.len() == 0 {
        Some(ErrorView::ConfigSettingNotFound { name: "unit"@ })
    } else if unit.regex is None || unit.pattern_text().len() == 0 {
        Some(ErrorView::EmptyRegexPattern { unit: unit.name@ })
    } else if !regex_compiles(unit.pattern_text()) {
        Some(ErrorView::InvalidRegexPattern { unit: unit.name@, regex: unit.pattern_text() })
    } else {
        None
    }
}

/// The defect of the first unit among `units` that has one.
pub open spec fn first_defect(units: Seq<Unit>) -> Option<ErrorView>
    decreases units.len(),
{
    if units.len() == 0 {
        None
    } else {
        match first_defect(units.drop_last()) {
            Some(e) => Some(e),
            None => unit_defect(units.last()),
        }
    }
}

/// A name resolves to a place within the list, and the option there goes by
/// that name.
pub proof fn lemma_resolve_index_in_range(options: Seq<ConfigOption>, name: Seq<char>)
    ensures
        resolve_index(options, name) matches Some(i) ==> 0 <= i < options.len()
            && options[i].goes_by(name),
    decreases options.len(),
{
    if options.len() > 0 && !options.last().goes_by(name) {
        lemma_resolve_index_in_range(options.drop_last(), name);
    }
}

/// One more name is among the names exactly if it was among them before or
/// is the new one.
pub proof fn lemma_named_among_step(names: Seq<OptionName>, j: int, name: Seq<char>)
    requires
        0 <= j < names.len(),
    ensures
        named_among(names.take(j + 1), name) <==> named_among(names.take(j), name)
            || names[j].name@ == name,
{
    let before = names.take(j);
    let after = names.take(j + 1);
    if named_among(after, name) {
        let k = choose|k: int| 0 <= k < after.len() && (#[trigger] after[k]).name@ == name;
        if k < j {
            assert(before[k].name@ == name);
        }
    }
    if named_among(before, name) {
        let k = choose|k: int| 0 <= k < before.len() && (#[trigger] before[k]).name@ == name;
        assert(after[k].name@ == name);
    }
    if names[j].name@ == name {
        assert(after[j].name@ == name);
    }
}

} // verus!
