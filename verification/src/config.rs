use crate::allowed::{allowed_values_finding, check_allowed_values, opt_texts};
use crate::error::{opt_text, outcome_view, reports, Error, ErrorView};
use crate::float::{check_datatype_float, float_finding, FloatReading};
use crate::index::{
    first_defect, lemma_named_among_step, lemma_resolve_index_in_range, resolve_index,
    resolve_option, resolve_unit, unit_defect,
};
use crate::pattern::{compile_pattern, pattern_is_match, regex_accepts, UnitPattern};
use crate::scalar::{
    bool_finding, bounds_finding, check_bounds, check_datatype_bool, check_datatype_scalar,
    integer_finding, ScalarKind,
};
use crate::schema::{named_among, ConfigItem, ConfigOption, Datatype, Unit};
use crate::version_gate::{check_version_supported_or_deprecated, version_finding};
use vstd::hash_map::StringHashMap;
use vstd::prelude::*;
use vstd::string::StrSliceExecFns;

verus! {

/// The validation engine: the options of a schema, found by each of their
/// names, and the compiled patterns of its units, found by the unit's name.
pub struct Config {
    config_setting_units: StringHashMap<UnitPattern>,
    config_options: StringHashMap<usize>,
    options: Vec<ConfigOption>,
}

impl Config {
    /// Every name leads to an option that the engine holds.
    #[verifier::type_invariant]
    spec fn names_lead_to_options(&self) -> bool {
        forall|name: Seq<char>| #[trigger]
            self.config_options@.contains_key(name) ==> self.config_options@[name]
                < self.options.len()
    }

    /// The option that goes by `name`, if there is one.
    pub closed spec fn option_of(&self, name: Seq<char>) -> Option<ConfigOption> {
        if self.config_options@.contains_key(name) {
            Some(self.options@[self.config_options@[name] as int])
        } else {
            None
        }
    }

    /// The pattern of the unit `unit`, if there is such a unit.
    pub closed spec fn pattern_of(&self, unit: Seq<char>) -> Option<Seq<char>> {
        if self.config_setting_units@.contains_key(unit) {
            Some(self.config_setting_units@[unit]@)
        } else {
            None
        }
    }

    /// Builds the engine from a schema.
    ///
    /// Every option is found by each of its names; where two options share a
    /// name, the later one has it. Every unit must have a name and a pattern
    /// that compiles: the first unit that does not makes the schema fail, and
    /// no engine is built.
    pub fn new(root: ConfigItem) -> (r: Result<Config, Error>)
        ensures
            match r {
                Ok(config) => {
                    &&& first_defect(root.config_settings.unit@) is None
                    &&& forall|name: Seq<char>| #[trigger]
                        config.option_of(name) == resolve_option(root.config_options@, name)
                    &&& forall|unit: Seq<char>| #[trigger]
                        config.pattern_of(unit) == resolve_unit(root.config_settings.unit@, unit)
                },
                Err(e) => first_defect(root.config_settings.unit@) == Some(e@),
            },
    {
        let ConfigItem { config_settings, config_options: options } = root;
        let config_options = Self::index_names(&options);
        let config_setting_units = match Self::compile_units(&config_settings.unit) {
            Ok(units) => units,
            Err(e) => {
                return Err(e);
            },
        };
        proof {
            assert forall|name: Seq<char>| #[trigger]
                config_options@.contains_key(name) implies config_options@[name]
                < options.len() by {
                lemma_resolve_index_in_range(options@, name);
            }
        }
        Ok(Config { config_setting_units, config_options, options })
    }

    /// What the check of a text option finds for `value`: it must not be
    /// empty, its length in characters must lie within the bounds that are
    /// set, the option must name a unit that the schema has, and the value
    /// must match that unit's pattern.
    pub open spec fn text_finding(
        &self,
        option_name: Seq<char>,
        value: Seq<char>,
        min: Option<Seq<char>>,
        max: Option<Seq<char>>,
        unit: Option<Seq<char>>,
    ) -> Option<ErrorView> {
        if value.len() == 0 {
            Some(ErrorView::ConfigValueMissing { option_name })
        } else {
            match bounds_finding(ScalarKind::Length, option_name, value.len() as int, min, max) {
                Some(e) => Some(e),
                None => match unit {
                    None => Some(ErrorView::UnitNotProvided { option_name }),
                    Some(unit) => match self.pattern_of(unit) {
                        None => Some(ErrorView::UnitSettingNotFound { option_name, unit }),
                        Some(pattern) => if regex_accepts(pattern, value) {
                            None
                        } else {
                            Some(ErrorView::DatatypeRegexNotMatching { option_name, value })
                        },
                    },
                },
            }
        }
    }

    /// What the check of `value` against `datatype` finds. A float is judged
    /// from `reading`; an array is not checked.
    pub open spec fn datatype_finding(
        &self,
        option_name: Seq<char>,
        value: Seq<char>,
        datatype: Datatype,
        reading: FloatReading,
    ) -> Option<ErrorView> {
        match datatype {
            Datatype::Bool => bool_finding(option_name, value),
            Datatype::Integer { min, max, .. } => integer_finding(
                option_name,
                value,
                opt_text(min),
                opt_text(max),
            ),
            Datatype::Float { min, max, .. } => float_finding(
                option_name,
                value,
                opt_text(min),
                opt_text(max),
                reading,
            ),
            Datatype::String { min, max, unit, .. } => self.text_finding(
                option_name,
                value,
                opt_text(min),
                opt_text(max),
                opt_text(unit),
            ),
            Datatype::Array { .. } => None,
        }
    }

    /// What the checks after the lookup find for `option`: the version gate
    /// first, then the datatype, then the allowed values.
    pub open spec fn option_finding(
        &self,
        option: ConfigOption,
        product_version: Seq<char>,
        option_name: Seq<char>,
        value: Seq<char>,
        reading: FloatReading,
    ) -> Option<ErrorView> {
        match version_finding(
            option_name,
            product_version,
            option.as_of_version@,
            opt_text(option.deprecated_since),
        ) {
            Some(e) => Some(e),
            None => match self.datatype_finding(option_name, value, option.datatype, reading) {
                Some(e) => Some(e),
                None => allowed_values_finding(
                    option_name,
                    value,
                    opt_texts(option.allowed_values),
                ),
            },
        }
    }

    /// What validating `value` for the option `option_name` at
    /// `product_version` gives: the value itself, or the finding of the first
    /// check that fails.
    pub open spec fn verdict(
        &self,
        product_version: Seq<char>,
        option_name: Seq<char>,
        value: Seq<char>,
        reading: FloatReading,
    ) -> Result<Seq<char>, ErrorView> {
        match self.option_of(option_name) {
            None => Err(ErrorView::ConfigOptionNotFound { option_name }),
            Some(option) => match self.option_finding(
                option,
                product_version,
                option_name,
                value,
                reading,
            ) {
                Some(e) => Err(e),
                None => Ok(value),
            },
        }
    }

    /// Validates `option_value` for the option that goes by `option_name`,
    /// at the product version `product_version`, and hands the value back
    /// unchanged where nothing is found.
    ///
    /// The checks run in a fixed order and the first that fails decides: the
    /// lookup of the name, the version gate, the datatype, the allowed
    /// values. Where the option is a float, `float_reading` says what reading
    /// the value and the option's bounds as floats gave; for any other option
    /// it is not looked at.
    pub fn validate(
        &self,
        product_version: &str,
        option_name: &str,
        option_value: &str,
        float_reading: &FloatReading,
    ) -> (r: Result<String, Error>)
        ensures
            self.verdict(product_version@, option_name@, option_value@, *float_reading)
                == outcome_view(r),
            r matches Ok(value) ==> value@ == option_value@,
    {
        proof {
            use_type_invariant(self);
        }
        let place: usize = match self.config_options.get(option_name) {
            Some(place) => *place,
            None => {
                return Err(Error::ConfigOptionNotFound { option_name: option_name.to_owned() });
            },
        };
        let option = &self.options[place];
        match check_version_supported_or_deprecated(
            option_name,
            product_version,
            option.as_of_version.as_str(),
            &option.deprecated_since,
        ) {
            Ok(_) => {},
            Err(e) => {
                return Err(e);
            },
        }
        match self.check_datatype(option_name, option_value, &option.datatype, float_reading) {
            Ok(_) => {},
            Err(e) => {
                return Err(e);
            },
        }
        match check_allowed_values(option_name, option_value, &option.allowed_values) {
            Ok(_) => {},
            Err(e) => {
                return Err(e);
            },
        }
        Ok(option_value.to_owned())
    }

    /// The bounds of the float option that goes by `option_name`, as the
    /// schema writes them; `None` where no option goes by that name or the
    /// option is no float. A caller reads the value and these bounds as floats
    /// to make the reading that [`Config::validate`] asks for.
    pub fn float_bounds(&self, option_name: &str) -> (r: Option<
        (&Option<String>, &Option<String>),
    >)
        ensures
            r == match self.option_of(option_name@) {
                Some(option) => match option.datatype {
                    Datatype::Float { min, max, .. } => Some((&min, &max)),
                    _ => None,
                },
                None => None,
            },
    {
        proof {
            use_type_invariant(self);
        }
        match self.config_options.get(option_name) {
            None => None,
            Some(place) => match &self.options[*place].datatype {
                Datatype::Float { min, max, .. } => Some((min, max)),
                _ => None,
            },
        }
    }

    /// Checks `option_value` against the datatype of an option.
    pub fn check_datatype(
        &self,
        option_name: &str,
        option_value: &str,
        datatype: &Datatype,
        float_reading: &FloatReading,
    ) -> (r: Result<(), Error>)
        ensures
            reports(
                r,
                self.datatype_finding(option_name@, option_value@, *datatype, *float_reading),
            ),
    {
        match datatype {
            Datatype::Bool => match check_datatype_bool(option_name, option_value) {
                Ok(_) => Ok(()),
                Err(e) => Err(e),
            },
            Datatype::Integer { min, max, .. } => match check_datatype_scalar(
                option_name,
                option_value,
                min,
                max,
            ) {
                Ok(_) => Ok(()),
                Err(e) => Err(e),
            },
            Datatype::Float { min, max, .. } => check_datatype_float(
                option_name,
                option_value,
                min,
                max,
                float_reading,
            ),
            Datatype::String { min, max, unit, .. } => match self.check_datatype_string(
                option_name,
                option_value,
                min,
                max,
                unit,
            ) {
                Ok(_) => Ok(()),
                Err(e) => Err(e),
            },
            Datatype::Array { .. } => Ok(()),
        }
    }

    /// Checks the value of a text option, and hands it back where nothing is
    /// found.
    pub fn check_datatype_string(
        &self,
        option_name: &str,
        option_value: &str,
        min: &Option<String>,
        max: &Option<String>,
        unit: &Option<String>,
    ) -> (r: Result<String, Error>)
        ensures
            match r {
                Ok(value) => value@ == option_value@ && self.text_finding(
                    option_name@,
                    option_value@,
                    opt_text(*min),
                    opt_text(*max),
                    opt_text(*unit),
                ) is None,
                Err(e) => Some(e@) == self.text_finding(
                    option_name@,
                    option_value@,
                    opt_text(*min),
                    opt_text(*max),
                    opt_text(*unit),
                ),
            },
    {
        if option_value.is_empty() {
            return Err(Error::ConfigValueMissing { option_name: option_name.to_owned() });
        }
        let len: usize = option_value.unicode_len();
        match check_bounds(ScalarKind::Length, option_name, len as i128, min, max) {
            Ok(_) => {},
            Err(e) => {
                return Err(e);
            },
        }
        let unit = match unit {
            Some(unit) => unit,
            None => {
                return Err(Error::UnitNotProvided { option_name: option_name.to_owned() });
            },
        };
        match self.config_setting_units.get(unit.as_str()) {
            None => Err(
                Error::UnitSettingNotFound {
                    option_name: option_name.to_owned(),
                    unit: unit.clone(),
                },
            ),
            Some(pattern) => if pattern_is_match(pattern, option_value) {
                Ok(option_value.to_owned())
            } else {
                Err(
                    Error::DatatypeRegexNotMatching {
                        option_name: option_name.to_owned(),
                        value: option_value.to_owned(),
                    },
                )
            },
        }
    }

    /// Maps every name of every option to the option's place in the list.
    fn index_names(options: &Vec<ConfigOption>) -> (names: StringHashMap<usize>)
        ensures
            forall|name: Seq<char>|
                #![trigger names@.contains_key(name)]
                #![trigger names@[name]]
                {
                    &&& names@.contains_key(name) <==> resolve_index(options@, name) is Some
                    &&& names@.contains_key(name) ==> resolve_index(options@, name) == Some(
                        names@[name] as int,
                    )
                },
    {
        let mut names: StringHashMap<usize> = StringHashMap::new();
        let mut i: usize = 0;
        while i < options.len()
            invariant
                i <= options.len(),
                forall|name: Seq<char>|
                    #![trigger names@.contains_key(name)]
                    #![trigger names@[name]]
                    {
                        &&& names@.contains_key(name) <==> resolve_index(
                            options@.take(i as int),
                            name,
                        ) is Some
                        &&& names@.contains_key(name) ==> resolve_index(
                            options@.take(i as int),
                            name,
                        ) == Some(names@[name] as int)
                    },
            decreases options.len() - i,
        {
            let option = &options[i];
            let ghost before = options@.take(i as int);
            let ghost aliases = option.option_names@;
            let mut j: usize = 0;
            while j < option.option_names.len()
                invariant
                    i < options.len(),
                    option == &options[i as int],
                    aliases == option.option_names@,
                    before == options@.take(i as int),
                    j <= option.option_names.len(),
                    forall|name: Seq<char>|
                        #![trigger names@.contains_key(name)]
                        #![trigger names@[name]]
                        {
                            &&& names@.contains_key(name) <==> (named_among(
                                aliases.take(j as int),
                                name,
                            ) || resolve_index(before, name) is Some)
                            &&& names@.contains_key(name) ==> names@[name] as int == (
                            if named_among(aliases.take(j as int), name) {
                                i as int
                            } else {
                                resolve_index(before, name).unwrap()
                            })
                        },
                decreases option.option_names.len() - j,
            {
                let alias = option.option_names[j].name.clone();
                let ghost earlier = names@;
                names.insert(alias, i);
                j = j + 1;
                proof {
                    assert forall|name: Seq<char>|
                        #![trigger names@.contains_key(name)]
                        #![trigger names@[name]]
                        {
                            &&& names@.contains_key(name) <==> (named_among(
                                aliases.take(j as int),
                                name,
                            ) || resolve_index(before, name) is Some)
                            &&& names@.contains_key(name) ==> names@[name] as int == (
                            if named_among(aliases.take(j as int), name) {
                                i as int
                            } else {
                                resolve_index(before, name).unwrap()
                            })
                        } by {
                        lemma_named_among_step(aliases, j - 1, name);
                        assert(earlier.contains_key(name) ==> earlier[name] as int == (
                        if named_among(aliases.take(j - 1), name) {
                            i as int
                        } else {
                            resolve_index(before, name).unwrap()
                        }));
                    }
                }
            }
            proof {
                let after = options@.take(i + 1);
                assert(aliases.take(j as int) == aliases);
                assert(after.drop_last() == before);
                assert(after.last() == options@[i as int]);
            }
            i = i + 1;
        }
        proof {
            assert(options@.take(i as int) == options@);
        }
        names
    }

    /// Compiles the pattern of every unit, and stops at the first unit that
    /// has a defect.
    fn compile_units(units: &Vec<Unit>) -> (r: Result<StringHashMap<UnitPattern>, Error>)
        ensures
            match r {
                Ok(table) => {
                    &&& first_defect(units@) is None
                    &&& forall|name: Seq<char>|
                        #![trigger table@.contains_key(name)]
                        #![trigger table@[name]]
                        {
                            &&& table@.contains_key(name) <==> resolve_unit(units@, name) is Some
                            &&& table@.contains_key(name) ==> resolve_unit(units@, name) == Some(
                                table@[name]@,
                            )
                        }
                },
                Err(e) => first_defect(units@) == Some(e@),
            },
    {
        let mut table: StringHashMap<UnitPattern> = StringHashMap::new();
        let mut i: usize = 0;
        while i < units.len()
            invariant
                i <= units.len(),
                first_defect(units@.take(i as int)) is None,
                forall|name: Seq<char>|
                    #![trigger table@.contains_key(name)]
                    #![trigger table@[name]]
                    {
                        &&& table@.contains_key(name) <==> resolve_unit(
                            units@.take(i as int),
                            name,
                        ) is Some
                        &&& table@.contains_key(name) ==> resolve_unit(
                            units@.take(i as int),
                            name,
                        ) == Some(table@[name]@)
                    },
            decreases units.len() - i,
        {
            let unit = &units[i];
            proof {
                let after = units@.take(i + 1);
                assert(after.drop_last() == units@.take(i as int));
                assert(after.last() == units@[i as int]);
                Self::lemma_defect_found(units@, i as int);
            }
            if unit.name.as_str().is_empty() {
                return Err(Error::ConfigSettingNotFound { name: "unit".to_owned() });
            }
            let text = match &unit.regex {
                Some(text) => text,
                None => {
                    return Err(Error::EmptyRegexPattern { unit: unit.name.clone() });
                },
            };
            if text.as_str().is_empty() {
                return Err(Error::EmptyRegexPattern { unit: unit.name.clone() });
            }
            let pattern = match compile_pattern(text.as_str()) {
                Some(pattern) => pattern,
                None => {
                    return Err(
                        Error::InvalidRegexPattern { unit: unit.name.clone(), regex: text.clone() },
                    );
                },
            };
            table.insert(unit.name.clone(), pattern);
            i = i + 1;
        }
        proof {
            assert(units@.take(i as int) == units@);
        }
        Ok(table)
    }

    /// Where the units before a place have no defect and the unit at that
    /// place has one, that defect is the first of the whole list.
    proof fn lemma_defect_found(units: Seq<Unit>, i: int)
        requires
            0 <= i < units.len(),
            first_defect(units.take(i)) is None,
        ensures
            unit_defect(units[i]) is Some ==> first_defect(units) == unit_defect(units[i]),
    {
        assert(units.take(i + 1).drop_last() == units.take(i));
        if unit_defect(units[i]) is Some {
            Self::lemma_first_defect_stays(units, i + 1);
        }
    }

    /// A defect among the first units of a list is the first defect of the
    /// whole list.
    proof fn lemma_first_defect_stays(units: Seq<Unit>, n: int)
        requires
            0 <= n <= units.len(),
            first_defect(units.take(n)) is Some,
        ensures
            first_defect(units) == first_defect(units.take(n)),
        decreases units.len() - n,
    {
        if n == units.len() {
            assert(units.take(n) == units);
        } else {
            assert(units.take(n + 1).drop_last() == units.take(n));
            Self::lemma_first_defect_stays(units, n + 1);
        }
    }
}

} // verus!
