use vstd::prelude::*;

verus! {

/// The root of a schema: its settings and the options it declares.
#[derive(Debug)]
pub struct ConfigItem {
    pub config_settings: ConfigSetting,
    pub config_options: Vec<ConfigOption>,
}

/// The settings of a schema: the units that text options may name.
#[derive(Debug)]
pub struct ConfigSetting {
    pub unit: Vec<Unit>,
}

/// One option: the names it goes by, the type of its values and the product
/// versions in which it exists. The defaults, the names that replace a
/// deprecated option, the importance, the tags and the documentation are
/// carried along; the engine enforces nothing about them.
#[derive(Clone, Debug)]
pub struct ConfigOption {
    pub option_names: Vec<OptionName>,
    pub default_value: Option<Vec<DefaultValue>>,
    pub datatype: Datatype,
    pub allowed_values: Option<Vec<String>>,
    pub as_of_version: String,
    pub deprecated_since: Option<String>,
    pub deprecated_for: Option<Vec<Vec<OptionName>>>,
    pub importance: Option<Importance>,
    pub tags: Option<Vec<String>>,
    pub additional_doc: Option<Vec<String>>,
    pub description: Option<String>,
}

/// A unit: a name for a pattern that the values of a text option must match.
#[derive(Debug)]
pub struct Unit {
    pub name: String,
    pub regex: Option<String>,
}

/// One of the names of an option, and where that name is used.
#[derive(Clone, Debug)]
pub struct OptionName {
    pub name: String,
    pub kind: OptionKind,
}

/// Where a name of an option is used.
#[derive(Clone, Copy, Debug, PartialEq, Eq)]
pub enum OptionKind {
    /// A property of a configuration file.
    Conf,
    /// An environment variable.
    Env,
    /// A flag of the command line.
    Cli,
}

/// A default of an option and the product versions for which it holds. The
/// engine carries defaults along and enforces nothing about them.
#[derive(Clone, Debug)]
pub struct DefaultValue {
    pub from_version: Option<String>,
    pub to_version: Option<String>,
    pub value: String,
}

/// The type of an option's values, with the bounds and the unit that go with
/// it.
#[derive(Clone, Debug)]
pub enum Datatype {
    Bool,
    Integer {
        min: Option<String>,
        max: Option<String>,
        unit: Option<String>,
        accepted_units: Option<Vec<String>>,
        default_unit: Option<String>,
    },
    Float {
        min: Option<String>,
        max: Option<String>,
        unit: Option<String>,
        accepted_units: Option<Vec<String>>,
        default_unit: Option<String>,
    },
    String {
        min: Option<String>,
        max: Option<String>,
        unit: Option<String>,
        accepted_units: Option<Vec<String>>,
        default_unit: Option<String>,
    },
    Array {
        unit: Option<String>,
        accepted_units: Option<Vec<String>>,
        default_unit: Option<String>,
    },
}

/// Whether an option must be set.
#[derive(Clone, Copy, Debug, PartialEq, Eq)]
pub enum Importance {
    Optional,
    Required,
}

/// Whether one of `names` is `name`.
pub open spec fn named_among(names: Seq<OptionName>, name: Seq<char>) -> bool {
    exists|k: int| 0 <= k < names.len() && (#[trigger] names[k]).name@ == name
}

impl ConfigOption {
    /// Whether one of the option's names is `name`.
    pub open spec fn goes_by(&self, name: Seq<char>) -> bool {
        named_among(self.option_names@, name)
    }
}

impl Unit {
    /// The text of the unit's pattern; empty where it has none.
    pub open spec fn pattern_text(&self) -> Seq<char> {
        match self.regex {
            Some(regex) => regex@,
            None => Seq::empty(),
        }
    }
}

} // verus!
