use vstd::prelude::*;

verus! {

/// Why a schema could not be indexed or a value was not accepted.
#[derive(Debug, Clone, PartialEq, Eq)]
pub enum Error {
    /// A unit of the schema has no name.
    ConfigSettingNotFound { name: String },
    /// A unit of the schema has no pattern, or an empty one.
    EmptyRegexPattern { unit: String },
    /// The pattern of a unit is no regular expression.
    InvalidRegexPattern { unit: String, regex: String },
    /// No option of the schema goes by this name.
    ConfigOptionNotFound { option_name: String },
    /// A text that should be a semantic version is none.
    InvalidVersion { version: String },
    /// The option exists only from a later product version on.
    VersionNotSupported { option_name: String, product_version: String, required_version: String },
    /// The option is deprecated at this product version.
    VersionDeprecated { option_name: String, product_version: String, deprecated_version: String },
    /// The value is not among the values that the option allows.
    ConfigValueNotInAllowedValues { option_name: String, value: String, allowed_values: Vec<String> },
    /// The value is empty.
    ConfigValueMissing { option_name: String },
    /// The value lies below the lower or above the upper bound.
    ConfigValueOutOfBounds { option_name: String, received: String, expected: String },
    /// A text option names no unit.
    UnitNotProvided { option_name: String },
    /// The unit of a text option is not in the schema.
    UnitSettingNotFound { option_name: String, unit: String },
    /// The value does not match the pattern of the option's unit.
    DatatypeRegexNotMatching { option_name: String, value: String },
    /// A text could not be read as a value of the named type.
    DatatypeNotMatching { option_name: String, value: String, datatype: String },
}

/// An [`Error`] with every text as a sequence of characters.
pub ghost enum ErrorView {
    ConfigSettingNotFound { name: Seq<char> },
    EmptyRegexPattern { unit: Seq<char> },
    InvalidRegexPattern { unit: Seq<char>, regex: Seq<char> },
    ConfigOptionNotFound { option_name: Seq<char> },
    InvalidVersion { version: Seq<char> },
    VersionNotSupported {
        option_name: Seq<char>,
        product_version: Seq<char>,
        required_version: Seq<char>,
    },
    VersionDeprecated {
        option_name: Seq<char>,
        product_version: Seq<char>,
        deprecated_version: Seq<char>,
    },
    ConfigValueNotInAllowedValues {
        option_name: Seq<char>,
        value: Seq<char>,
        allowed_values: Seq<Seq<char>>,
    },
    ConfigValueMissing { option_name: Seq<char> },
    ConfigValueOutOfBounds { option_name: Seq<char>, received: Seq<char>, expected: Seq<char> },
    UnitNotProvided { option_name: Seq<char> },
    UnitSettingNotFound { option_name: Seq<char>, unit: Seq<char> },
    DatatypeRegexNotMatching { option_name: Seq<char>, value: Seq<char> },
    DatatypeNotMatching { option_name: Seq<char>, value: Seq<char>, datatype: Seq<char> },
}

/// The texts of a list of strings, in order.
pub open spec fn texts(list: Seq<String>) -> Seq<Seq<char>> {
    Seq::new(list.len(), |i: int| list[i]@)
}

/// The text of an optional string.
pub open spec fn opt_text(text: Option<String>) -> Option<Seq<char>> {
    match text {
        Some(t) => Some(t@),
        None => None,
    }
}

impl View for Error {
    type V = ErrorView;

    open spec fn view(&self) -> ErrorView {
        match *self {
            Error::ConfigSettingNotFound { name } => ErrorView::ConfigSettingNotFound { name: name@ },
            Error::EmptyRegexPattern { unit } => ErrorView::EmptyRegexPattern { unit: unit@ },
            Error::InvalidRegexPattern { unit, regex } => ErrorView::InvalidRegexPattern {
                unit: unit@,
                regex: regex@,
            },
            Error::ConfigOptionNotFound { option_name } => ErrorView::ConfigOptionNotFound {
                option_name: option_name@,
            },
            Error::InvalidVersion { version } => ErrorView::InvalidVersion { version: version@ },
            Error::VersionNotSupported {
                option_name,
                product_version,
                required_version,
            } => ErrorView::VersionNotSupported {
                option_name: option_name@,
                product_version: product_version@,
                required_version: required_version@,
            },
            Error::VersionDeprecated {
                option_name,
                product_version,
                deprecated_version,
            } => ErrorView::VersionDeprecated {
                option_name: option_name@,
                product_version: product_version@,
                deprecated_version: deprecated_version@,
            },
            Error::ConfigValueNotInAllowedValues {
                option_name,
                value,
                allowed_values,
            } => ErrorView::ConfigValueNotInAllowedValues {
                option_name: option_name@,
                value: value@,
                allowed_values: texts(allowed_values@),
            },
            Error::ConfigValueMissing { option_name } => ErrorView::ConfigValueMissing {
                option_name: option_name@,
            },
            Error::ConfigValueOutOfBounds {
                option_name,
                received,
                expected,
            } => ErrorView::ConfigValueOutOfBounds {
                option_name: option_name@,
                received: received@,
                expected: expected@,
            },
            Error::UnitNotProvided { option_name } => ErrorView::UnitNotProvided {
                option_name: option_name@,
            },
            Error::UnitSettingNotFound { option_name, unit } => ErrorView::UnitSettingNotFound {
                option_name: option_name@,
                unit: unit@,
            },
            Error::DatatypeRegexNotMatching { option_name, value } => {
                ErrorView::DatatypeRegexNotMatching { option_name: option_name@, value: value@ }
            },
            Error::DatatypeNotMatching {
                option_name,
                value,
                datatype,
            } => ErrorView::DatatypeNotMatching {
                option_name: option_name@,
                value: value@,
                datatype: datatype@,
            },
        }
    }
}

/// Whether a check's result is the given finding: `Ok` where there is none,
/// else the error whose view is that finding.
pub open spec fn reports(outcome: Result<(), Error>, finding: Option<ErrorView>) -> bool {
    match outcome {
        Ok(_) => finding is None,
        Err(e) => finding == Some(e@),
    }
}

/// The result of a validation with every text as a sequence of characters.
pub open spec fn outcome_view(outcome: Result<String, Error>) -> Result<Seq<char>, ErrorView> {
    match outcome {
        Ok(value) => Ok(value@),
        Err(e) => Err(e@),
    }
}

} // verus!
