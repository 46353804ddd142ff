use crate::decimal::{
    bool_value, decimal_text, integer_to_string, integer_value, length_value, parse_bool,
    parse_i64, parse_usize,
};
use crate::error::{opt_text, reports, Error, ErrorView};
use vstd::prelude::*;

verus! {

/// The kinds of whole number that a text is read as: the value of an integer
/// option, or a length that bounds a text option.
#[derive(Clone, Copy, Debug)]
pub enum ScalarKind {
    Integer,
    Length,
}

/// The two sides on which a bound can lie.
#[derive(Clone, Copy, Debug)]
pub enum BoundSide {
    Lower,
    Upper,
}

impl ScalarKind {
    /// The name under which a failure to read a text as this kind is
    /// reported.
    pub open spec fn kind_name(self) -> Seq<char> {
        match self {
            ScalarKind::Integer => "i64"@,
            ScalarKind::Length => "usize"@,
        }
    }

    /// The number that `text` writes, where it is one of this kind.
    pub open spec fn value_of(self, text: Seq<char>) -> Option<int> {
        match self {
            ScalarKind::Integer => integer_value(text),
            ScalarKind::Length => length_value(text),
        }
    }
}

impl BoundSide {
    /// Whether `value` lies beyond `limit` on this side.
    pub open spec fn violated_by(self, value: int, limit: int) -> bool {
        match self {
            BoundSide::Lower => value < limit,
            BoundSide::Upper => value > limit,
        }
    }
}

/// What reading `text` as a number of `kind` finds.
pub open spec fn parse_finding(kind: ScalarKind, option_name: Seq<char>, text: Seq<char>) -> Option<
    ErrorView,
> {
    if kind.value_of(text) is None {
        Some(
            ErrorView::DatatypeNotMatching {
                option_name,
                value: text,
                datatype: kind.kind_name(),
            },
        )
    } else {
        None
    }
}

/// What holding `value` against one bound finds. A bound that is not set
/// finds nothing; one that is set must itself be a number of `kind`.
pub open spec fn bound_finding(
    kind: ScalarKind,
    option_name: Seq<char>,
    value: int,
    bound: Option<Seq<char>>,
    side: BoundSide,
) -> Option<ErrorView> {
    match bound {
        None => None,
        Some(text) => match kind.value_of(text) {
            None => parse_finding(kind, option_name, text),
            Some(limit) => if side.violated_by(value, limit) {
                Some(
                    ErrorView::ConfigValueOutOfBounds {
                        option_name,
                        received: decimal_text(value),
                        expected: decimal_text(limit),
                    },
                )
            } else {
                None
            },
        },
    }
}

/// What holding `value` against a lower and then an upper bound finds.
pub open spec fn bounds_finding(
    kind: ScalarKind,
    option_name: Seq<char>,
    value: int,
    min: Option<Seq<char>>,
    max: Option<Seq<char>>,
) -> Option<ErrorView> {
    match bound_finding(kind, option_name, value, min, BoundSide::Lower) {
        Some(e) => Some(e),
        None => bound_finding(kind, option_name, value, max, BoundSide::Upper),
    }
}

/// What the check of an integer option finds for `value`: it must not be
/// empty, must be an `i64`, and must lie within the bounds that are set.
pub open spec fn integer_finding(
    option_name: Seq<char>,
    value: Seq<char>,
    min: Option<Seq<char>>,
    max: Option<Seq<char>>,
) -> Option<ErrorView> {
    if value.len() == 0 {
        Some(ErrorView::ConfigValueMissing { option_name })
    } else {
        match integer_value(value) {
            None => parse_finding(ScalarKind::Integer, option_name, value),
            Some(v) => bounds_finding(ScalarKind::Integer, option_name, v, min, max),
        }
    }
}

/// What the check of a boolean option finds for `value`.
pub open spec fn bool_finding(option_name: Seq<char>, value: Seq<char>) -> Option<ErrorView> {
    if bool_value(value) is None {
        Some(ErrorView::DatatypeNotMatching { option_name, value, datatype: "bool"@ })
    } else {
        None
    }
}

/// Whether `val` lies below `min`.
pub fn min_bound(val: i128, min: i128) -> (b: bool)
    ensures
        b == BoundSide::Lower.violated_by(val as int, min as int),
{
    val < min
}

/// Whether `val` lies above `max`.
pub fn max_bound(val: i128, max: i128) -> (b: bool)
    ensures
        b == BoundSide::Upper.violated_by(val as int, max as int),
{
    val > max
}

/// Reads `to_parse` as a number of `kind`.
pub fn parse(kind: ScalarKind, option_name: &str, to_parse: &str) -> (r: Result<i128, Error>)
    ensures
        match r {
            Ok(v) => kind.value_of(to_parse@) == Some(v as int),
            Err(e) => Some(e@) == parse_finding(kind, option_name@, to_parse@),
        },
{
    let parsed: Option<i128> = match kind {
        ScalarKind::Integer => match parse_i64(to_parse) {
            Some(v) => Some(v as i128),
            None => None,
        },
        ScalarKind::Length => match parse_usize(to_parse) {
            Some(v) => Some(v as i128),
            None => None,
        },
    };
    match parsed {
        Some(v) => Ok(v),
        None => {
            let datatype = match kind {
                ScalarKind::Integer => "i64".to_owned(),
                ScalarKind::Length => "usize".to_owned(),
            };
            Err(
                Error::DatatypeNotMatching {
                    option_name: option_name.to_owned(),
                    value: to_parse.to_owned(),
                    datatype,
                },
            )
        },
    }
}

/// Holds `value` against one bound, and hands it back where the bound is
/// kept or not set.
pub fn check_bound(
    kind: ScalarKind,
    option_name: &str,
    value: i128,
    bound: &Option<String>,
    side: BoundSide,
) -> (r: Result<i128, Error>)
    ensures
        match r {
            Ok(v) => v == value && bound_finding(
                kind,
                option_name@,
                value as int,
                opt_text(*bound),
                side,
            ) is None,
            Err(e) => Some(e@) == bound_finding(
                kind,
                option_name@,
                value as int,
                opt_text(*bound),
                side,
            ),
        },
{
    match bound {
        None => Ok(value),
        Some(text) => {
            let limit = match parse(kind, option_name, text.as_str()) {
                Ok(limit) => limit,
                Err(e) => {
                    return Err(e);
                },
            };
            let violated = match side {
                BoundSide::Lower => min_bound(value, limit),
                BoundSide::Upper => max_bound(value, limit),
            };
            if violated {
                Err(
                    Error::ConfigValueOutOfBounds {
                        option_name: option_name.to_owned(),
                        received: integer_to_string(value),
                        expected: integer_to_string(limit),
                    },
                )
            } else {
                Ok(value)
            }
        },
    }
}

/// Holds `value` against the lower and then the upper bound.
pub fn check_bounds(
    kind: ScalarKind,
    option_name: &str,
    value: i128,
    min: &Option<String>,
    max: &Option<String>,
) -> (r: Result<(), Error>)
    ensures
        reports(
            r,
            bounds_finding(kind, option_name@, value as int, opt_text(*min), opt_text(*max)),
        ),
{
    match check_bound(kind, option_name, value, min, BoundSide::Lower) {
        Ok(_) => {},
        Err(e) => {
            return Err(e);
        },
    }
    match check_bound(kind, option_name, value, max, BoundSide::Upper) {
        Ok(_) => Ok(()),
        Err(e) => Err(e),
    }
}

/// Checks the value of an integer option, and hands back the number it
/// writes.
pub fn check_datatype_scalar(
    option_name: &str,
    option_value: &str,
    min: &Option<String>,
    max: &Option<String>,
) -> (r: Result<i64, Error>)
    ensures
        match r {
            Ok(v) => integer_value(option_value@) == Some(v as int) && integer_finding(
                option_name@,
                option_value@,
                opt_text(*min),
                opt_text(*max),
            ) is None,
            Err(e) => Some(e@) == integer_finding(
                option_name@,
                option_value@,
                opt_text(*min),
                opt_text(*max),
            ),
        },
{
    if option_value.is_empty() {
        return Err(Error::ConfigValueMissing { option_name: option_name.to_owned() });
    }
    let val: i64 = match parse_i64(option_value) {
        Some(v) => v,
        None => {
            return Err(
                Error::DatatypeNotMatching {
                    option_name: option_name.to_owned(),
                    value: option_value.to_owned(),
                    datatype: "i64".to_owned(),
                },
            );
        },
    };
    match check_bounds(ScalarKind::Integer, option_name, val as i128, min, max) {
        Ok(_) => Ok(val),
        Err(e) => Err(e),
    }
}

/// Checks the value of a boolean option, and hands back the truth value it
/// writes.
pub fn check_datatype_bool(option_name: &str, option_value: &str) -> (r: Result<bool, Error>)
    ensures
        match r {
            Ok(v) => bool_value(option_value@) == Some(v),
            Err(e) => Some(e@) == bool_finding(option_name@, option_value@),
        },
{
    match parse_bool(option_value) {
        Some(v) => Ok(v),
        None => Err(
            Error::DatatypeNotMatching {
                option_name: option_name.to_owned(),
                value: option_value.to_owned(),
                datatype: "bool".to_owned(),
            },
        ),
    }
}

} // verus!
