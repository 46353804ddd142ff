use crate::error::{opt_text, reports, Error, ErrorView};
use vstd::prelude::*;

verus! {

/// What reading a value and the two bounds of a float option as floating
/// point numbers gave. The engine does no floating point arithmetic of its
/// own: the caller reads and compares, and the engine decides from that.
#[derive(Clone, Debug)]
pub struct FloatReading {
    /// The value as a floating point number, printed again; `None` where the
    /// value is no such number.
    pub value: Option<String>,
    /// The lower bound, printed again; `None` where it is no such number.
    pub min: Option<String>,
    /// The upper bound, printed again; `None` where it is no such number.
    pub max: Option<String>,
    /// Whether the value is less than the lower bound.
    pub below_min: bool,
    /// Whether the value is greater than the upper bound.
    pub above_max: bool,
}

/// What holding a float against one bound finds. `bound` is the bound as the
/// schema writes it, `printed` what reading it gave, and `violated` whether
/// the value lies beyond it.
pub open spec fn float_bound_finding(
    option_name: Seq<char>,
    received: Seq<char>,
    bound: Option<Seq<char>>,
    printed: Option<Seq<char>>,
    violated: bool,
) -> Option<ErrorView> {
    match bound {
        None => None,
        Some(text) => match printed {
            None => Some(
                ErrorView::DatatypeNotMatching { option_name, value: text, datatype: "f64"@ },
            ),
            Some(expected) => if violated {
                Some(ErrorView::ConfigValueOutOfBounds { option_name, received, expected })
            } else {
                None
            },
        },
    }
}

/// What the check of a float option finds for `value`, given what reading it
/// gave: the value must not be empty, must be a float, and must lie within
/// the bounds that are set, the lower one first.
pub open spec fn float_finding(
    option_name: Seq<char>,
    value: Seq<char>,
    min: Option<Seq<char>>,
    max: Option<Seq<char>>,
    reading: FloatReading,
) -> Option<ErrorView> {
    if value.len() == 0 {
        Some(ErrorView::ConfigValueMissing { option_name })
    } else {
        match reading.value {
            None => Some(ErrorView::DatatypeNotMatching { option_name, value, datatype: "f64"@ }),
            Some(received) => match float_bound_finding(
                option_name,
                received@,
                min,
                opt_text(reading.min),
                reading.below_min,
            ) {
                Some(e) => Some(e),
                None => float_bound_finding(
                    option_name,
                    received@,
                    max,
                    opt_text(reading.max),
                    reading.above_max,
                ),
            },
        }
    }
}

/// Holds a float against one bound.
pub fn check_float_bound(
    option_name: &str,
    received: &String,
    bound: &Option<String>,
    printed: &Option<String>,
    violated: bool,
) -> (r: Result<(), Error>)
    ensures
        reports(
            r,
            float_bound_finding(
                option_name@,
                received@,
                opt_text(*bound),
                opt_text(*printed),
                violated,
            ),
        ),
{
    match bound {
        None => Ok(()),
        Some(text) => match printed {
            None => Err(
                Error::DatatypeNotMatching {
                    option_name: option_name.to_owned(),
                    value: text.clone(),
                    datatype: "f64".to_owned(),
                },
            ),
            Some(expected) => if violated {
                Err(
                    Error::ConfigValueOutOfBounds {
                        option_name: option_name.to_owned(),
                        received: received.clone(),
                        expected: expected.clone(),
                    },
                )
            } else {
                Ok(())
            },
        },
    }
}

/// Checks the value of a float option from what reading it gave.
pub fn check_datatype_float(
    option_name: &str,
    option_value: &str,
    min: &Option<String>,
    max: &Option<String>,
    reading: &FloatReading,
) -> (r: Result<(), Error>)
    ensures
        reports(
            r,
            float_finding(option_name@, option_value@, opt_text(*min), opt_text(*max), *reading),
        ),
{
    if option_value.is_empty() {
        return Err(Error::ConfigValueMissing { option_name: option_name.to_owned() });
    }
    let received = match &reading.value {
        Some(received) => received,
        None => {
            return Err(
                Error::DatatypeNotMatching {
                    option_name: option_name.to_owned(),
                    value: option_value.to_owned(),
                    datatype: "f64".to_owned(),
                },
            );
        },
    };
    match check_float_bound(option_name, received, min, &reading.min, reading.below_min) {
        Ok(_) => {},
        Err(e) => {
            return Err(e);
        },
    }
    check_float_bound(option_name, received, max, &reading.max, reading.above_max)
}

} // verus!
