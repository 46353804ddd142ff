use crate::error::{reports, texts, Error, ErrorView};
use vstd::prelude::*;

verus! {

/// The texts of an optional list of strings.
pub open spec fn opt_texts(list: Option<Vec<String>>) -> Option<Seq<Seq<char>>> {
    match list {
        Some(l) => Some(texts(l@)),
        None => None,
    }
}

/// What the check of the allowed values finds: where a list is set and not empty,
/// the value must be one of its members.
pub open spec fn allowed_values_finding(
    option_name: Seq<char>,
    value: Seq<char>,
    allowed_values: Option<Seq<Seq<char>>>,
) -> Option<ErrorView> {
    match allowed_values {
        None => None,
        Some(list) => if list.len() > 0 && !list.contains(value) {
            Some(
                ErrorView::ConfigValueNotInAllowedValues {
                    option_name,
                    value,
                    allowed_values: list,
                },
            )
        } else {
            None
        },
    }
}

/// Whether `value` is a member of `list`.
pub fn is_member(list: &Vec<String>, value: &String) -> (b: bool)
    ensures
        b == texts(list@).contains(value@),
{
    let mut i: usize = 0;
    while i < list.len()
        invariant
            i <= list.len(),
            forall|k: int| 0 <= k < i ==> texts(list@)[k] != value@,
        decreases list.len() - i,
    {
        if list[i] == *value {
            assert(texts(list@)[i as int] == value@);
            return true;
        }
        i = i + 1;
    }
    false
}

/// A copy of `list`, text for text.
pub fn copy_texts(list: &Vec<String>) -> (copy: Vec<String>)
    ensures
        texts(copy@) == texts(list@),
{
    let mut copy: Vec<String> = Vec::new();
    let mut i: usize = 0;
    while i < list.len()
        invariant
            i <= list.len(),
            copy.len() == i,
            forall|k: int| 0 <= k < i ==> copy[k]@ == list[k]@,
        decreases list.len() - i,
    {
        copy.push(list[i].clone());
        i = i + 1;
    }
    assert(texts(copy@) =~= texts(list@));
    copy
}

/// Checks that the value is one of the allowed values, where the option
/// names any.
pub fn check_allowed_values(
    option_name: &str,
    option_value: &str,
    allowed_values: &Option<Vec<String>>,
) -> (r: Result<(), Error>)
    ensures
        reports(r, allowed_values_finding(option_name@, option_value@, opt_texts(*allowed_values))),
{
    match allowed_values {
        None => Ok(()),
        Some(list) => {
            let value = option_value.to_owned();
            if list.len() > 0 && !is_member(list, &value) {
                Err(
                    Error::ConfigValueNotInAllowedValues {
                        option_name: option_name.to_owned(),
                        value,
                        allowed_values: copy_texts(list),
                    },
                )
            } else {
                Ok(())
            }
        },
    }
}

} // verus!
