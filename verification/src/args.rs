//! Argument acquisition: both arguments of the command are required.

use crate::error::{text_or_error, CpyError, CpyErrorView};
use vstd::prelude::*;

verus! {

/// What the command line gave for a required argument called `name`: its
/// text, or the failure that names the argument if it was left out or left
/// empty.
pub open spec fn required_value_of(value: Option<Seq<char>>, name: Seq<char>) -> Result<
    Seq<char>,
    CpyErrorView,
> {
    match value {
        Some(text) => if text.len() > 0 {
            Ok(text)
        } else {
            Err(CpyErrorView::MissingArgument { name })
        },
        None => Err(CpyErrorView::MissingArgument { name }),
    }
}

/// The value of an optional argument as the command line gave it.
pub open spec fn argument_view(value: Option<&str>) -> Option<Seq<char>> {
    match value {
        Some(text) => Some(text@),
        None => None,
    }
}

/// Takes the value of the required argument called `name`, and fails if the
/// command line left it out or left it empty.
pub fn required_value(value: Option<&str>, name: &str) -> (taken: Result<String, CpyError>)
    ensures
        text_or_error(taken) == required_value_of(argument_view(value), name@),
{
    match value {
        Some(text) => {
            if text.is_empty() {
                Err(CpyError::MissingArgument { name: String::from_str(name) })
            } else {
                Ok(String::from_str(text))
            }
        },
        None => Err(CpyError::MissingArgument { name: String::from_str(name) }),
    }
}

} // verus!
