//! The one rule of the todo endpoint: a todo's value may hold at most 140
//! bytes; anything longer is rejected before it reaches the store.

use vstd::prelude::*;
use vstd::string::StringSliceAdditionalSpecFns;

verus! {

/// The longest todo value accepted, in bytes of its UTF-8 form.
pub const TODO_VALUE_MAX_BYTES: usize = 140;

/// Whether a todo value is short enough to be stored.
pub fn todo_value_ok(value: &str) -> (r: bool)
    ensures
        r == (value.spec_bytes().len() <= TODO_VALUE_MAX_BYTES),
{
    value.as_bytes().len() <= TODO_VALUE_MAX_BYTES
}

} // verus!
