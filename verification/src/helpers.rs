//! Small demonstration helpers with fixed, fully specified results.

use vstd::prelude::*;

verus! {

/// The line that the string demo helper reports.
pub fn function_string() -> (r: &'static str)
    ensures
        r@ == "mod_string::function()"@,
{
    "mod_string::function()"
}

/// The sum that the number demo helper reports for its two arguments.
pub fn add_number(a: i64, b: i64) -> (r: i64)
    requires
        i64::MIN <= a + b <= i64::MAX,
    ensures
        r == a + b,
{
    a + b
}

} // verus!
