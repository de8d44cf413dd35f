use memo_store::helpers::add_number;
use memo_store::helpers::function_string;

#[test]
fn function_string_reports_its_line() {
    assert_eq!(function_string(), "mod_string::function()");
}

#[test]
fn add_number_reports_the_sum() {
    assert_eq!(add_number(2, 3), 5);
    assert_eq!(add_number(-4, 4), 0);
}
