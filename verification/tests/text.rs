use datadog_api::text::{
    bool_to_string, i64_to_string, join_strings, path_with_query, same_text, u64_to_string,
};

#[test]
fn unsigned_numbers_in_decimal() {
    assert_eq!("0", u64_to_string(0));
    assert_eq!("7", u64_to_string(7));
    assert_eq!("10", u64_to_string(10));
    assert_eq!("242202", u64_to_string(242202));
    assert_eq!("1000000", u64_to_string(1000000));
    assert_eq!("18446744073709551615", u64_to_string(u64::MAX));
    for n in [0u64, 9, 10, 11, 99, 100, 101, 12345678901234567890] {
        assert_eq!(n.to_string(), u64_to_string(n));
    }
}

#[test]
fn signed_numbers_in_decimal() {
    assert_eq!("0", i64_to_string(0));
    assert_eq!("-1", i64_to_string(-1));
    assert_eq!("-242202", i64_to_string(-242202));
    assert_eq!("9223372036854775807", i64_to_string(i64::MAX));
    assert_eq!("-9223372036854775808", i64_to_string(i64::MIN));
    assert_eq!("-9223372036854775807", i64_to_string(i64::MIN + 1));
}

#[test]
fn truth_values_as_text() {
    assert_eq!("true", bool_to_string(true));
    assert_eq!("false", bool_to_string(false));
}

#[test]
fn joined_lists() {
    let parts = |items: &[&str]| -> Vec<String> { items.iter().map(|s| s.to_string()).collect() };
    assert_eq!("", join_strings(&parts(&[]), "&"));
    assert_eq!("a", join_strings(&parts(&["a"]), "&"));
    assert_eq!("a&b&c", join_strings(&parts(&["a", "b", "c"]), "&"));
    assert_eq!("a, , c", join_strings(&parts(&["a", "", "c"]), ", "));
    assert_eq!("abc", join_strings(&parts(&["a", "b", "c"]), ""));
    assert_eq!("&", join_strings(&parts(&["", ""]), "&"));
}

#[test]
fn paths_with_queries() {
    let parts = |items: &[&str]| -> Vec<String> { items.iter().map(|s| s.to_string()).collect() };
    assert_eq!("/a", path_with_query("/a", &parts(&[])));
    assert_eq!("/a?x=1", path_with_query("/a", &parts(&["x=1"])));
    assert_eq!("/a?x=1&y=2", path_with_query("/a", &parts(&["x=1", "y=2"])));
    assert_eq!("/a?", path_with_query("/a", &parts(&[""])));
}

#[test]
fn texts_are_compared_by_their_characters() {
    assert!(same_text("", ""));
    assert!(same_text("No Data", "No Data"));
    assert!(!same_text("No Data", "No data"));
    assert!(!same_text("a", "ab"));
}
