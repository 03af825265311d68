use ord_option_ext::CallSite;
use ord_option_ext::OptionSomeExt;

#[test]
fn test_some_ext() {
    let a: Option<i32> = Some(42);
    let here = CallSite { file: String::from("tests/option_tests.rs"), line: 7, column: 13 };
    assert!(a.some(here).is_ok());

    let b: Option<i32> = None;
    let here = CallSite { file: String::from("tests/option_tests.rs"), line: 11, column: 13 };
    assert!(b.some(here).is_err());
}

#[test]
fn test_some_present_value_unchanged() {
    let a: Option<i32> = Some(42);
    let here = CallSite { file: String::from("tests/option_tests.rs"), line: 18, column: 13 };
    assert_eq!(a.some(here).unwrap(), 42);

    let s: Option<String> = Some(String::from("kept"));
    let here = CallSite { file: String::from("tests/option_tests.rs"), line: 22, column: 13 };
    assert_eq!(s.some(here).unwrap(), String::from("kept"));
}

#[test]
fn test_none_error_records_call_site() {
    let b: Option<i32> = None;
    let here = CallSite { file: String::from("tests/option_tests.rs"), line: 29, column: 13 };
    let e = b.some(here).unwrap_err();
    assert_eq!(e.location().file, String::from("tests/option_tests.rs"));
    assert_eq!(e.location().line, 29);
    assert_eq!(e.location().column, 13);
    assert!(!e.location().file.is_empty());
}

#[test]
fn test_distinct_call_sites_give_distinct_locations() {
    let b: Option<i32> = None;
    let first = CallSite { file: String::from("tests/option_tests.rs"), line: 40, column: 13 };
    let e1 = b.some(first).unwrap_err();

    let c: Option<i32> = None;
    let second = CallSite { file: String::from("tests/option_tests.rs"), line: 44, column: 13 };
    let e2 = c.some(second).unwrap_err();

    assert_ne!(e1.location(), e2.location());
    assert_ne!(e1.location().line, e2.location().line);
}
