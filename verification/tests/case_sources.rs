//! Tests for case sources, case lookup, case counting and argument
//! rendering.

use test_casing::{
    case, check_case_count, render_named_args, try_case, ArgNames, CaseCountMismatch, TestCases,
};

fn numbers_are_small_body(number: i32) {
    assert!((0..10).contains(&number));
}

#[test]
fn numbers_are_small() {
    let cases = TestCases::new(vec![2, 3, 5, 8]);
    let mut index = 0;
    while index < 4 {
        let number = case(&cases, index);
        numbers_are_small_body(number);
        index += 1;
    }
}

#[test]
fn another_number_is_small() {
    numbers_are_small_body(1);
}

#[test]
fn number_can_be_converted_to_string() {
    let cases: TestCases<(i32, &str)> = TestCases::new(vec![(2, "2"), (3, "3"), (5, "5")]);
    let mut index = 0;
    while index < 3 {
        let (number, expected) = case(&cases, index);
        assert_eq!(number.to_string(), expected);
        index += 1;
    }
}

#[test]
fn case_returns_each_element_in_order() {
    let cases = TestCases::new(vec![10, 20, 30]);
    assert_eq!(cases.len(), 3);
    assert_eq!(case(&cases, 0), 10);
    assert_eq!(case(&cases, 1), 20);
    assert_eq!(case(&cases, 2), 30);
}

#[test]
fn try_case_reports_out_of_range() {
    let cases = TestCases::new(vec!["a", "b"]);
    assert_eq!(try_case(&cases, 1), Some("b"));
    assert_eq!(try_case(&cases, 2), None);
    let empty: TestCases<i32> = TestCases::new(vec![]);
    assert_eq!(try_case(&empty, 0), None);
}

#[test]
fn case_count_check_accepts_exact_count() {
    let cases = TestCases::new(vec![1, 2, 3, 4]);
    assert!(check_case_count(&cases, 4).is_ok());
    assert!(check_case_count(&cases, 3).is_err());
    assert!(check_case_count(&cases, 5).is_err());
}

#[test]
fn case_count_mismatch_reports_both_counts() {
    let cases = TestCases::new(vec![1, 2, 3]);
    let mismatch = check_case_count(&cases, 4).unwrap_err();
    assert_eq!(mismatch, CaseCountMismatch { expected: 4, actual: 3 });
    assert_eq!(
        mismatch.message(),
        "Expected 4 test case(s), but the case source yielded 3"
    );
}

#[test]
fn case_count_overshoot_is_capped_at_one_probe() {
    // A source longer than declared is only probed one case past the
    // declared count.
    let cases = TestCases::new(vec![0; 10]);
    let mismatch = check_case_count(&cases, 2).unwrap_err();
    assert_eq!(mismatch, CaseCountMismatch { expected: 2, actual: 3 });
    assert_eq!(
        mismatch.message(),
        "Expected 2 test case(s), but the case source yielded 3"
    );
}

#[test]
fn rendering_named_args() {
    let names = vec!["number", "s"];
    let values = vec!["3".to_string(), "\"abc\"".to_string()];
    assert_eq!(render_named_args(&names, &values), "number = 3, s = \"abc\"");

    let empty_names: Vec<&'static str> = vec![];
    let empty_values: Vec<String> = vec![];
    assert_eq!(render_named_args(&empty_names, &empty_values), "");

    let one_name = vec!["flag"];
    let one_value = vec!["true".to_string()];
    assert_eq!(render_named_args(&one_name, &one_value), "flag = true");
}

#[test]
fn printing_args_with_single_name() {
    let printed = ["number"].print_with_args(&3);
    assert_eq!(printed, "number = 3");
}

#[test]
fn printing_args_with_two_names() {
    let printed = ["number", "expected"].print_with_args(&(3, "3"));
    assert_eq!(printed, "number = 3, expected = \"3\"");
}

#[test]
fn printing_args_with_many_names() {
    let printed = ["a", "b", "c"].print_with_args(&(1, 2, 3));
    assert_eq!(printed, "a = 1, b = 2, c = 3");
    let printed = ["a", "b", "c", "d"].print_with_args(&(1, 2, 3, 4));
    assert_eq!(printed, "a = 1, b = 2, c = 3, d = 4");
    let printed = ["a", "b", "c", "d", "e"].print_with_args(&(1, 2, 3, 4, 5));
    assert_eq!(printed, "a = 1, b = 2, c = 3, d = 4, e = 5");
    let printed = ["a", "b", "c", "d", "e", "f"].print_with_args(&(1, 2, 3, 4, 5, 6));
    assert_eq!(printed, "a = 1, b = 2, c = 3, d = 4, e = 5, f = 6");
    let printed = ["a", "b", "c", "d", "e", "f", "g"].print_with_args(&(1, 2, 3, 4, 5, 6, 7));
    assert_eq!(printed, "a = 1, b = 2, c = 3, d = 4, e = 5, f = 6, g = 7");
}
