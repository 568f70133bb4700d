use metamorphosis::text::{decimal_string, join_strings, make_param_name};

#[test]
fn decimal_of_single_digits() {
    assert_eq!(decimal_string(0), "0");
    assert_eq!(decimal_string(7), "7");
    assert_eq!(decimal_string(9), "9");
}

#[test]
fn decimal_of_longer_numbers() {
    assert_eq!(decimal_string(10), "10");
    assert_eq!(decimal_string(99), "99");
    assert_eq!(decimal_string(100), "100");
    assert_eq!(decimal_string(12345), "12345");
    assert_eq!(decimal_string(9_876_543_210), "9876543210");
}

#[test]
fn decimal_of_largest_number() {
    assert_eq!(decimal_string(usize::MAX), format!("{}", usize::MAX));
}

#[test]
fn decimal_agrees_with_std_on_a_range() {
    let mut n: usize = 0;
    while n < 2000 {
        assert_eq!(decimal_string(n), format!("{}", n));
        n += 1;
    }
}

#[test]
fn param_names_are_var_and_position() {
    assert_eq!(make_param_name(0), "var0");
    assert_eq!(make_param_name(1), "var1");
    assert_eq!(make_param_name(10), "var10");
    assert_eq!(make_param_name(204), "var204");
}

#[test]
fn param_names_differ_for_different_positions() {
    let mut seen: Vec<String> = Vec::new();
    let mut n: usize = 0;
    while n < 300 {
        let name = make_param_name(n);
        assert!(!seen.contains(&name));
        seen.push(name);
        n += 1;
    }
}

#[test]
fn join_of_nothing_is_empty() {
    let items: Vec<String> = Vec::new();
    assert_eq!(join_strings(&items, ","), "");
}

#[test]
fn join_of_one_item_has_no_separator() {
    let items = vec![String::from("var0")];
    assert_eq!(join_strings(&items, ","), "var0");
}

#[test]
fn join_puts_separator_between_neighbours() {
    let items = vec![String::from("a"), String::from("b"), String::from("c")];
    assert_eq!(join_strings(&items, ","), "a,b,c");
    assert_eq!(join_strings(&items, " - "), "a - b - c");
    assert_eq!(join_strings(&items, ""), "abc");
}

#[test]
fn join_keeps_empty_items() {
    let items = vec![String::new(), String::from("x"), String::new()];
    assert_eq!(join_strings(&items, ","), ",x,");
}
