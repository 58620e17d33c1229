use lang_tour::decimal::Decimal;
use lang_tour::text::{digit_to_char, int_to_string, push_bool, push_digits, push_int, push_padded_digits};
use lang_tour::tour::{
    eg_8, eg_const, eg_i32, eg_mut, eg_number_systems, eg_shadowing, eg_suffix_types, eg_types,
    eg_variable, greeting, pi, tour,
};

fn expected_tour() -> Vec<String> {
    vec![
        "Hello Gerald!",
        "",
        "variable-1: a = 12",
        "",
        "shadowing-1: a = 12",
        "shadowing-2: a = 33",
        "",
        "mut-1: a = 12",
        "mut-2: a = 33",
        "",
        "const-1: PI = 3.141",
        "",
        "8-1 i8: from -128 to 127",
        "8-2 u8: from 0 to 255",
        "",
        "i32-1: from -2147483648 to 2147483647",
        "",
        "types-1: i8:   a = 20",
        "types-2: bool: b = false",
        "types-3: char: c = a",
        "types-4: f32:  d = 4.4321",
        "",
        "suffix-types-1: f32: a = 3",
        "suffix-types-2: i8:  b = 42",
    ]
    .into_iter()
    .map(String::from)
    .collect()
}

fn position(lines: &[String], line: &str) -> Vec<usize> {
    lines
        .iter()
        .enumerate()
        .filter(|(_, l)| l.as_str() == line)
        .map(|(i, _)| i)
        .collect()
}

#[test]
fn whole_tour_text() {
    assert_eq!(tour(), expected_tour());
}

#[test]
fn tour_is_the_same_every_run() {
    assert_eq!(tour(), tour());
}

#[test]
fn greeting_first_and_once() {
    let lines = tour();
    assert_eq!(greeting(), vec!["Hello Gerald!".to_string(), String::new()]);
    assert_eq!(lines[0], "Hello Gerald!");
    assert_eq!(lines[1], "");
    assert_eq!(position(&lines, "Hello Gerald!"), vec![0]);
}

#[test]
fn variable_then_shadowing_order() {
    let lines = tour();
    let v = position(&lines, "variable-1: a = 12")[0];
    let s1 = position(&lines, "shadowing-1: a = 12")[0];
    let s2 = position(&lines, "shadowing-2: a = 33")[0];
    assert!(v < s1 && s1 < s2);
    assert_eq!(eg_variable(), vec!["variable-1: a = 12".to_string(), String::new()]);
    assert_eq!(
        eg_shadowing(),
        vec!["shadowing-1: a = 12".to_string(), "shadowing-2: a = 33".to_string(), String::new()]
    );
}

#[test]
fn mutation_order() {
    let lines = tour();
    let m1 = position(&lines, "mut-1: a = 12")[0];
    let m2 = position(&lines, "mut-2: a = 33")[0];
    assert!(m1 < m2);
    assert_eq!(eg_mut(), vec!["mut-1: a = 12".to_string(), "mut-2: a = 33".to_string(), String::new()]);
}

#[test]
fn constant_once() {
    assert_eq!(position(&tour(), "const-1: PI = 3.141").len(), 1);
    assert_eq!(eg_const(), vec!["const-1: PI = 3.141".to_string(), String::new()]);
    assert_eq!(pi().to_text(), "3.141");
}

#[test]
fn eight_bit_ranges_adjacent() {
    let lines = tour();
    let i = position(&lines, "8-1 i8: from -128 to 127")[0];
    assert_eq!(lines[i + 1], "8-2 u8: from 0 to 255");
    assert_eq!(eg_8().len(), 3);
    assert_eq!(eg_8()[2], "");
}

#[test]
fn i32_range_once() {
    assert_eq!(position(&tour(), "i32-1: from -2147483648 to 2147483647").len(), 1);
    assert_eq!(eg_i32(), vec!["i32-1: from -2147483648 to 2147483647".to_string(), String::new()]);
}

#[test]
fn typed_bindings_in_a_row() {
    let lines = eg_types();
    assert_eq!(
        lines,
        vec![
            "types-1: i8:   a = 20".to_string(),
            "types-2: bool: b = false".to_string(),
            "types-3: char: c = a".to_string(),
            format!("types-4: f32:  d = {}", 4.4321f32),
            String::new(),
        ]
    );
}

#[test]
fn suffixed_literals_last_without_blank() {
    let lines = tour();
    let n = lines.len();
    assert_eq!(lines[n - 2], format!("suffix-types-1: f32: a = {}", 3.0f32));
    assert_eq!(lines[n - 1], format!("suffix-types-2: i8:  b = {}", 42i8));
    assert_eq!(eg_suffix_types().len(), 2);
}

#[test]
fn routines_in_fixed_order() {
    let mut joined = greeting();
    for part in [
        eg_variable(),
        eg_shadowing(),
        eg_mut(),
        eg_const(),
        eg_8(),
        eg_i32(),
        eg_types(),
        eg_suffix_types(),
        eg_number_systems(),
    ] {
        joined.extend(part);
    }
    assert_eq!(joined, tour());
    assert!(eg_number_systems().is_empty());
}

#[test]
fn integer_text_matches_display() {
    for n in [0i64, 7, 10, 12, -1, -128, 255, 2147483647, -2147483648, i64::MAX, i64::MIN] {
        assert_eq!(int_to_string(n), n.to_string());
    }
}

#[test]
fn digits_and_padding() {
    let mut s = String::from("x");
    push_digits(&mut s, 1203);
    assert_eq!(s, "x1203");
    let mut s = String::new();
    push_padded_digits(&mut s, 5, 3);
    assert_eq!(s, "005");
    let mut s = String::new();
    push_padded_digits(&mut s, 12345, 2);
    assert_eq!(s, "45");
    let mut s = String::new();
    push_padded_digits(&mut s, 9, 0);
    assert_eq!(s, "");
    assert_eq!(digit_to_char(0), '0');
    assert_eq!(digit_to_char(9), '9');
}

#[test]
fn bool_and_int_appends() {
    let mut s = String::from("b = ");
    push_bool(&mut s, true);
    assert_eq!(s, "b = true");
    push_bool(&mut s, false);
    assert_eq!(s, "b = truefalse");
    let mut s = String::from("n = ");
    push_int(&mut s, -42);
    assert_eq!(s, "n = -42");
}

#[test]
fn decimal_text_matches_float_display() {
    let cases = [
        (Decimal { negative: false, whole: 3, frac: 141, frac_digits: 3 }, 3.141f32),
        (Decimal { negative: false, whole: 4, frac: 4321, frac_digits: 4 }, 4.4321f32),
        (Decimal { negative: false, whole: 3, frac: 0, frac_digits: 0 }, 3.0f32),
        (Decimal { negative: false, whole: 0, frac: 5, frac_digits: 2 }, 0.05f32),
        (Decimal { negative: true, whole: 12, frac: 5, frac_digits: 1 }, -12.5f32),
    ];
    for (d, f) in cases {
        assert_eq!(d.to_text(), f.to_string());
    }
}
