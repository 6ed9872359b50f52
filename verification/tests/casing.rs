use alanthinker_dynamic_get_field_macro::casing::{
    push_snake, registration_const_name, replace_hyphens, temp_var, wrapper_fn_name,
};
use alanthinker_dynamic_get_field_macro::to_snake_case;

#[test]
fn snake_case_of_camel_case_name() {
    assert_eq!(to_snake_case("HelloWorld"), "hello_world");
    assert_eq!(to_snake_case("Calculator"), "calculator");
}

#[test]
fn snake_case_keeps_a_snake_case_name() {
    assert_eq!(to_snake_case("get_value"), "get_value");
    assert_eq!(to_snake_case("x1"), "x1");
}

#[test]
fn snake_case_of_empty_name_is_empty() {
    assert_eq!(to_snake_case(""), "");
}

#[test]
fn snake_case_separates_every_upper_case_letter() {
    assert_eq!(to_snake_case("HTTPServer"), "h_t_t_p_server");
    assert_eq!(to_snake_case("AB"), "a_b");
}

#[test]
fn snake_case_puts_no_underscore_behind_an_underscore() {
    assert_eq!(to_snake_case("My_Type"), "my_type");
    assert_eq!(to_snake_case("_A"), "_a");
    assert_eq!(to_snake_case("a__B"), "a__b");
}

#[test]
fn snake_case_puts_no_underscore_at_the_start() {
    assert_eq!(to_snake_case("A"), "a");
    assert_eq!(to_snake_case("Ab"), "ab");
}

#[test]
fn snake_case_lowers_letters_outside_ascii() {
    assert_eq!(to_snake_case("ÄrgerÖl"), "ärger_öl");
    assert_eq!(to_snake_case("aΔ"), "a_δ");
}

#[test]
fn snake_case_takes_the_first_character_of_a_longer_mapping() {
    // U+0130 is lowered to two characters, `i` and a combining dot.
    assert_eq!("\u{130}".to_lowercase().chars().count(), 2);
    assert_eq!(to_snake_case("\u{130}"), "i");
    assert_eq!(to_snake_case("a\u{130}b"), "a_ib");
}

#[test]
fn snake_case_length_is_between_once_and_twice_the_input() {
    for name in ["", "a", "A", "AB", "aB", "HelloWorld", "HTTPServer", "a_B_c"] {
        let given = name.chars().count();
        let made = to_snake_case(name).chars().count();
        assert!(given <= made && made <= 2 * given);
    }
}

#[test]
fn push_snake_follows_the_classification_it_is_given() {
    let mut out = String::from("ab");
    push_snake(&mut out, 'C', true, 'c');
    assert_eq!(out, "ab_c");
    push_snake(&mut out, 'D', false, 'd');
    assert_eq!(out, "ab_cD");
    push_snake(&mut out, '_', false, '_');
    push_snake(&mut out, 'E', true, 'x');
    assert_eq!(out, "ab_cD_x");
    let mut empty = String::new();
    push_snake(&mut empty, 'Q', true, 'q');
    assert_eq!(empty, "q");
}

#[test]
fn hyphens_become_underscores() {
    assert_eq!(replace_hyphens("a-b--c"), "a_b__c");
    assert_eq!(replace_hyphens("plain"), "plain");
    assert_eq!(replace_hyphens(""), "");
}

#[test]
fn const_name_is_upper_case() {
    assert_eq!(
        registration_const_name("Calculator", "get_value"),
        "__DYNAMIC_METHOD_CALCULATOR_GET_VALUE"
    );
}

#[test]
fn const_name_replaces_hyphens() {
    assert_eq!(registration_const_name("My-Type", "m"), "__DYNAMIC_METHOD_MY_TYPE_M");
}

#[test]
fn const_name_uses_the_full_upper_case_mapping() {
    assert_eq!(registration_const_name("S", "straße"), "__DYNAMIC_METHOD_S_STRASSE");
}

#[test]
fn wrapper_name_is_snake_case() {
    assert_eq!(
        wrapper_fn_name("Calculator", "get_value"),
        "__wrapper_calculator_get_value"
    );
    assert_eq!(wrapper_fn_name("MyType", "doIt"), "__wrapper_my_type_do_it");
}

#[test]
fn temp_var_joins_argument_and_method() {
    assert_eq!(temp_var("value", "set_value"), "value_in_set_value");
}
