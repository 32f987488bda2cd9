use nodal::naming::snake_to_pascal;

#[test]
fn lib_test_snake_to_pascal_simple() {
    assert_eq!(snake_to_pascal("hello_world"), "HelloWorld");
}

#[test]
fn lib_test_snake_to_pascal_single_word() {
    assert_eq!(snake_to_pascal("hello"), "Hello");
}

#[test]
fn lib_test_snake_to_pascal_empty_string() {
    assert_eq!(snake_to_pascal(""), "");
}

#[test]
fn lib_test_snake_to_pascal_multiple_underscores() {
    assert_eq!(snake_to_pascal("hello__world"), "HelloWorld");
}

#[test]
fn lib_test_snake_to_pascal_leading_underscore() {
    assert_eq!(snake_to_pascal("_hello_world"), "HelloWorld");
}

#[test]
fn lib_test_snake_to_pascal_trailing_underscore() {
    assert_eq!(snake_to_pascal("hello_world_"), "HelloWorld");
}

#[test]
fn lib_test_snake_to_pascal_many_words() {
    assert_eq!(snake_to_pascal("this_is_a_long_name"), "ThisIsALongName");
}

#[test]
fn lib_test_snake_to_pascal_single_char_words() {
    assert_eq!(snake_to_pascal("a_b_c"), "ABC");
}

#[test]
fn lib_test_snake_to_pascal_already_capitalized() {
    assert_eq!(snake_to_pascal("Hello_World"), "HelloWorld");
}

#[test]
fn snake_to_pascal_only_underscores() {
    assert_eq!(snake_to_pascal("___"), "");
}

#[test]
fn snake_to_pascal_splits_at_underscore() {
    // the conversion of `a_b` is that of `a` followed by that of `b`
    let a = "set_torque";
    let b = "now";
    let joined = format!("{}_{}", a, b);
    assert_eq!(
        snake_to_pascal(&joined),
        format!("{}{}", snake_to_pascal(a), snake_to_pascal(b))
    );
}

#[test]
fn snake_to_pascal_word_keeps_rest() {
    assert_eq!(snake_to_pascal("wIND"), "WIND");
    assert_eq!(snake_to_pascal("9lives"), "9lives");
}

#[test]
fn snake_to_pascal_uppercases_beyond_ascii() {
    // the uppercase mapping of a character may be longer than one character
    assert_eq!(snake_to_pascal("ß_é"), "SSÉ");
}
