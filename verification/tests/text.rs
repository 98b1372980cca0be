use fixture_resolver::text::{
    decimal_string, join_comma_separated, partial_name_string, render_call, same_text,
};

fn strings(items: &[&str]) -> Vec<String> {
    items.iter().map(|item| item.to_string()).collect()
}

#[test]
fn same_text_compares_character_by_character() {
    assert!(same_text("", ""));
    assert!(same_text("pippo", "pippo"));
    assert!(!same_text("pippo", "pipp"));
    assert!(!same_text("pipp", "pippo"));
    assert!(!same_text("pippo", "pippa"));
    assert!(!same_text("pippo", "Pippo"));
    assert!(!same_text("", "p"));
    assert!(!same_text("p", ""));
}

#[test]
fn same_text_beyond_ascii() {
    assert!(same_text("caffè", "caffè"));
    assert!(!same_text("caffè", "caffé"));
    assert!(!same_text("caffè", "caffe"));
    assert!(same_text("名前", "名前"));
    assert!(!same_text("名前", "名"));
}

#[test]
fn decimal_string_of_small_and_large_numbers() {
    assert_eq!("0", decimal_string(0));
    assert_eq!("7", decimal_string(7));
    assert_eq!("9", decimal_string(9));
    assert_eq!("10", decimal_string(10));
    assert_eq!("42", decimal_string(42));
    assert_eq!("100", decimal_string(100));
    assert_eq!("120", decimal_string(120));
    assert_eq!("1234567890", decimal_string(1234567890));
    assert_eq!(usize::MAX.to_string(), decimal_string(usize::MAX));
}

#[test]
fn decimal_string_agrees_with_the_standard_formatting() {
    for n in 0..2000usize {
        assert_eq!(format!("{}", n), decimal_string(n));
    }
}

#[test]
fn partial_name_carries_the_arity() {
    assert_eq!("partial_0", partial_name_string(0));
    assert_eq!("partial_2", partial_name_string(2));
    assert_eq!("partial_10", partial_name_string(10));
    assert_eq!("partial_305", partial_name_string(305));
}

#[test]
fn join_puts_a_comma_and_a_space_between_neighbours() {
    assert_eq!("", join_comma_separated(&strings(&[])));
    assert_eq!("a", join_comma_separated(&strings(&["a"])));
    assert_eq!("a, b", join_comma_separated(&strings(&["a", "b"])));
    assert_eq!("b, a, b", join_comma_separated(&strings(&["b", "a", "b"])));
    assert_eq!(", ", join_comma_separated(&strings(&["", ""])));
}

#[test]
fn render_call_without_arguments() {
    assert_eq!("pippo::partial_0()", render_call("pippo", &strings(&[])));
}

#[test]
fn render_call_with_arguments_in_order() {
    assert_eq!(
        "widget::partial_2(a, b)",
        render_call("widget", &strings(&["a", "b"]))
    );
    assert_eq!(
        "widget::partial_2(b, a)",
        render_call("widget", &strings(&["b", "a"]))
    );
    assert_eq!(
        "f::partial_11(a, b, c, d, e, f, g, h, i, j, k)",
        render_call(
            "f",
            &strings(&["a", "b", "c", "d", "e", "f", "g", "h", "i", "j", "k"])
        )
    );
}
