use dink::text::{join_strings, push_decimal, split_and_trim, split_pieces, trim_string};

#[test]
fn split_keeps_empty_pieces() {
    assert_eq!(split_pieces("a,,b,", ','), vec!["a", "", "b", ""]);
    assert_eq!(split_pieces("", ','), vec![""]);
    assert_eq!(split_pieces("abc", ','), vec!["abc"]);
}

#[test]
fn trim_removes_unicode_white_space() {
    assert_eq!(trim_string("  a b \n"), "a b");
    assert_eq!(trim_string("\u{3000}x\u{a0}"), "x");
    assert_eq!(trim_string(" \t "), "");
    assert_eq!(trim_string("_x_"), "_x_");
}

#[test]
fn split_trim_and_join() {
    let parts = split_and_trim(" a , b,c ", ',');
    assert_eq!(parts, vec!["a", "b", "c"]);
    assert_eq!(join_strings(&parts, ", "), "a, b, c");
    assert_eq!(join_strings(&Vec::new(), ", "), "");
    let pieces = split_pieces("x,y", ',');
    assert_eq!(join_strings(&pieces, ","), "x,y");
}

#[test]
fn decimal_rendering() {
    let mut s = String::from("n=");
    push_decimal(&mut s, 0);
    assert_eq!(s, "n=0");
    let mut s = String::new();
    push_decimal(&mut s, 1_234_507);
    assert_eq!(s, "1234507");
}
