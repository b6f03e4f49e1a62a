use diom::text::{comma_separated, trim_ascii_chars};

#[test]
fn comma_separated_items_are_trimmed() {
    assert_eq!(comma_separated(" a:1 , b:2,,c "), vec!["a:1", "b:2", "", "c"]);
    assert_eq!(comma_separated(""), vec![""]);
    assert_eq!(comma_separated("x"), vec!["x"]);
    assert_eq!(comma_separated("\tx\n,\r y\x0C"), vec!["x", "y"]);
    assert_eq!(comma_separated(","), vec!["", ""]);
}

#[test]
fn only_ascii_whitespace_is_trimmed() {
    let s: Vec<char> = "\u{A0} x \u{A0}".chars().collect();
    assert_eq!(trim_ascii_chars(&s), s);
    let t: Vec<char> = " \t x y \n".chars().collect();
    assert_eq!(trim_ascii_chars(&t), vec!['x', ' ', 'y']);
}
