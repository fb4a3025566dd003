use cooplan_auth::json_text::{push_json_escaped, push_json_escaped_char};

fn escaped(text: &str) -> String {
    let mut out = String::new();
    push_json_escaped(&mut out, text);
    out
}

fn escaped_char(c: char) -> String {
    let mut out = String::new();
    push_json_escaped_char(&mut out, c);
    out
}

#[test]
fn plain_text_is_unchanged() {
    assert_eq!(escaped(""), "");
    assert_eq!(escaped("my-id"), "my-id");
    assert_eq!(escaped("https://api.example/v1?a=b&c=d"), "https://api.example/v1?a=b&c=d");
    assert_eq!(escaped("a b\u{7f}\u{e9}\u{20ac}"), "a b\u{7f}\u{e9}\u{20ac}");
}

#[test]
fn quote_and_backslash_stand_behind_a_backslash() {
    assert_eq!(escaped_char('"'), "\\\"");
    assert_eq!(escaped_char('\\'), "\\\\");
    assert_eq!(escaped("a\"b\\c"), "a\\\"b\\\\c");
    assert_eq!(escaped("\"\""), "\\\"\\\"");
}

#[test]
fn characters_below_the_space_are_written_by_their_code() {
    assert_eq!(escaped_char('\u{0}'), "\\u0000");
    assert_eq!(escaped_char('\t'), "\\u0009");
    assert_eq!(escaped_char('\n'), "\\u000a");
    assert_eq!(escaped_char('\r'), "\\u000d");
    assert_eq!(escaped_char('\u{f}'), "\\u000f");
    assert_eq!(escaped_char('\u{10}'), "\\u0010");
    assert_eq!(escaped_char('\u{1f}'), "\\u001f");
    assert_eq!(escaped_char(' '), " ");
}

#[test]
fn escaped_text_is_added_behind_what_is_there() {
    let mut out = "key: ".to_string();
    push_json_escaped(&mut out, "a\nb");
    push_json_escaped_char(&mut out, '!');

    assert_eq!(out, "key: a\\u000ab!");
}

#[test]
fn escaped_text_reads_back_as_the_text() {
    let texts: [&str; 5] = ["", "plain", "q\"b\\s", "\u{0}\u{1}\u{1e}\u{1f} ", "\u{1f600}\t\""];
    for text in texts {
        let quoted = format!("\"{}\"", escaped(text));
        let read: serde_json::Value = serde_json::from_str(&quoted).unwrap();
        assert_eq!(read.as_str(), Some(text));
    }
}
