use ezhomie::platform::{apple_script_string, quit_app_script};

#[test]
fn escapes_apple_script_strings() {
    assert_eq!(apple_script_string("A \"B\""), "\"A \\\"B\\\"\"");
    assert_eq!(apple_script_string("A\\B"), "\"A\\\\B\"");
}

#[test]
fn apple_script_string_of_plain_and_empty_text() {
    assert_eq!(apple_script_string(""), "\"\"");
    assert_eq!(apple_script_string("Google Chrome"), "\"Google Chrome\"");
    assert_eq!(apple_script_string("Café ☕"), "\"Café ☕\"");
    assert_eq!(apple_script_string("\\\""), "\"\\\\\\\"\"");
}

fn read_back(literal: &str) -> String {
    let body: Vec<char> = literal.chars().collect();
    assert_eq!(body.first(), Some(&'"'));
    assert_eq!(body.last(), Some(&'"'));
    let inner = &body[1..body.len() - 1];
    let mut out = String::new();
    let mut i = 0;
    while i < inner.len() {
        if inner[i] == '\\' && i + 1 < inner.len() {
            out.push(inner[i + 1]);
            i += 2;
        } else {
            out.push(inner[i]);
            i += 1;
        }
    }
    out
}

#[test]
fn apple_script_string_reads_back_as_value() {
    for value in ["", "x", "a\"b", "\\", "\\\\\"\"", "end\\", "Microsoft Word"] {
        assert_eq!(read_back(&apple_script_string(value)), value);
    }
}

#[test]
fn builds_quit_script() {
    assert_eq!(quit_app_script("Cursor"), "tell application \"Cursor\" to quit");
    assert_eq!(quit_app_script("A\"B"), "tell application \"A\\\"B\" to quit");
}
