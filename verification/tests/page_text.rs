use namimado::render::page::{clean_body, split_lines};

#[test]
fn split_lines_follows_str_lines() {
    for text in ["", "a", "a\n", "a\nb", "a\r\nb\r\n", "\n", "\n\n", "a\rb\nc", "x\r"] {
        let ours = split_lines(text);
        let std_lines: Vec<String> = text.lines().map(str::to_owned).collect();
        assert_eq!(ours, std_lines, "text = {text:?}");
    }
}

#[test]
fn clean_body_joins_paragraph_lines() {
    assert_eq!(clean_body("  Hello \n world  \n"), "Hello world");
}

#[test]
fn clean_body_collapses_blank_runs() {
    assert_eq!(clean_body("One\n\n\n\nTwo\nthree\n\n"), "One\n\nTwo three\n");
}

#[test]
fn clean_body_drops_leading_blanks() {
    assert_eq!(clean_body("\n\n  \nStart"), "Start");
    assert_eq!(clean_body(""), "");
}
