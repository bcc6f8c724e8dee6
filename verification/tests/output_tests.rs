use weather::Output;
use weather::parse_output_line;

#[test]
fn render_is_the_exact_line() {
    let out = Output::new(String::from("\u{f0599} 20\u{b0}C"), String::from("hi"));
    assert_eq!(
        out.to_json_line(),
        "{ \"text\": \"\u{f0599} 20\u{b0}C\", \"tooltip\": \"hi\" }\n"
    );
}

#[test]
fn render_then_parse_round_trips() {
    let out = Output::new(
        String::from("\u{f0599} 20\u{b0}C"),
        String::from("Weather in Berlin\nFeels like: 19\u{b0}C"),
    );
    let line = out.to_json_line();
    let back = parse_output_line(&line).unwrap();
    assert_eq!(back.text, out.text);
    assert_eq!(back.tooltip, out.tooltip);
}

#[test]
fn empty_fields_round_trip_too() {
    let out = Output::new(String::new(), String::new());
    let line = out.to_json_line();
    assert_eq!(line, "{ \"text\": \"\", \"tooltip\": \"\" }\n");
    let back = parse_output_line(&line).unwrap();
    assert_eq!(back.text, "");
    assert_eq!(back.tooltip, "");
}

#[test]
fn rendered_line_is_real_json() {
    let out = Output::new(String::from("x 1\u{b0}C"), String::from("t"));
    let line = out.to_json_line();
    let v: serde_json::Value = serde_json::from_str(&line).unwrap();
    assert_eq!(v["text"].as_str().unwrap(), "x 1\u{b0}C");
    assert_eq!(v["tooltip"].as_str().unwrap(), "t");
}

#[test]
fn quotes_backslashes_and_controls_round_trip() {
    let out = Output::new(
        String::from("say \"hi\" \\ now"),
        String::from("line one\nline\ttwo\rend"),
    );
    let line = out.to_json_line();
    let back = parse_output_line(&line).unwrap();
    assert_eq!(back.text, out.text);
    assert_eq!(back.tooltip, out.tooltip);
}

#[test]
fn quotes_render_as_their_unicode_escape() {
    let out = Output::new(String::from("x\"y"), String::from("a\nb"));
    assert_eq!(
        out.to_json_line(),
        "{ \"text\": \"x\\u0022y\", \"tooltip\": \"a\\nb\" }\n"
    );
}

#[test]
fn escaped_line_is_real_json_for_special_characters() {
    let out = Output::new(
        String::from("say \"hi\" \\ now"),
        String::from("a\nb\tc\rd"),
    );
    let line = out.to_json_line();
    let v: serde_json::Value = serde_json::from_str(&line).unwrap();
    assert_eq!(v["text"].as_str().unwrap(), "say \"hi\" \\ now");
    assert_eq!(v["tooltip"].as_str().unwrap(), "a\nb\tc\rd");
}

#[test]
fn a_lone_backslash_in_a_line_is_refused() {
    assert!(parse_output_line("{ \"text\": \"a\\\", \"tooltip\": \"b\" }\n").is_none());
    assert!(parse_output_line("{ \"text\": \"a\\x\", \"tooltip\": \"b\" }\n").is_none());
}

#[test]
fn malformed_lines_are_refused() {
    assert!(parse_output_line("").is_none());
    assert!(parse_output_line("garbage").is_none());
    assert!(parse_output_line("{ \"text\": \"a\", \"tooltip\": \"b\" }").is_none());
    assert!(parse_output_line("{ \"text\": \"a\" }\n").is_none());
    assert!(parse_output_line("{ \"text\": \"a\", \"tooltip\": \"b\" }\nrest").is_none());
}
