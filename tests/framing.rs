use lapce_plugin::{frame_line, line_body, PluginError};

#[test]
fn line_body_strips_terminator() {
    assert_eq!(line_body("{\"a\":1}\n"), Ok("{\"a\":1}".to_string()));
    assert_eq!(line_body("{\"a\":1}\r\n"), Ok("{\"a\":1}".to_string()));
    assert_eq!(line_body("{}"), Ok("{}".to_string()));
    assert_eq!(line_body(""), Ok(String::new()));
}

#[test]
fn line_body_refuses_two_lines() {
    assert_eq!(line_body("{}\n{}\n"), Err(PluginError::MalformedMessage));
    assert_eq!(line_body("{}\r{}"), Err(PluginError::MalformedMessage));
}

#[test]
fn frame_line_appends_one_newline() {
    assert_eq!(frame_line("{\"é\":2}".to_string()), Ok("{\"é\":2}\n".to_string()));
    assert_eq!(frame_line("a\nb".to_string()), Err(PluginError::MalformedMessage));
}

#[test]
fn framed_line_reads_back() {
    let framed = frame_line("{\"id\":0}".to_string()).unwrap();
    assert_eq!(line_body(&framed), Ok("{\"id\":0}".to_string()));
}
