use hangdetect::monitor::event_logger::{frame_complete, frame_start, LogMessage};

fn start(kern_label: &str, user_label: &str) -> String {
    LogMessage::Start { kern_label: kern_label.to_string(), user_label: user_label.to_string() }
        .to_json()
        .unwrap()
}

fn complete(kern_label: &str, user_label: &str, duration_ms: &str) -> String {
    LogMessage::Complete {
        kern_label: kern_label.to_string(),
        user_label: user_label.to_string(),
        duration_ms: duration_ms.to_string(),
    }
    .to_json()
    .unwrap()
}

#[test]
fn start_record_shape() {
    assert_eq!(
        start("<Runtime Kernel: k on stream 0>", "step 3"),
        "{\"type\":\"Start\",\"data\":{\"kern_label\":\"<Runtime Kernel: k on stream 0>\",\"user_label\":\"step 3\"}}"
    );
}

#[test]
fn complete_record_shape() {
    assert_eq!(
        complete("k", "", "50.0"),
        "{\"type\":\"Complete\",\"data\":{\"kern_label\":\"k\",\"user_label\":\"\",\"duration_ms\":50.0}}"
    );
}

#[test]
fn labels_are_escaped_as_json_strings() {
    assert_eq!(
        start("a\"b\\c", "line\nbreak\ttab"),
        "{\"type\":\"Start\",\"data\":{\"kern_label\":\"a\\\"b\\\\c\",\"user_label\":\"line\\nbreak\\ttab\"}}"
    );
    assert_eq!(
        start("\u{1}", "\u{7f}é"),
        "{\"type\":\"Start\",\"data\":{\"kern_label\":\"\\u0001\",\"user_label\":\"\u{7f}é\"}}"
    );
}

#[test]
fn records_parse_back() {
    let kern = "void f<int, \"x\">(char const*) \\ on stream 7";
    let user = "épo\u{0}que\r\n";
    let parsed: serde_json::Value = serde_json::from_str(&start(kern, user)).unwrap();
    assert_eq!(parsed["type"], "Start");
    assert_eq!(parsed["data"]["kern_label"], kern);
    assert_eq!(parsed["data"]["user_label"], user);
    let parsed: serde_json::Value = serde_json::from_str(&complete(kern, user, "12.5")).unwrap();
    assert_eq!(parsed["type"], "Complete");
    assert_eq!(parsed["data"]["kern_label"], kern);
    assert_eq!(parsed["data"]["user_label"], user);
    assert_eq!(parsed["data"]["duration_ms"].as_f64(), Some(12.5));
}

#[test]
fn records_match_the_derived_serialisation_of_the_same_shape() {
    let mut data = serde_json::Map::new();
    data.insert("kern_label".to_string(), serde_json::Value::String("k \"1\"".to_string()));
    data.insert("user_label".to_string(), serde_json::Value::String("u".to_string()));
    let mut record = serde_json::Map::new();
    record.insert("type".to_string(), serde_json::Value::String("Start".to_string()));
    record.insert("data".to_string(), serde_json::Value::Object(data));
    let expected = serde_json::Value::Object(record);
    let parsed: serde_json::Value = serde_json::from_str(&start("k \"1\"", "u")).unwrap();
    assert_eq!(parsed, expected);
}

#[test]
fn frames_take_their_parts_verbatim() {
    assert_eq!(
        frame_start("\"k\"", "\"u\""),
        "{\"type\":\"Start\",\"data\":{\"kern_label\":\"k\",\"user_label\":\"u\"}}"
    );
    assert_eq!(
        frame_complete("\"k\"", "\"u\"", "0.25"),
        "{\"type\":\"Complete\",\"data\":{\"kern_label\":\"k\",\"user_label\":\"u\",\"duration_ms\":0.25}}"
    );
    assert_eq!(
        frame_start("", ""),
        "{\"type\":\"Start\",\"data\":{\"kern_label\":,\"user_label\":}}"
    );
}

/// How one character stands in a JSON string literal.
fn escaped(c: char) -> String {
    match c {
        '"' => "\\\"".to_string(),
        '\\' => "\\\\".to_string(),
        '\u{8}' => "\\b".to_string(),
        '\t' => "\\t".to_string(),
        '\n' => "\\n".to_string(),
        '\u{c}' => "\\f".to_string(),
        '\r' => "\\r".to_string(),
        c if (c as u32) < 0x20 => format!("\\u00{:02x}", c as u32),
        c => c.to_string(),
    }
}

#[test]
fn every_character_is_escaped_as_stated() {
    let mut sample: Vec<char> = (0u32..0x300).filter_map(char::from_u32).collect();
    sample.extend(['\u{7ff}', '\u{800}', '\u{d7ff}', '\u{e000}', '\u{ffff}', '\u{10000}', '\u{10ffff}']);
    for c in sample {
        let label = format!("a{}z", c);
        let expected = format!(
            "{{\"type\":\"Start\",\"data\":{{\"kern_label\":\"a{}z\",\"user_label\":\"{}\"}}}}",
            escaped(c),
            escaped(c)
        );
        assert_eq!(start(&label, &c.to_string()), expected);
    }
}

#[test]
fn control_characters_use_lower_case_hex() {
    assert_eq!(
        start("\u{0}\u{b}\u{1f}", "\u{8}\u{c}\r"),
        "{\"type\":\"Start\",\"data\":{\"kern_label\":\"\\u0000\\u000b\\u001f\",\"user_label\":\"\\b\\f\\r\"}}"
    );
}
