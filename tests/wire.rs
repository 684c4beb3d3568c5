use rafters_docs::protocol::{is_stylesheet_path, HmrMessage};

#[test]
fn frames_each_message_kind() {
    assert_eq!(
        HmrMessage::Connected { generation: 7 }.to_json(),
        r#"{"type":"connected","generation":7}"#
    );
    assert_eq!(HmrMessage::Reload { generation: 120 }.to_json(), r#"{"type":"reload","generation":120}"#);
    assert_eq!(
        HmrMessage::CssUpdate { generation: 3, paths: vec!["a.css".to_string(), "b/c.css".to_string()] }
            .to_json(),
        r#"{"type":"css-update","generation":3,"paths":["a.css","b/c.css"]}"#
    );
    assert_eq!(
        HmrMessage::BuildError { generation: 0, message: "bad \"x\"\n".to_string() }.to_json(),
        r#"{"type":"error","generation":0,"message":"bad \"x\"\n"}"#
    );
}

#[test]
fn escapes_control_characters() {
    let m = HmrMessage::BuildError { generation: 18446744073709551615, message: "a\\b\t\u{1}".to_string() };
    assert_eq!(m.to_json(), r#"{"type":"error","generation":18446744073709551615,"message":"a\\b\t\u0001"}"#);
}

#[test]
fn empty_css_update_list() {
    assert_eq!(
        HmrMessage::CssUpdate { generation: 1, paths: vec![] }.to_json(),
        r#"{"type":"css-update","generation":1,"paths":[]}"#
    );
}

#[test]
fn recognises_stylesheets() {
    assert!(is_stylesheet_path("style.css"));
    assert!(is_stylesheet_path("a/b/.css"));
    assert!(!is_stylesheet_path("css"));
    assert!(!is_stylesheet_path("style.scss.map"));
    assert!(!is_stylesheet_path("index.html"));
}

#[test]
fn message_generation() {
    assert_eq!(HmrMessage::BuildError { generation: 9, message: String::new() }.generation(), 9);
    assert_eq!(HmrMessage::Connected { generation: 2 }.generation(), 2);
}
