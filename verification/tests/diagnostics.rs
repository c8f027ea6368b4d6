use echo_service::headers::check_header_value;
use echo_service::request_id::resolve_request_id;

#[test]
fn printable_values_are_legal() {
    assert!(check_header_value("curl/8.0.1"));
    assert!(check_header_value(""));
    assert!(check_header_value("with\ttab"));
    assert!(check_header_value("snowman \u{2603}"));
}

#[test]
fn control_characters_are_illegal() {
    assert!(!check_header_value("bell\u{7}"));
    assert!(!check_header_value("line\nbreak"));
    assert!(!check_header_value("del\u{7f}"));
}

#[test]
fn inbound_request_id_is_kept_verbatim() {
    let id = resolve_request_id(Some(String::from("trace-0042")));
    assert_eq!(id, "trace-0042");
}

#[test]
fn generated_request_id_is_uuid_shaped() {
    let id = resolve_request_id(None);
    assert_eq!(id.len(), 36);
    for (i, c) in id.chars().enumerate() {
        if i == 8 || i == 13 || i == 18 || i == 23 {
            assert_eq!(c, '-');
        } else {
            assert!(c.is_ascii_hexdigit() && !c.is_ascii_uppercase());
        }
    }
}

#[test]
fn generated_request_ids_differ() {
    let a = resolve_request_id(None);
    let b = resolve_request_id(None);
    assert_ne!(a, b);
}
