use radarflow::cli::{parse_usize, poll_in_range, port_in_range, valid_path, version_text};

#[test]
fn parse_usize_reads_digits() {
    assert_eq!(parse_usize("0"), Some(0));
    assert_eq!(parse_usize("8080"), Some(8080));
    assert_eq!(parse_usize("+42"), Some(42));
    assert_eq!(parse_usize("007"), Some(7));
}

#[test]
fn parse_usize_refuses_what_str_parse_refuses() {
    for s in ["", "+", "-1", " 1", "1 ", "1_000", "12a", "++1", "0x10"] {
        assert_eq!(parse_usize(s), None, "{s}");
        assert!(s.parse::<usize>().is_err());
    }
}

#[test]
fn parse_usize_agrees_with_str_parse() {
    for s in ["0", "1", "65535", "4294967295", "18446744073709551615", "18446744073709551616", "99999999999999999999"] {
        assert_eq!(parse_usize(s), s.parse::<usize>().ok(), "{s}");
    }
}

#[test]
fn plus_sign_changes_nothing() {
    assert_eq!(parse_usize("+8000"), parse_usize("8000"));
    assert_eq!(parse_usize("+"), parse_usize(""));
}

#[test]
fn port_in_range_accepts_the_range() {
    assert_eq!(port_in_range("8000"), Ok(8000));
    assert_eq!(port_in_range("65535"), Ok(65535));
    assert_eq!(port_in_range("+8080"), Ok(8080));
}

#[test]
fn port_in_range_refuses_outside_the_range() {
    assert_eq!(port_in_range("7999"), Err("port not in range 8000-65535".to_string()));
    assert_eq!(port_in_range("65536"), Err("port not in range 8000-65535".to_string()));
    assert_eq!(port_in_range("0"), Err("port not in range 8000-65535".to_string()));
}

#[test]
fn port_in_range_refuses_text() {
    assert_eq!(port_in_range("http"), Err("`http` isn't a port number".to_string()));
    assert_eq!(port_in_range(""), Err("`` isn't a port number".to_string()));
    assert_eq!(port_in_range("-8000"), Err("`-8000` isn't a port number".to_string()));
}

#[test]
fn poll_in_range_accepts_the_range() {
    assert_eq!(poll_in_range("1"), Ok(1));
    assert_eq!(poll_in_range("60"), Ok(60));
    assert_eq!(poll_in_range("1000"), Ok(1000));
}

#[test]
fn poll_in_range_refuses() {
    assert_eq!(poll_in_range("0"), Err("not in range 1-1000".to_string()));
    assert_eq!(poll_in_range("1001"), Err("not in range 1-1000".to_string()));
    assert_eq!(poll_in_range("fast"), Err("`fast` isn't a valid number".to_string()));
    assert_eq!(poll_in_range("99999999999999999999999"), Err("`99999999999999999999999` isn't a valid number".to_string()));
}

#[test]
fn valid_path_needs_an_existing_directory() {
    assert_eq!(valid_path("./web", false, false), Err("Path does not exist".to_string()));
    assert_eq!(valid_path("./web", false, true), Err("Path does not exist".to_string()));
    assert_eq!(valid_path("./web/index.html", true, false), Err("Path is not a directory".to_string()));
    assert_eq!(valid_path("./web", true, true), Ok("./web".to_string()));
}

#[test]
fn version_text_lists_everything() {
    let names = vec!["qemu".to_string(), "kvm".to_string()];
    assert_eq!(
        version_text("0.2.0", Some("abc123"), Some("2024-01-01"), &names),
        " 0.2.0 (rev abc123)\nCommit Date: 2024-01-01\nAvailable Connectors: qemu, kvm"
    );
}

#[test]
fn version_text_fills_in_unknowns() {
    let names: Vec<String> = Vec::new();
    assert_eq!(version_text("1.0.0", None, None, &names), " 1.0.0 (rev unknown)\nCommit Date: unknown\nAvailable Connectors: ");
    let one = vec!["pcileech".to_string()];
    assert_eq!(version_text("1.0.0", None, Some("today"), &one), " 1.0.0 (rev unknown)\nCommit Date: today\nAvailable Connectors: pcileech");
}

#[test]
fn version_names_this_machines_connectors() {
    let text = radarflow::cli::version("2.0.0", Some("f00d"), None);
    assert!(text.starts_with(" 2.0.0 (rev f00d)\nCommit Date: unknown\nAvailable Connectors: "));
}
