use rusty_proxy::args::{find_value, get_port, get_target, parse_port, same_text, DEFAULT_PORT};

fn args(list: &[&str]) -> Vec<String> {
    list.iter().map(|s| s.to_string()).collect()
}

#[test]
fn port_defaults_to_eighty() {
    assert_eq!(DEFAULT_PORT, 80);
    assert_eq!(get_port(&args(&[])), 80);
    assert_eq!(get_port(&args(&["proxy"])), 80);
    assert_eq!(get_port(&args(&["proxy", "--target", "10.0.0.1:22"])), 80);
}

#[test]
fn port_follows_the_flag() {
    assert_eq!(get_port(&args(&["proxy", "--port", "8080"])), 8080);
    assert_eq!(get_port(&args(&["proxy", "--target", "x", "--port", "443"])), 443);
}

#[test]
fn last_port_flag_decides() {
    assert_eq!(get_port(&args(&["proxy", "--port", "8080", "--port", "9090"])), 9090);
    assert_eq!(get_port(&args(&["proxy", "--port", "8080", "--port", "nine"])), 80);
    assert_eq!(get_port(&args(&["proxy", "--port", "--port", "90"])), 90);
}

#[test]
fn port_flag_at_the_end_is_not_counted() {
    assert_eq!(get_port(&args(&["proxy", "--port"])), 80);
    assert_eq!(get_port(&args(&["proxy", "--port", "8080", "--port"])), 8080);
}

#[test]
fn program_name_is_no_flag() {
    assert_eq!(get_port(&args(&["--port", "8080"])), 80);
    assert_eq!(get_port(&args(&["--port", "--port", "8080"])), 8080);
    assert_eq!(get_target(&args(&["--target", "a:1"])), "127.0.0.1:22");
}

#[test]
fn bad_port_falls_back_to_the_default() {
    for text in ["", "abc", "65536", "99999999999999999999", "-1", "8 0", " 80", "80 ", "+", "0x50", "8_0"] {
        assert_eq!(get_port(&args(&["proxy", "--port", text])), 80, "{:?}", text);
    }
}

#[test]
fn port_parsing_agrees_with_the_standard_parser() {
    let texts = [
        "0", "1", "80", "080", "00000000000000000080", "+80", "++80", "+-80", "65535", "65536",
        "655350", "6553a", "a6553", "", "+", "-", "-0", "12345", "٣", "1٣", "４", "99999",
        "4294967376", "18446744073709551696",
    ];
    for text in texts {
        assert_eq!(parse_port(text), text.parse::<u16>().ok(), "{:?}", text);
    }
}

#[test]
fn target_defaults_to_local_ssh() {
    assert_eq!(get_target(&args(&["proxy"])), "127.0.0.1:22");
    assert_eq!(get_target(&args(&["proxy", "--target"])), "127.0.0.1:22");
}

#[test]
fn target_follows_the_last_flag() {
    assert_eq!(get_target(&args(&["proxy", "--target", "10.0.0.1:2222"])), "10.0.0.1:2222");
    assert_eq!(
        get_target(&args(&["proxy", "--target", "a:1", "--port", "1", "--target", "b:2"])),
        "b:2"
    );
    assert_eq!(get_target(&args(&["proxy", "--target", "--target", "c:3"])), "c:3");
}

#[test]
fn flag_value_place() {
    assert_eq!(find_value(&args(&["proxy", "--port", "1"]), "--port"), Some(2));
    assert_eq!(find_value(&args(&["proxy", "--port"]), "--port"), None);
    assert_eq!(find_value(&args(&["proxy", "--PORT", "1"]), "--port"), None);
    assert!(same_text("--port", "--port"));
    assert!(!same_text("--port", "--porT"));
    assert!(!same_text("--port", "--por"));
    assert!(same_text("", ""));
}
