use opencode_desktop::ports::{
    first_port_step, loopback_address, next_port_step, port_from_env, probe_port, PortStep,
    SCAN_FIRST_PORT, SCAN_LAST_PORT,
};
use opencode_desktop::text::{chars_of, contains_text, decimal_text, parse_u32};

#[test]
fn decimal_text_renders_numbers() {
    assert_eq!(decimal_text(0), "0");
    assert_eq!(decimal_text(7), "7");
    assert_eq!(decimal_text(10420), "10420");
    assert_eq!(decimal_text(65535), "65535");
    assert_eq!(decimal_text(u32::MAX), "4294967295");
}

#[test]
fn parse_u32_accepts_what_from_str_accepts() {
    assert_eq!(parse_u32("4096"), Some(4096));
    assert_eq!(parse_u32("+12"), Some(12));
    assert_eq!(parse_u32("007"), Some(7));
    assert_eq!(parse_u32("4294967295"), Some(u32::MAX));
    for s in ["4096", "+12", "007", "0", "4294967295", "99999999999"] {
        assert_eq!(parse_u32(s), s.parse::<u32>().ok(), "{s}");
    }
}

#[test]
fn parse_u32_refuses_what_from_str_refuses() {
    for s in ["", "+", "-1", "-0", "4294967296", "99999999999", "12a", " 1", "1 ", "++1", "0x10"] {
        assert_eq!(parse_u32(s), None, "{s}");
        assert_eq!(s.parse::<u32>().ok(), None, "{s}");
    }
}

#[test]
fn rendered_numbers_read_back() {
    for n in [0u32, 1, 9, 10, 99, 100, 10420, 65535, 123456789, u32::MAX] {
        assert_eq!(parse_u32(&decimal_text(n)), Some(n));
    }
}

#[test]
fn contains_text_finds_substrings() {
    assert!(contains_text("address already in use", "already"));
    assert!(contains_text("abc", ""));
    assert!(contains_text("abc", "abc"));
    assert!(!contains_text("abc", "abcd"));
    assert!(!contains_text("ab c", "bc"));
    assert!(contains_text("héllo wörld", "ö"));
    assert_eq!(chars_of("héllo"), vec!['h', 'é', 'l', 'l', 'o']);
}

#[test]
fn port_from_env_prefers_build_time_value() {
    assert_eq!(port_from_env(Some("5000"), Some("6000")), Some(5000));
    assert_eq!(port_from_env(Some("junk"), Some("6000")), Some(6000));
    assert_eq!(port_from_env(None, Some("6000")), Some(6000));
    assert_eq!(port_from_env(None, Some("x")), None);
    assert_eq!(port_from_env(Some("x"), None), None);
    assert_eq!(port_from_env(None, None), None);
    assert_eq!(port_from_env(Some("70000"), None), Some(70000));
}

#[test]
fn port_scan_steps_through_the_range() {
    assert_eq!(first_port_step(Some(4242)), PortStep::Use(4242));
    assert_eq!(first_port_step(None), PortStep::TryBind(SCAN_FIRST_PORT));
    assert_eq!(SCAN_FIRST_PORT, 10420);
    assert_eq!(next_port_step(10420, true), PortStep::Use(10420));
    assert_eq!(next_port_step(10420, false), PortStep::TryBind(10421));
    assert_eq!(next_port_step(SCAN_LAST_PORT, false), PortStep::Ephemeral);
    assert_eq!(next_port_step(SCAN_LAST_PORT, true), PortStep::Use(65535));
}

#[test]
fn port_scan_picks_lowest_bindable_port() {
    // Ports below 10425 are taken; the scan must settle on 10425.
    let bindable = |p: u32| p >= 10425;
    let mut step = first_port_step(None);
    let chosen = loop {
        match step {
            PortStep::TryBind(p) => step = next_port_step(p, bindable(p)),
            PortStep::Use(p) => break Some(p),
            PortStep::Ephemeral => break None,
        }
    };
    assert_eq!(chosen, Some(10425));
}

#[test]
fn port_scan_falls_back_to_ephemeral() {
    let mut step = first_port_step(None);
    let mut tries = 0u32;
    let chosen = loop {
        match step {
            PortStep::TryBind(p) => {
                tries += 1;
                step = next_port_step(p, false)
            }
            PortStep::Use(p) => break Some(p),
            PortStep::Ephemeral => break None,
        }
    };
    assert_eq!(chosen, None);
    assert_eq!(tries, 65535 - 10420 + 1);
}

#[test]
fn loopback_address_and_probe_port() {
    assert_eq!(loopback_address(10420), "127.0.0.1:10420");
    assert_eq!(loopback_address(0), "127.0.0.1:0");
    assert_eq!(probe_port(10420), 10420);
    assert_eq!(probe_port(70000), 4464);
    assert_eq!(probe_port(70000), 70000u32 as u16);
}
