use sidecar_supervisor::errors::ProbeResult;
use sidecar_supervisor::target::parse_probe_target;

#[test]
fn parses_loopback_url() {
    let t = parse_probe_target("http://localhost:5000").unwrap();
    assert_eq!(t.host, b"localhost".to_vec());
    assert_eq!(t.port, 5000);
}

#[test]
fn parses_numeric_host_and_ignores_path() {
    let t = parse_probe_target("http://127.0.0.1:8080/index.html").unwrap();
    assert_eq!(t.host, b"127.0.0.1".to_vec());
    assert_eq!(t.port, 8080);
}

#[test]
fn parses_port_up_to_first_extra_colon() {
    let t = parse_probe_target("https://host:1:2").unwrap();
    assert_eq!(t.host, b"host".to_vec());
    assert_eq!(t.port, 1);
}

#[test]
fn parses_empty_host() {
    let t = parse_probe_target("http://:99").unwrap();
    assert_eq!(t.host, b"".to_vec());
    assert_eq!(t.port, 99);
}

#[test]
fn parses_largest_port() {
    let t = parse_probe_target("http://localhost:65535").unwrap();
    assert_eq!(t.port, 65535);
}

#[test]
fn parses_port_zero_as_written() {
    let t = parse_probe_target("http://localhost:0").unwrap();
    assert_eq!(t.port, 0);
}

#[test]
fn rejects_text_without_scheme_separator() {
    let r = parse_probe_target("localhost:5000");
    assert_eq!(r.err(), Some(ProbeResult::MalformedTarget));
}

#[test]
fn rejects_missing_port_separator() {
    let r = parse_probe_target("http://localhost");
    assert_eq!(r.err(), Some(ProbeResult::MalformedTarget));
}

#[test]
fn rejects_empty_port() {
    let r = parse_probe_target("http://localhost:");
    assert_eq!(r.err(), Some(ProbeResult::MalformedTarget));
}

#[test]
fn rejects_non_digit_port() {
    let r = parse_probe_target("http://localhost:12ab");
    assert_eq!(r.err(), Some(ProbeResult::MalformedTarget));
}

#[test]
fn rejects_port_too_large_for_tcp() {
    let r = parse_probe_target("http://localhost:65536");
    assert_eq!(r.err(), Some(ProbeResult::MalformedTarget));
}

#[test]
fn rejects_empty_text() {
    let r = parse_probe_target("");
    assert_eq!(r.err(), Some(ProbeResult::MalformedTarget));
}

#[test]
fn separator_is_found_after_earlier_plain_colon() {
    let t = parse_probe_target("a:b://c:7").unwrap();
    assert_eq!(t.host, b"c".to_vec());
    assert_eq!(t.port, 7);
}
