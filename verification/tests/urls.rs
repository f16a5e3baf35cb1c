use sidecar_supervisor::endpoint::Endpoint;
use sidecar_supervisor::endpoint::Scheme;
use sidecar_supervisor::launcher::candidate_relative_paths;
use sidecar_supervisor::launcher::executable_file_name;
use sidecar_supervisor::launcher::launch_environment;

#[test]
fn loopback_endpoint_renders_the_server_url() {
    let ep = Endpoint::loopback_http(5000);
    assert_eq!(ep.url(), "http://localhost:5000");
}

#[test]
fn url_keeps_every_digit_of_the_port() {
    let ep = Endpoint { scheme: Scheme::Https, host: String::from("127.0.0.1"), port: 65535 };
    assert_eq!(ep.url(), "https://127.0.0.1:65535");
}

#[test]
fn single_digit_port_renders_without_padding() {
    let ep = Endpoint::loopback_http(7);
    assert_eq!(ep.url(), "http://localhost:7");
}

#[test]
fn common_ports_render_exactly() {
    assert_eq!(Endpoint::loopback_http(1).url(), "http://localhost:1");
    assert_eq!(Endpoint::loopback_http(80).url(), "http://localhost:80");
    assert_eq!(Endpoint::loopback_http(443).url(), "http://localhost:443");
    assert_eq!(Endpoint::loopback_http(5099).url(), "http://localhost:5099");
}

#[test]
fn executable_name_gets_extension_only_on_windows() {
    assert_eq!(executable_file_name("SBInspector", false), "SBInspector");
    assert_eq!(executable_file_name("SBInspector", true), "SBInspector.exe");
}

#[test]
fn primary_location_is_tried_before_the_dist_fallback() {
    let c = candidate_relative_paths("SBInspector", false);
    assert_eq!(c, vec!["SBInspector".to_string(), "dist/SBInspector".to_string()]);
    let c = candidate_relative_paths("SBInspector", true);
    assert_eq!(c, vec!["SBInspector.exe".to_string(), "dist/SBInspector.exe".to_string()]);
}

#[test]
fn child_environment_carries_mode_and_bind_url() {
    let env = launch_environment("http://localhost:5000");
    assert_eq!(env.len(), 2);
    assert_eq!(env[0].0, "ASPNETCORE_ENVIRONMENT");
    assert_eq!(env[0].1, "Production");
    assert_eq!(env[1].0, "ASPNETCORE_URLS");
    assert_eq!(env[1].1, "http://localhost:5000");
}

#[test]
fn rendered_url_parses_back_to_the_same_target() {
    let ep = Endpoint::loopback_http(5042);
    let url = ep.url();
    let t = sidecar_supervisor::target::parse_probe_target(&url).unwrap();
    assert_eq!(t.host, b"localhost".to_vec());
    assert_eq!(t.port, 5042);
}
