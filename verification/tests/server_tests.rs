use bili_relay::server::build_proxy_url;
use bili_relay::server::port_candidates;
use bili_relay::server::proxy_audio_action;
use bili_relay::server::start_action;
use bili_relay::server::start_finish;
use bili_relay::server::ProxyAudioAction;
use bili_relay::server::ProxyServerStatus;
use bili_relay::server::StartAction;
use bili_relay::PROXY_PORT_RANGE_END;
use bili_relay::PROXY_PORT_RANGE_START;

#[test]
fn port_range_constants() {
    assert_eq!(PROXY_PORT_RANGE_START, 8000);
    assert_eq!(PROXY_PORT_RANGE_END, 9000);
}

#[test]
fn candidate_ports_scan_the_range_ascending() {
    let ports = port_candidates();
    assert_eq!(ports.len(), 1000);
    assert_eq!(ports[0], 8000);
    assert_eq!(ports[1], 8001);
    assert_eq!(ports[999], 8999);
}

#[test]
fn start_on_running_server_reuses_the_port() {
    assert_eq!(
        start_action(&ProxyServerStatus::Running(8042)),
        StartAction::UsePort(8042)
    );
    assert_eq!(start_action(&ProxyServerStatus::NotStarted), StartAction::Bind);
}

#[test]
fn start_twice_yields_the_same_port_and_one_bind() {
    let (state, answer) = start_finish(Some(8005));
    assert_eq!(state, ProxyServerStatus::Running(8005));
    assert_eq!(answer, Ok(8005));
    // The second start sees the running state and asks for no further bind.
    assert_eq!(start_action(&state), StartAction::UsePort(8005));
}

#[test]
fn exhausted_port_range_is_a_resource_error() {
    let (state, answer) = start_finish(None);
    assert_eq!(state, ProxyServerStatus::NotStarted);
    assert_eq!(answer, Err("no available port".to_string()));
}

#[test]
fn empty_url_is_an_input_error() {
    assert_eq!(build_proxy_url("", 8000), Err("URL empty".to_string()));
}

#[test]
fn empty_url_asks_for_no_start_or_bind() {
    let not_started = proxy_audio_action("", &ProxyServerStatus::NotStarted);
    assert_eq!(not_started, ProxyAudioAction::Fail("URL empty".to_string()));
    let running = proxy_audio_action("", &ProxyServerStatus::Running(8000));
    assert_eq!(running, ProxyAudioAction::Fail("URL empty".to_string()));
}

#[test]
fn proxy_url_is_built_on_the_running_port() {
    let url = build_proxy_url("https://example.com/a.m4a", 8000).unwrap();
    assert_eq!(url, "http://127.0.0.1:8000/proxy/https%3A%2F%2Fexample.com%2Fa.m4a");
    let action = proxy_audio_action("https://example.com/a.m4a", &ProxyServerStatus::Running(8123));
    assert_eq!(
        action,
        ProxyAudioAction::Respond(
            "http://127.0.0.1:8123/proxy/https%3A%2F%2Fexample.com%2Fa.m4a".to_string()
        )
    );
}

#[test]
fn proxy_url_path_decodes_back_to_the_target() {
    let url = build_proxy_url("https://example.com/a.m4a", 8000).unwrap();
    let path = url.strip_prefix("http://127.0.0.1:8000/proxy/").unwrap();
    assert_eq!(
        bili_relay::codec::decode_target_url(path),
        Some("https://example.com/a.m4a".to_string())
    );
}

#[test]
fn nonempty_url_waits_for_the_server() {
    let action = proxy_audio_action("https://example.com", &ProxyServerStatus::NotStarted);
    assert_eq!(action, ProxyAudioAction::StartServer);
}

#[test]
fn proxy_url_renders_any_port() {
    assert_eq!(
        build_proxy_url("a", 7).unwrap(),
        "http://127.0.0.1:7/proxy/a"
    );
    assert_eq!(
        build_proxy_url("a", 65535).unwrap(),
        "http://127.0.0.1:65535/proxy/a"
    );
}
