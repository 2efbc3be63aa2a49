use bili_relay::client::bilibili_header_list;
use bili_relay::client::client_action;
use bili_relay::client::client_finish;
use bili_relay::client::user_agent;
use bili_relay::client::ClientAction;
use bili_relay::client::ClientStatus;
use bili_relay::commands::download_file_name;
use bili_relay::commands::progress_percent;
use bili_relay::commands::sanitize_filename;
use bili_relay::commands::select_method;
use bili_relay::commands::should_forward_header;
use bili_relay::commands::CloseActionState;
use bili_relay::commands::HttpMethod;
use bili_relay::error::AppError;

#[test]
fn sanitize_replaces_every_forbidden_character() {
    assert_eq!(sanitize_filename("a<b>c:d\"e/f\\g|h?i*j"), "a_b_c_d_e_f_g_h_i_j");
}

#[test]
fn sanitize_keeps_ordinary_names() {
    assert_eq!(sanitize_filename("my song 01.m4a"), "my song 01.m4a");
    assert_eq!(sanitize_filename(""), "");
    assert_eq!(sanitize_filename("\u{97f3}\u{4e50}"), "\u{97f3}\u{4e50}");
}

#[test]
fn download_names_carry_the_kind_extension() {
    assert_eq!(
        download_file_name("my:video", &Some("video".to_string())),
        "my_video.mp4"
    );
    assert_eq!(
        download_file_name("my song", &Some("audio".to_string())),
        "my song.m4a"
    );
    assert_eq!(download_file_name("my song", &None), "my song.m4a");
}

#[test]
fn progress_is_whole_percent() {
    assert_eq!(progress_percent(50, 200), 25);
    assert_eq!(progress_percent(0, 5), 0);
    assert_eq!(progress_percent(200, 200), 100);
    assert_eq!(progress_percent(1, 3), 33);
}

#[test]
fn methods_map_to_themselves_and_default_to_get() {
    assert_eq!(select_method(&None), Ok(HttpMethod::Get));
    assert_eq!(select_method(&Some("GET".to_string())), Ok(HttpMethod::Get));
    assert_eq!(select_method(&Some("POST".to_string())), Ok(HttpMethod::Post));
    assert_eq!(select_method(&Some("PUT".to_string())), Ok(HttpMethod::Put));
    assert_eq!(select_method(&Some("DELETE".to_string())), Ok(HttpMethod::Delete));
}

#[test]
fn unknown_methods_are_rejected() {
    assert_eq!(
        select_method(&Some("PATCH".to_string())),
        Err("不支持的 HTTP 方法: PATCH".to_string())
    );
    assert_eq!(
        select_method(&Some("get".to_string())),
        Err("不支持的 HTTP 方法: get".to_string())
    );
}

#[test]
fn cookie_headers_are_never_forwarded() {
    assert!(!should_forward_header("cookie"));
    assert!(!should_forward_header("Cookie"));
    assert!(!should_forward_header("COOKIE"));
    assert!(should_forward_header("content-type"));
    assert!(should_forward_header("cookies"));
    assert!(should_forward_header(""));
}

#[test]
fn close_action_defaults_to_quit() {
    let state = CloseActionState::new();
    assert_eq!(state.get(), "quit");
}

#[test]
fn close_action_remembers_the_last_setting() {
    let mut state = CloseActionState::new();
    state.set("hide".to_string());
    assert_eq!(state.get(), "hide");
    state.set("quit".to_string());
    assert_eq!(state.get(), "quit");
}

#[test]
fn errors_render_with_their_category() {
    assert_eq!(AppError::Network("x".to_string()).message(), "网络错误: x");
    assert_eq!(AppError::Io("y".to_string()).message(), "IO 错误: y");
    assert_eq!(AppError::InvalidInput("z".to_string()).message(), "无效参数: z");
    assert_eq!(AppError::System("w".to_string()).message(), "系统错误: w");
}

#[test]
fn identity_headers_match_the_media_host() {
    let headers = bilibili_header_list();
    assert_eq!(headers.len(), 3);
    assert_eq!(headers[0].0, "Referer");
    assert_eq!(headers[0].1, "https://www.bilibili.com");
    assert_eq!(headers[1].0, "Origin");
    assert_eq!(headers[1].1, "https://www.bilibili.com");
    assert_eq!(headers[2].0, "User-Agent");
    assert_eq!(headers[2].1, user_agent());
    assert!(user_agent().contains("Chrome/120.0.0.0"));
}

#[test]
fn client_is_built_once_and_cached() {
    assert_eq!(client_action(&ClientStatus::NotBuilt), ClientAction::Build);
    let (state, answer) = client_finish(None, true);
    assert_eq!(state, ClientStatus::Ready);
    assert_eq!(answer, Ok(()));
    // Every later request uses the cache; nothing is built again.
    assert_eq!(client_action(&state), ClientAction::UseCached);
}

#[test]
fn failed_build_is_surfaced_and_retried() {
    let (state, answer) = client_finish(Some("tls".to_string()), true);
    assert_eq!(state, ClientStatus::NotBuilt);
    assert_eq!(answer, Err("创建 HTTP 客户端失败: tls".to_string()));
    // Nothing was cached, so a later request builds again.
    assert_eq!(client_action(&state), ClientAction::Build);
}

#[test]
fn prewarm_outcome_is_discarded() {
    assert_eq!(client_finish(None, true), client_finish(None, false));
    assert_eq!(
        client_finish(Some("x".to_string()), true),
        client_finish(Some("x".to_string()), false)
    );
}
