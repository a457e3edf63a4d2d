use zeroclaw::bridge::{
    build_tool_message, get_endpoint, install_session, prepare_message_call, render_reply,
    stop_session, tool_result_envelope, BridgeError,
};
use zeroclaw::config::SessionConfig;
use zeroclaw::registry::init_handles;

fn base_config(host: &str, api_key: Option<&str>) -> SessionConfig {
    SessionConfig {
        api_key: api_key.map(String::from),
        default_model: None,
        default_provider: None,
        gateway_host: String::from(host),
        gateway_port: 3000,
        require_pairing: true,
        android_enabled: false,
        bridge_mode: String::from("none"),
        telegram: None,
    }
}

#[test]
fn test_handle_generation() {
    let mut reg = init_handles();
    let id1 = reg.next_handle_id();
    let id2 = reg.next_handle_id();
    assert!(id2 > id1, "IDs should be monotonically increasing");
}

#[test]
fn handles_stay_distinct_across_sessions() {
    let mut reg = init_handles();
    let mut seen = Vec::new();
    for _ in 0..100 {
        let id = reg.next_handle_id();
        assert!(id > 0);
        assert!(!seen.contains(&id));
        seen.push(id);
    }
    assert!(seen.windows(2).all(|w| w[0] < w[1]));
}

#[test]
fn stop_makes_handle_unhealthy_and_second_stop_fails() {
    let mut reg = init_handles();
    let ctx = tokio::runtime::Runtime::new().unwrap();
    let h = install_session(
        &mut reg,
        base_config("127.0.0.1", None),
        String::from("key"),
        String::new(),
        String::new(),
        ctx,
    );
    assert!(reg.is_healthy(h));
    assert!(reg.lookup(h).is_some());
    assert!(reg.context_of(h).is_some());
    assert!(stop_session(&mut reg, h).is_ok());
    assert!(!reg.is_healthy(h));
    assert!(reg.lookup(h).is_none());
    assert!(reg.context_of(h).is_none());
    match stop_session(&mut reg, h) {
        Err(BridgeError::InvalidHandle) => {}
        _ => panic!("stopping a stopped handle must be refused as invalid"),
    }
}

#[test]
fn start_session_issues_a_live_handle() {
    let mut reg = init_handles();
    let handle = zeroclaw::bridge::start_session(
        &mut reg,
        base_config("127.0.0.1", None),
        String::from("X"),
        String::from("Y"),
        String::new(),
    )
    .expect("runtime creation must succeed here");
    assert!(handle > 0);
    assert!(reg.is_healthy(handle));
    let config = prepare_message_call(&reg, handle).unwrap();
    assert_eq!(config.api_key.as_deref(), Some("X"));
    assert_eq!(config.default_model.as_deref(), Some("Y"));
}

#[test]
fn stop_of_never_issued_handle_is_invalid() {
    let mut reg = init_handles();
    match stop_session(&mut reg, 42) {
        Err(BridgeError::InvalidHandle) => {}
        _ => panic!("a never-issued handle must be refused as invalid"),
    }
}

#[test]
fn in_flight_context_survives_stop() {
    let mut reg = init_handles();
    let h = install_session(
        &mut reg,
        base_config("127.0.0.1", None),
        String::new(),
        String::new(),
        String::new(),
        tokio::runtime::Runtime::new().unwrap(),
    );
    let context = reg.context_of(h).unwrap();
    stop_session(&mut reg, h).unwrap();
    let v = context.block_on(async { 41 + 1 });
    assert_eq!(v, 42);
}

#[test]
fn message_call_on_unknown_handle_is_refused_promptly() {
    let reg = init_handles();
    match prepare_message_call(&reg, 7) {
        Err(BridgeError::InvalidHandle) => {}
        _ => panic!("an unknown handle must be refused"),
    }
}

#[test]
fn sessions_do_not_observe_each_other() {
    let mut reg = init_handles();
    let h1 = install_session(
        &mut reg,
        base_config("127.0.0.1", None),
        String::from("key-one"),
        String::from("model-one"),
        String::new(),
        tokio::runtime::Runtime::new().unwrap(),
    );
    let h2 = install_session(
        &mut reg,
        base_config("127.0.0.1", None),
        String::from("key-two"),
        String::from("model-two"),
        String::new(),
        tokio::runtime::Runtime::new().unwrap(),
    );
    let c1 = prepare_message_call(&reg, h1).unwrap();
    let c2 = prepare_message_call(&reg, h2).unwrap();
    assert_eq!(c1.api_key.as_deref(), Some("key-one"));
    assert_eq!(c1.default_model.as_deref(), Some("model-one"));
    assert_eq!(c2.api_key.as_deref(), Some("key-two"));
    assert_eq!(c2.default_model.as_deref(), Some("model-two"));
}

#[test]
fn round_trip_endpoint_and_fresh_key_on_restart() {
    let mut reg = init_handles();
    let h1 = install_session(
        &mut reg,
        base_config("127.0.0.1", Some("stale")),
        String::from("X"),
        String::from("Y"),
        String::new(),
        tokio::runtime::Runtime::new().unwrap(),
    );
    let c1 = prepare_message_call(&reg, h1).unwrap();
    assert_eq!(c1.api_key.as_deref(), Some("X"));
    assert_eq!(c1.default_model.as_deref(), Some("Y"));
    assert_eq!(get_endpoint(&reg, h1).unwrap(), "http://127.0.0.1:8000");
    stop_session(&mut reg, h1).unwrap();
    let h2 = install_session(
        &mut reg,
        base_config("127.0.0.1", Some("stale")),
        String::from("Z"),
        String::new(),
        String::new(),
        tokio::runtime::Runtime::new().unwrap(),
    );
    assert_ne!(h1, h2);
    let c2 = prepare_message_call(&reg, h2).unwrap();
    assert_eq!(c2.api_key.as_deref(), Some("Z"));
}

#[test]
fn endpoint_of_unknown_handle_is_invalid() {
    let reg = init_handles();
    match get_endpoint(&reg, 1) {
        Err(BridgeError::InvalidHandle) => {}
        _ => panic!("an unknown handle must be refused"),
    }
}

#[test]
fn empty_override_keeps_base_configuration() {
    let mut reg = init_handles();
    let h = install_session(
        &mut reg,
        base_config("10.0.0.2", Some("from-base")),
        String::new(),
        String::new(),
        String::new(),
        tokio::runtime::Runtime::new().unwrap(),
    );
    let c = prepare_message_call(&reg, h).unwrap();
    assert_eq!(c.api_key.as_deref(), Some("from-base"));
    assert_eq!(c.default_provider.as_deref(), Some("openrouter"));
    assert_eq!(c.gateway_port, 8000);
    assert!(!c.require_pairing);
    assert!(c.android_enabled);
    assert_eq!(c.bridge_mode, "http");
    assert_eq!(get_endpoint(&reg, h).unwrap(), "http://10.0.0.2:8000");
}

#[test]
fn telegram_token_override_installs_channel() {
    let mut reg = init_handles();
    let h = install_session(
        &mut reg,
        base_config("127.0.0.1", None),
        String::new(),
        String::new(),
        String::from("123:ABC"),
        tokio::runtime::Runtime::new().unwrap(),
    );
    let c = prepare_message_call(&reg, h).unwrap();
    let t = c.telegram.expect("the telegram channel must be configured");
    assert_eq!(t.bot_token, "123:ABC");
    assert!(t.allowed_users.is_empty());
}

#[test]
fn reply_rendering_tags_internal_failures() {
    assert_eq!(render_reply(Ok(String::from("fine"))), "fine");
    assert_eq!(
        render_reply(Err(String::from("boom"))),
        "Error processing message: boom"
    );
}

#[test]
fn tool_message_and_envelope_are_exact() {
    assert_eq!(
        build_tool_message("shell", "{\"cmd\":\"ls\"}"),
        "Execute tool: shell with params: {\"cmd\":\"ls\"}"
    );
    assert_eq!(
        tool_result_envelope(Ok(String::from("done"))),
        "{\"result\":\"done\",\"success\":true}"
    );
    assert_eq!(
        tool_result_envelope(Err(String::from("bad \"quote\""))),
        "{\"error\":\"bad \\\"quote\\\"\",\"success\":false}"
    );
}
