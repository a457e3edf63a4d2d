use zeroclaw::gate::{AutonomyLevel, SecurityPolicy};
use zeroclaw::notify::{NotifyStep, TelegramNotifyTool};

fn test_security(level: AutonomyLevel, max_actions_per_hour: u32) -> SecurityPolicy {
    SecurityPolicy::new(level, max_actions_per_hour)
}

fn test_tool(level: AutonomyLevel, max_actions_per_hour: u32) -> TelegramNotifyTool {
    TelegramNotifyTool::new(
        test_security(level, max_actions_per_hour),
        "123:ABC".into(),
        "987654321".into(),
    )
}

#[test]
fn tool_name() {
    let tool = test_tool(AutonomyLevel::Full, 100);
    assert_eq!(tool.name(), "telegram_notify");
}

#[test]
fn tool_description_non_empty() {
    let tool = test_tool(AutonomyLevel::Full, 100);
    assert!(!tool.description().is_empty());
}

#[test]
fn tool_requires_message_param() {
    let tool = test_tool(AutonomyLevel::Full, 100);
    let schema: serde_json::Value = serde_json::from_str(&tool.parameters_schema()).unwrap();
    let required = schema["required"].as_array().unwrap();
    assert!(required.contains(&serde_json::Value::String("message".to_string())));
}

#[test]
fn execute_blocks_readonly_mode() {
    let mut tool = test_tool(AutonomyLevel::ReadOnly, 100);
    let result = match tool.execute("{\"message\":\"hello\"}") {
        NotifyStep::Done(t) => t,
        _ => panic!("a read-only policy must block the action"),
    };
    assert!(!result.success);
    assert!(result.error.unwrap().contains("read-only"));
}

#[test]
fn execute_blocks_rate_limit() {
    let mut tool = test_tool(AutonomyLevel::Full, 0);
    let result = match tool.execute("{\"message\":\"hello\"}") {
        NotifyStep::Done(t) => t,
        _ => panic!("an exhausted window must block the action"),
    };
    assert!(!result.success);
    assert!(result.error.unwrap().contains("rate limit"));
}

#[test]
fn readonly_refusal_leaves_counter_untouched() {
    let mut tool = test_tool(AutonomyLevel::ReadOnly, 100);
    for _ in 0..3 {
        match tool.execute("{\"message\":\"hello\"}") {
            NotifyStep::Done(_) => {}
            _ => panic!("a read-only policy must block the action"),
        }
    }
    assert_eq!(tool.security.action_count, 0);
}

#[test]
fn window_admits_exactly_the_limit_in_order() {
    let mut tool = test_tool(AutonomyLevel::Full, 2);
    for _ in 0..2 {
        match tool.execute("{\"message\":\"hello\"}") {
            NotifyStep::Request(_) => {}
            _ => panic!("an attempt under the limit must be admitted"),
        }
    }
    let third = match tool.execute("{\"message\":\"hello\"}") {
        NotifyStep::Done(t) => t,
        _ => panic!("the attempt past the limit must be refused"),
    };
    assert!(!third.success);
    assert!(third.error.unwrap().contains("rate limit"));
    assert_eq!(tool.security.action_count, 2);
}

#[test]
fn window_reset_restores_budget() {
    let mut tool = test_tool(AutonomyLevel::Full, 1);
    assert!(matches!(
        tool.execute("{\"message\":\"hello\"}"),
        NotifyStep::Request(_)
    ));
    assert!(matches!(
        tool.execute("{\"message\":\"hello\"}"),
        NotifyStep::Done(_)
    ));
    tool.security.reset_window();
    assert!(matches!(
        tool.execute("{\"message\":\"hello\"}"),
        NotifyStep::Request(_)
    ));
}

#[test]
fn missing_or_blank_message_is_invalid_but_counted() {
    let mut tool = test_tool(AutonomyLevel::Full, 10);
    match tool.execute("{}") {
        NotifyStep::Invalid(e) => assert_eq!(e, "Missing 'message' parameter"),
        _ => panic!("an absent message must be invalid"),
    }
    match tool.execute("{\"message\":\"   \"}") {
        NotifyStep::Invalid(e) => assert_eq!(e, "Missing 'message' parameter"),
        _ => panic!("a blank message must be invalid"),
    }
    assert_eq!(tool.security.action_count, 2);
}

#[test]
fn admitted_request_is_the_exact_post() {
    let mut tool = test_tool(AutonomyLevel::Full, 10);
    let request = match tool.execute("{\"message\":\"  hello *world*  \"}") {
        NotifyStep::Request(q) => q,
        _ => panic!("the attempt must be admitted"),
    };
    assert_eq!(
        request.url,
        "https://api.telegram.org/bot123:ABC/sendMessage"
    );
    assert_eq!(
        request.body,
        "{\"chat_id\":\"987654321\",\"parse_mode\":\"Markdown\",\"text\":\"hello *world*\"}"
    );
    let body: serde_json::Value = serde_json::from_str(&request.body).unwrap();
    assert_eq!(body["chat_id"], "987654321");
    assert_eq!(body["text"], "hello *world*");
}

#[test]
fn finish_reports_http_status_failures() {
    let tool = test_tool(AutonomyLevel::Full, 10);
    let result = tool.finish(false, "404 Not Found", String::from("oops"));
    assert!(!result.success);
    assert_eq!(result.output, "oops");
    assert_eq!(
        result.error.unwrap(),
        "Telegram API returned status 404 Not Found"
    );
}

#[test]
fn finish_reads_the_ok_flag() {
    let tool = test_tool(AutonomyLevel::Full, 10);
    let sent = tool.finish(true, "200 OK", String::from("{\"ok\":true}"));
    assert!(sent.success);
    assert_eq!(sent.output, "Telegram message sent to chat 987654321.");
    assert!(sent.error.is_none());

    let refused = tool.finish(true, "200 OK", String::from("{\"ok\":false}"));
    assert!(!refused.success);
    assert_eq!(refused.output, "{\"ok\":false}");
    assert_eq!(refused.error.unwrap(), "Telegram API returned ok=false");

    let malformed = tool.finish(true, "200 OK", String::from("not json"));
    assert!(!malformed.success);
    assert_eq!(malformed.error.unwrap(), "Telegram API returned ok=false");
}

#[test]
fn send_message_url_embeds_the_token() {
    let tool = test_tool(AutonomyLevel::Full, 10);
    assert_eq!(
        tool.send_message_url(),
        "https://api.telegram.org/bot123:ABC/sendMessage"
    );
}
