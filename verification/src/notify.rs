//! The notification tool: the one side-effecting action a session takes on
//! the caller's behalf, gated by the shared security policy.
//!
//! The library performs both gate checks, validates the arguments, and
//! pins down the exact request the host may send and the exact result the
//! tool reports for every response; the host performs the one HTTP post
//! between [`TelegramNotifyTool::execute`] and
//! [`TelegramNotifyTool::finish`].

use vstd::prelude::*;
use crate::adapter::{json_bool_field, json_bool_field_of, json_quote, json_str_field_of,
    json_string_of, json_str_field};
use crate::config::opt_text;
use crate::gate::{AutonomyLevel, SecurityPolicy};
use crate::text::{trim_of, trim_text};

verus! {

/// What one tool execution reports back to the agent.
pub struct ToolResult {
    pub success: bool,
    pub output: String,
    pub error: Option<String>,
}

/// The tool: the security policy it is gated by, the bot credential, and
/// the chat the notification goes to.
pub struct TelegramNotifyTool {
    pub security: SecurityPolicy,
    pub bot_token: String,
    pub chat_id: String,
}

/// What one execution attempt may yield before any side effect happens.
pub enum NotifyStep {
    /// The policy blocked the action; the result to report, with no side
    /// effect.
    Done(ToolResult),
    /// The arguments carry no usable message; the failure description.
    Invalid(String),
    /// Both checks passed and the action was counted: the host performs
    /// exactly this HTTP post.
    Request(NotifyRequest),
}

/// The HTTP post an admitted notification performs.
pub struct NotifyRequest {
    pub url: String,
    pub body: String,
}

/// A gate-blocked result: no side effect, empty output, the reason.
pub open spec fn spec_blocked_result(t: ToolResult, reason: Seq<char>) -> bool {
    t.success == false && t.output@ == Seq::<char>::empty() && opt_text(t.error) == Some(reason)
}

/// The usable message in the tool's arguments: the trimmed string value
/// of the `message` field, when present and non-empty.
pub open spec fn spec_message_arg(args: Seq<char>) -> Option<Seq<char>> {
    match json_str_field_of(args, "message"@) {
        Some(m) => if trim_of(m).len() > 0 {
            Some(trim_of(m))
        } else {
            None
        },
        None => None,
    }
}

/// The JSON body of the notification post.
pub open spec fn spec_notify_body(chat_id: Seq<char>, message: Seq<char>) -> Seq<char> {
    "{\"chat_id\":"@ + json_string_of(chat_id) + ",\"parse_mode\":\"Markdown\",\"text\":"@
        + json_string_of(message) + "}"@
}

impl TelegramNotifyTool {
    /// A tool sharing the given policy, posting as the given bot to the
    /// given chat.
    pub fn new(security: SecurityPolicy, bot_token: String, chat_id: String) -> (t:
        TelegramNotifyTool)
        ensures
            t.security == security,
            t.bot_token@ == bot_token@,
            t.chat_id@ == chat_id@,
    {
        TelegramNotifyTool { security, bot_token, chat_id }
    }

    pub fn name(&self) -> (r: &'static str)
        ensures
            r@ == "telegram_notify"@,
    {
        "telegram_notify"
    }

    pub fn description(&self) -> (r: &'static str)
        ensures
            r@
                == "Send a Telegram message to the configured notify chat. Use this to proactively notify the user via Telegram."@,
    {
        "Send a Telegram message to the configured notify chat. Use this to proactively notify the user via Telegram."
    }

    /// The JSON schema of the tool's parameters: one required string
    /// field, `message`.
    pub fn parameters_schema(&self) -> (r: String)
        ensures
            r@
                == "{\"properties\":{\"message\":{\"description\":\"The message text to send\",\"type\":\"string\"}},\"required\":[\"message\"],\"type\":\"object\"}"@,
    {
        String::from_str(
            "{\"properties\":{\"message\":{\"description\":\"The message text to send\",\"type\":\"string\"}},\"required\":[\"message\"],\"type\":\"object\"}",
        )
    }

    /// The endpoint the notification is posted to.
    pub fn send_message_url(&self) -> (r: String)
        ensures
            r@ == "https://api.telegram.org/bot"@ + self.bot_token@ + "/sendMessage"@,
    {
        let mut r = String::from_str("https://api.telegram.org/bot");
        r.append(self.bot_token.as_str());
        r.append("/sendMessage");
        r
    }

    /// One execution attempt: the autonomy check strictly first — a
    /// read-only refusal never advances the counter — then the rate
    /// check, which counts the action exactly when it is admitted; only
    /// then are the arguments read. A refused or invalid attempt performs
    /// no side effect; an admitted one yields exactly the post to
    /// perform.
    pub fn execute(&mut self, args_json: &str) -> (r: NotifyStep)
        ensures
            final(self).bot_token@ == old(self).bot_token@,
            final(self).chat_id@ == old(self).chat_id@,
            old(self).security.autonomy == AutonomyLevel::ReadOnly ==> (r matches NotifyStep::Done(
                t,
            ) && spec_blocked_result(t, "Action blocked: autonomy is read-only"@) && final(self).security == old(self).security),
            old(self).security.autonomy != AutonomyLevel::ReadOnly && (old(self).security.action_count as nat) >= (old(self).security.max_actions_per_hour as nat)
                ==> (r matches NotifyStep::Done(t) && spec_blocked_result(
                t,
                "Action blocked: rate limit exceeded"@,
            ) && final(self).security == old(self).security),
            old(self).security.autonomy != AutonomyLevel::ReadOnly && (old(self).security.action_count as nat) < (old(self).security.max_actions_per_hour as nat)
                ==> final(self).security.action_count as nat == old(self).security.action_count as nat + 1 && final(self).security.autonomy == old(self).security.autonomy && final(self).security.max_actions_per_hour == old(self).security.max_actions_per_hour,
            old(self).security.autonomy != AutonomyLevel::ReadOnly && (old(self).security.action_count as nat) < (old(self).security.max_actions_per_hour as nat)
                && spec_message_arg(args_json@) is None ==> (r matches NotifyStep::Invalid(e) && e@
                == "Missing 'message' parameter"@),
            old(self).security.autonomy != AutonomyLevel::ReadOnly && (old(self).security.action_count as nat) < (old(self).security.max_actions_per_hour as nat)
                && spec_message_arg(args_json@) is Some ==> (r matches NotifyStep::Request(q)
                && q.url@ == "https://api.telegram.org/bot"@ + old(self).bot_token@
                + "/sendMessage"@ && (spec_message_arg(args_json@) matches Some(m) && q.body@
                == spec_notify_body(old(self).chat_id@, m))),
    {
        if !self.security.can_act() {
            return NotifyStep::Done(
                ToolResult {
                    success: false,
                    output: String::new(),
                    error: Some(String::from_str("Action blocked: autonomy is read-only")),
                },
            );
        }
        if !self.security.record_action() {
            return NotifyStep::Done(
                ToolResult {
                    success: false,
                    output: String::new(),
                    error: Some(String::from_str("Action blocked: rate limit exceeded")),
                },
            );
        }
        let message = match json_str_field(args_json, "message") {
            Some(m) => String::from_str(trim_text(m.as_str())),
            None => {
                return NotifyStep::Invalid(String::from_str("Missing 'message' parameter"));
            },
        };
        if message.as_str().is_empty() {
            return NotifyStep::Invalid(String::from_str("Missing 'message' parameter"));
        }
        let mut body = String::from_str("{\"chat_id\":");
        body.append(json_quote(self.chat_id.as_str()).as_str());
        body.append(",\"parse_mode\":\"Markdown\",\"text\":");
        body.append(json_quote(message.as_str()).as_str());
        body.append("}");
        proof {
            assert(body@ =~= spec_notify_body(
                self.chat_id@,
                trim_of(match json_str_field_of(args_json@, "message"@) {
                    Some(m) => m,
                    None => Seq::empty(),
                }),
            ));
        }
        NotifyStep::Request(NotifyRequest { url: self.send_message_url(), body })
    }

    /// The result the tool reports for one response, the flag already
    /// extracted: a non-success status is reported with the status line;
    /// otherwise the response's own `ok` flag decides between a sent
    /// confirmation and an API refusal.
    pub fn conclude(
        &self,
        status_is_success: bool,
        status_display: &str,
        response_text: String,
        response_ok: bool,
    ) -> (t: ToolResult)
        ensures
            !status_is_success ==> t.success == false && t.output@ == response_text@ && opt_text(
                t.error,
            ) == Some("Telegram API returned status "@ + status_display@),
            status_is_success && response_ok ==> t.success == true && t.output@
                == "Telegram message sent to chat "@ + self.chat_id@ + "."@ && t.error is None,
            status_is_success && !response_ok ==> t.success == false && t.output@
                == response_text@ && opt_text(t.error) == Some("Telegram API returned ok=false"@),
    {
        if !status_is_success {
            let mut e = String::from_str("Telegram API returned status ");
            e.append(status_display);
            ToolResult { success: false, output: response_text, error: Some(e) }
        } else if response_ok {
            let mut out = String::from_str("Telegram message sent to chat ");
            out.append(self.chat_id.as_str());
            out.append(".");
            ToolResult { success: true, output: out, error: None }
        } else {
            ToolResult {
                success: false,
                output: response_text,
                error: Some(String::from_str("Telegram API returned ok=false")),
            }
        }
    }

    /// Interprets the response of the post the host performed: reads the
    /// response's `ok` flag (absent or malformed counts as false) and
    /// reports as [`Self::conclude`] does.
    pub fn finish(
        &self,
        status_is_success: bool,
        status_display: &str,
        response_text: String,
    ) -> (t: ToolResult)
        ensures
            !status_is_success ==> t.success == false && t.output@ == response_text@ && opt_text(
                t.error,
            ) == Some("Telegram API returned status "@ + status_display@),
            status_is_success && json_bool_field_of(response_text@, "ok"@) == Some(true)
                ==> t.success == true && t.output@ == "Telegram message sent to chat "@
                + self.chat_id@ + "."@ && t.error is None,
            status_is_success && json_bool_field_of(response_text@, "ok"@) != Some(true)
                ==> t.success == false && t.output@ == response_text@ && opt_text(t.error)
                == Some("Telegram API returned ok=false"@),
    {
        let response_ok = match json_bool_field(response_text.as_str(), "ok") {
            Some(b) => b,
            None => false,
        };
        self.conclude(status_is_success, status_display, response_text, response_ok)
    }
}

} // verus!
