//! The bridge invoker: the decision logic of the blocking round-trip that
//! lets a synchronous caller run asynchronous work on one session.
//!
//! The library resolves the handle, duplicates the configuration snapshot
//! so no lock outlives the lookup, and pins down every payload the caller
//! sees; the host performs the one asynchronous computation between
//! [`prepare_message_call`] and [`render_reply`] (or
//! [`tool_result_envelope`]) on the session's own execution context.

use vstd::prelude::*;
use std::sync::Arc;
use crate::adapter::{json_quote, json_string_of};
use crate::config::{spec_overridden, ConfigView, SessionConfig};
use crate::registry::{new_runtime, Registry, Session};
use crate::text::{dec_rep, u64_to_dec};

verus! {

/// Why a bridged call was refused before any work was submitted.
#[derive(Clone, Copy, Debug, PartialEq, Eq, Structural)]
pub enum BridgeError {
    /// The handle names no live session: never started, already stopped,
    /// or fabricated.
    InvalidHandle,
    /// A foreign string argument failed to decode.
    InvalidEncoding,
}

/// Why a start call issued no handle.
#[derive(Debug)]
pub enum StartError {
    /// The session's execution context could not be created.
    RuntimeCreation(String),
}

/// Installs a session: mints a fresh handle, applies the caller's
/// overrides to the base configuration, and registers the session with
/// its execution context under the new handle.
pub fn install_session(
    reg: &mut Registry,
    base: SessionConfig,
    api_key: String,
    model: String,
    telegram_token: String,
    context: tokio::runtime::Runtime,
) -> (h: i64)
    requires
        old(reg).wf(),
        old(reg).spec_can_allocate(),
    ensures
        final(reg).wf(),
        0 < h,
        !old(reg).sessions@.contains_key(h),
        !old(reg).issued@.contains(h),
        final(reg).issued@ == old(reg).issued@.push(h),
        final(reg).sessions@.contains_key(h),
        final(reg).sessions@[h].config@ == spec_overridden(
            base@,
            api_key@,
            model@,
            telegram_token@,
        ),
        final(reg).sessions@[h].context == context,
        forall|other: i64|
            other != h ==> final(reg).sessions@.contains_key(other) == old(
                reg,
            ).sessions@.contains_key(other),
        forall|other: i64|
            other != h && old(reg).sessions@.contains_key(other) ==> final(reg).sessions@[other]
                == old(reg).sessions@[other],
{
    let h = reg.next_handle_id();
    proof {
        assert(reg.issued@[reg.issued@.len() - 1] == h);
        assert(reg.issued@.contains(h));
        assert(!reg.sessions@.contains_key(h));
    }
    let config = crate::config::apply_overrides(base, api_key, model, telegram_token);
    let shared = Arc::new(context);
    reg.insert_session(h, Session { config, context: shared });
    h
}

/// The start operation's verified core: creates the session's execution
/// context and installs the session. When the context cannot be created,
/// no handle is issued and the registry is untouched; the caller retries.
pub fn start_session(
    reg: &mut Registry,
    base: SessionConfig,
    api_key: String,
    model: String,
    telegram_token: String,
) -> (r: Result<i64, StartError>)
    requires
        old(reg).wf(),
        old(reg).spec_can_allocate(),
    ensures
        final(reg).wf(),
        (r matches Ok(h) ==> {
            &&& 0 < h
            &&& !old(reg).sessions@.contains_key(h)
            &&& final(reg).sessions@.contains_key(h)
            &&& final(reg).sessions@[h].config@ == spec_overridden(
                base@,
                api_key@,
                model@,
                telegram_token@,
            )
            &&& forall|other: i64|
                other != h ==> final(reg).sessions@.contains_key(other) == old(
                    reg,
                ).sessions@.contains_key(other)
        }),
        (r is Err ==> *final(reg) == *old(reg)),
{
    match new_runtime() {
        Ok(context) => Ok(install_session(reg, base, api_key, model, telegram_token, context)),
        Err(e) => Err(StartError::RuntimeCreation(e)),
    }
}

/// The stop operation: removes the session and hands its ownership to the
/// caller for teardown. A handle that names no live session — never
/// started, already stopped, or fabricated — is refused as invalid, and
/// no other session is affected.
pub fn stop_session(reg: &mut Registry, handle: i64) -> (r: Result<Session, BridgeError>)
    requires
        old(reg).wf(),
    ensures
        final(reg).wf(),
        final(reg).sessions@ == old(reg).sessions@.remove(handle),
        r is Ok <==> old(reg).sessions@.contains_key(handle),
        (r matches Ok(s) ==> s == old(reg).sessions@[handle]),
        (r matches Err(e) ==> e == BridgeError::InvalidHandle),
        final(reg).issued == old(reg).issued,
        final(reg).next_id == old(reg).next_id,
{
    match reg.remove_session(handle) {
        Some(s) => Ok(s),
        None => Err(BridgeError::InvalidHandle),
    }
}

/// Resolves a handle for one bridged call: a duplicate of the session's
/// configuration snapshot, or an immediate `InvalidHandle` refusal — the
/// call never waits on an unknown handle.
pub fn prepare_message_call(reg: &Registry, handle: i64) -> (r: Result<
    SessionConfig,
    BridgeError,
>)
    ensures
        r is Ok <==> reg.sessions@.contains_key(handle),
        (r matches Ok(c) ==> c@ == reg.sessions@[handle].config@),
        (r matches Err(e) ==> e == BridgeError::InvalidHandle),
{
    match reg.config_of(handle) {
        Some(c) => Ok(c),
        None => Err(BridgeError::InvalidHandle),
    }
}

/// The reply text a bridged message call returns: the agent's reply, or a
/// tagged description of the internal failure — an internal failure never
/// escapes as a fault.
pub fn render_reply(outcome: Result<String, String>) -> (r: String)
    ensures
        (outcome matches Ok(reply) ==> r@ == reply@),
        (outcome matches Err(e) ==> r@ == "Error processing message: "@ + e@),
{
    match outcome {
        Ok(reply) => reply,
        Err(e) => {
            let mut r = String::from_str("Error processing message: ");
            r.append(e.as_str());
            r
        },
    }
}

/// The message a direct tool-execution call submits to the agent.
pub fn build_tool_message(tool_name: &str, params_json: &str) -> (r: String)
    ensures
        r@ == "Execute tool: "@ + tool_name@ + " with params: "@ + params_json@,
{
    let mut r = String::from_str("Execute tool: ");
    r.append(tool_name);
    r.append(" with params: ");
    r.append(params_json);
    r
}

/// The envelope a successful tool execution returns.
pub open spec fn spec_tool_success(result: Seq<char>) -> Seq<char> {
    "{\"result\":"@ + json_string_of(result) + ",\"success\":true}"@
}

/// The envelope a failed tool execution returns.
pub open spec fn spec_tool_failure(error: Seq<char>) -> Seq<char> {
    "{\"error\":"@ + json_string_of(error) + ",\"success\":false}"@
}

/// Encodes a tool execution's outcome: always a well-formed JSON object
/// with a `success` flag, never an unencoded raw failure.
pub fn tool_result_envelope(outcome: Result<String, String>) -> (r: String)
    ensures
        (outcome matches Ok(result) ==> r@ == spec_tool_success(result@)),
        (outcome matches Err(e) ==> r@ == spec_tool_failure(e@)),
{
    match outcome {
        Ok(result) => {
            let mut r = String::from_str("{\"result\":");
            r.append(json_quote(result.as_str()).as_str());
            r.append(",\"success\":true}");
            proof {
                assert(r@ =~= spec_tool_success(result@));
            }
            r
        },
        Err(e) => {
            let mut r = String::from_str("{\"error\":");
            r.append(json_quote(e.as_str()).as_str());
            r.append(",\"success\":false}");
            proof {
                assert(r@ =~= spec_tool_failure(e@));
            }
            r
        },
    }
}

/// The local network address a session's background gateway is bound to.
pub open spec fn spec_endpoint(c: ConfigView) -> Seq<char> {
    "http://"@ + c.gateway_host + ":"@ + dec_rep(c.gateway_port as nat)
}

/// Resolves a handle to its session's gateway address, or refuses an
/// unknown handle as invalid.
pub fn get_endpoint(reg: &Registry, handle: i64) -> (r: Result<String, BridgeError>)
    ensures
        r is Ok <==> reg.sessions@.contains_key(handle),
        (r matches Ok(url) ==> url@ == spec_endpoint(reg.sessions@[handle].config@)),
        (r matches Err(e) ==> e == BridgeError::InvalidHandle),
{
    match reg.lookup(handle) {
        Some(s) => {
            let mut url = String::from_str("http://");
            url.append(s.config.gateway_host.as_str());
            url.append(":");
            url.append(u64_to_dec(s.config.gateway_port as u64).as_str());
            proof {
                assert(url@ =~= spec_endpoint(reg.sessions@[handle].config@));
            }
            Ok(url)
        },
        None => Err(BridgeError::InvalidHandle),
    }
}

/// Law: a stopped handle is immediately unhealthy — after the stop
/// operation removes a handle, the registry no longer contains it, so a
/// health check on it reports false; and a handle the registry never held
/// is refused by stop as invalid.
pub proof fn lemma_stop_then_unhealthy(sessions: Map<i64, Session>, handle: i64)
    ensures
        !sessions.remove(handle).contains_key(handle),
{
}

/// Law: a freshly started session's gateway address is the configured
/// host under the fixed local port — `http://<host>:8000`.
pub proof fn lemma_round_trip_endpoint(
    base: ConfigView,
    api_key: Seq<char>,
    model: Seq<char>,
    telegram_token: Seq<char>,
)
    ensures
        spec_endpoint(spec_overridden(base, api_key, model, telegram_token)) == "http://"@
            + base.gateway_host + ":8000"@,
{
    reveal_with_fuel(dec_rep, 5);
    reveal_strlit(":8000");
    reveal_strlit(":");
    assert(dec_rep(8000) =~= seq!['8', '0', '0', '0']);
    assert(":"@ + dec_rep(8000) =~= ":8000"@);
    assert(spec_endpoint(spec_overridden(base, api_key, model, telegram_token)) =~= "http://"@
        + base.gateway_host + ":8000"@);
}

} // verus!
