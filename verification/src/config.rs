//! The immutable-after-construction configuration snapshot one session
//! carries, and the overrides a start call applies to the loaded base
//! configuration before the session is installed.

use vstd::prelude::*;

verus! {

/// Settings for the notification channel a session may post to.
pub struct TelegramChannelConfig {
    pub bot_token: String,
    pub allowed_users: Vec<i64>,
}

/// Abstract value of a [`TelegramChannelConfig`].
pub ghost struct TelegramChannelView {
    pub bot_token: Seq<char>,
    pub allowed_users: Seq<i64>,
}

impl View for TelegramChannelConfig {
    type V = TelegramChannelView;

    open spec fn view(&self) -> TelegramChannelView {
        TelegramChannelView { bot_token: self.bot_token@, allowed_users: self.allowed_users@ }
    }
}

/// One session's configuration snapshot: captured once at creation and
/// duplicated per invocation, so concurrent calls never alias mutable state.
pub struct SessionConfig {
    pub api_key: Option<String>,
    pub default_model: Option<String>,
    pub default_provider: Option<String>,
    pub gateway_host: String,
    pub gateway_port: u16,
    pub require_pairing: bool,
    pub android_enabled: bool,
    pub bridge_mode: String,
    pub telegram: Option<TelegramChannelConfig>,
}

/// Abstract value of a [`SessionConfig`].
pub ghost struct ConfigView {
    pub api_key: Option<Seq<char>>,
    pub default_model: Option<Seq<char>>,
    pub default_provider: Option<Seq<char>>,
    pub gateway_host: Seq<char>,
    pub gateway_port: u16,
    pub require_pairing: bool,
    pub android_enabled: bool,
    pub bridge_mode: Seq<char>,
    pub telegram: Option<TelegramChannelView>,
}

/// The abstract value of an optional text.
pub open spec fn opt_text(o: Option<String>) -> Option<Seq<char>> {
    match o {
        Some(s) => Some(s@),
        None => None,
    }
}

impl View for SessionConfig {
    type V = ConfigView;

    open spec fn view(&self) -> ConfigView {
        ConfigView {
            api_key: opt_text(self.api_key),
            default_model: opt_text(self.default_model),
            default_provider: opt_text(self.default_provider),
            gateway_host: self.gateway_host@,
            gateway_port: self.gateway_port,
            require_pairing: self.require_pairing,
            android_enabled: self.android_enabled,
            bridge_mode: self.bridge_mode@,
            telegram: match self.telegram {
                Some(t) => Some(t@),
                None => None,
            },
        }
    }
}

fn dup_opt_string(o: &Option<String>) -> (r: Option<String>)
    ensures
        opt_text(r) == opt_text(*o),
{
    match o {
        Some(s) => Some(s.clone()),
        None => None,
    }
}

fn dup_users(v: &Vec<i64>) -> (r: Vec<i64>)
    ensures
        r@ == v@,
{
    let mut r: Vec<i64> = Vec::new();
    let mut i: usize = 0;
    while i < v.len()
        invariant
            i <= v.len(),
            r@ == v@.subrange(0, i as int),
        decreases v.len() - i,
    {
        r.push(v[i]);
        i = i + 1;
    }
    assert(r@ =~= v@);
    r
}

impl SessionConfig {
    /// A deep copy with the same abstract value: what a lookup hands out,
    /// so the registry lock never outlives the brief map access.
    pub fn duplicate(&self) -> (r: SessionConfig)
        ensures
            r@ == self@,
    {
        let telegram = match &self.telegram {
            Some(t) => Some(
                TelegramChannelConfig {
                    bot_token: t.bot_token.clone(),
                    allowed_users: dup_users(&t.allowed_users),
                },
            ),
            None => None,
        };
        let r = SessionConfig {
            api_key: dup_opt_string(&self.api_key),
            default_model: dup_opt_string(&self.default_model),
            default_provider: dup_opt_string(&self.default_provider),
            gateway_host: self.gateway_host.clone(),
            gateway_port: self.gateway_port,
            require_pairing: self.require_pairing,
            android_enabled: self.android_enabled,
            bridge_mode: self.bridge_mode.clone(),
            telegram,
        };
        assert(r@ == self@);
        r
    }
}

/// The configuration a start call installs: the loaded base configuration
/// with the caller's overrides applied. An empty override text means "keep
/// what the base configuration had"; the gateway is pinned to the fixed
/// local port, pairing is waived, and the embedded bridge is enabled in
/// HTTP mode.
pub open spec fn spec_overridden(
    base: ConfigView,
    api_key: Seq<char>,
    model: Seq<char>,
    telegram_token: Seq<char>,
) -> ConfigView {
    ConfigView {
        api_key: if api_key.len() == 0 {
            base.api_key
        } else {
            Some(api_key)
        },
        default_model: if model.len() == 0 {
            base.default_model
        } else {
            Some(model)
        },
        default_provider: if base.default_provider is Some {
            base.default_provider
        } else {
            Some("openrouter"@)
        },
        gateway_host: base.gateway_host,
        gateway_port: 8000,
        require_pairing: false,
        android_enabled: true,
        bridge_mode: "http"@,
        telegram: if telegram_token.len() == 0 {
            base.telegram
        } else {
            Some(TelegramChannelView { bot_token: telegram_token, allowed_users: Seq::empty() })
        },
    }
}

/// Applies the caller's overrides to the base configuration.
pub fn apply_overrides(
    base: SessionConfig,
    api_key: String,
    model: String,
    telegram_token: String,
) -> (r: SessionConfig)
    ensures
        r@ == spec_overridden(base@, api_key@, model@, telegram_token@),
{
    let mut config = base;
    if !api_key.as_str().is_empty() {
        config.api_key = Some(api_key);
    }
    if !model.as_str().is_empty() {
        config.default_model = Some(model);
    }
    if config.default_provider.is_none() {
        config.default_provider = Some(String::from_str("openrouter"));
    }
    config.gateway_port = 8000;
    config.require_pairing = false;
    config.android_enabled = true;
    config.bridge_mode = String::from_str("http");
    if !telegram_token.as_str().is_empty() {
        config.telegram = Some(
            TelegramChannelConfig { bot_token: telegram_token, allowed_users: Vec::new() },
        );
    }
    assert(config@.telegram == spec_overridden(base@, api_key@, model@, telegram_token@).telegram);
    config
}

/// Law: the configuration a start call installs is a function of the base
/// configuration and the new overrides alone. In particular, when a caller
/// supplies an API key, the installed session carries exactly that key:
/// stopping a session and starting another with a different key never
/// leaks the previous key into the new session.
pub proof fn lemma_restart_never_leaks_key(
    base: ConfigView,
    api_key: Seq<char>,
    model: Seq<char>,
    telegram_token: Seq<char>,
)
    requires
        api_key.len() > 0,
    ensures
        spec_overridden(base, api_key, model, telegram_token).api_key == Some(api_key),
{
}

} // verus!
