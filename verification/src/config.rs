//! Application settings: their defaults, the choice of API key among its
//! sources, and the edits that the commands make.
//!
//! Window coordinates are kept as the IEEE-754 bit patterns of their `f64`
//! values (`f64::to_bits`), so that settings round-trip exactly.

use vstd::prelude::*;

use crate::credentials::keychain_token_spec;

verus! {

/// Seconds between two usage polls unless configured otherwise.
pub const DEFAULT_INTERVAL_SECONDS: u64 = 60;

/// Bit pattern of `100.0_f64`, the default widget coordinate.
pub const DEFAULT_POSITION_BITS: u64 = 0x4059_0000_0000_0000;

/// Manually configured credentials.
#[derive(Debug)]
pub struct AuthConfig {
    pub api_key: String,
}

/// How often usage is polled.
#[derive(Debug)]
pub struct PollingConfig {
    pub interval_seconds: u64,
}

/// Whether the widget shows at launch and where it was last placed.
#[derive(Debug)]
pub struct WidgetConfig {
    pub show_on_launch: bool,
    pub position_x_bits: u64,
    pub position_y_bits: u64,
}

/// All settings.
#[derive(Debug)]
pub struct AppConfig {
    pub auth: AuthConfig,
    pub polling: PollingConfig,
    pub widget: WidgetConfig,
}

/// The mathematical content of an [`AppConfig`].
pub struct ConfigView {
    pub api_key: Seq<char>,
    pub interval_seconds: u64,
    pub show_on_launch: bool,
    pub position_x_bits: u64,
    pub position_y_bits: u64,
}

impl View for AppConfig {
    type V = ConfigView;

    open spec fn view(&self) -> ConfigView {
        ConfigView {
            api_key: self.auth.api_key@,
            interval_seconds: self.polling.interval_seconds,
            show_on_launch: self.widget.show_on_launch,
            position_x_bits: self.widget.position_x_bits,
            position_y_bits: self.widget.position_y_bits,
        }
    }
}

/// The settings used when none are stored.
pub open spec fn default_config() -> ConfigView {
    ConfigView {
        api_key: Seq::empty(),
        interval_seconds: DEFAULT_INTERVAL_SECONDS,
        show_on_launch: true,
        position_x_bits: DEFAULT_POSITION_BITS,
        position_y_bits: DEFAULT_POSITION_BITS,
    }
}

/// Poll interval used when a stored configuration omits it.
pub fn default_interval() -> (seconds: u64)
    ensures
        seconds == DEFAULT_INTERVAL_SECONDS,
{
    DEFAULT_INTERVAL_SECONDS
}

/// Launch visibility used when a stored configuration omits it.
pub fn default_true() -> (value: bool)
    ensures
        value,
{
    true
}

/// Horizontal widget position (bits of an `f64`) used when a stored configuration omits it.
pub fn default_x() -> (bits: u64)
    ensures
        bits == DEFAULT_POSITION_BITS,
{
    DEFAULT_POSITION_BITS
}

/// Vertical widget position (bits of an `f64`) used when a stored configuration omits it.
pub fn default_y() -> (bits: u64)
    ensures
        bits == DEFAULT_POSITION_BITS,
{
    DEFAULT_POSITION_BITS
}

impl Default for AuthConfig {
    fn default() -> (config: Self)
        ensures
            config.api_key@ == Seq::<char>::empty(),
    {
        AuthConfig { api_key: String::new() }
    }
}

impl Default for PollingConfig {
    fn default() -> (config: Self)
        ensures
            config.interval_seconds == DEFAULT_INTERVAL_SECONDS,
    {
        PollingConfig { interval_seconds: DEFAULT_INTERVAL_SECONDS }
    }
}

impl Default for WidgetConfig {
    fn default() -> (config: Self)
        ensures
            config.show_on_launch,
            config.position_x_bits == DEFAULT_POSITION_BITS,
            config.position_y_bits == DEFAULT_POSITION_BITS,
    {
        WidgetConfig {
            show_on_launch: true,
            position_x_bits: DEFAULT_POSITION_BITS,
            position_y_bits: DEFAULT_POSITION_BITS,
        }
    }
}

impl Default for AppConfig {
    fn default() -> (config: Self)
        ensures
            config@ == default_config(),
    {
        AppConfig {
            auth: AuthConfig { api_key: String::new() },
            polling: PollingConfig { interval_seconds: DEFAULT_INTERVAL_SECONDS },
            widget: WidgetConfig {
                show_on_launch: true,
                position_x_bits: DEFAULT_POSITION_BITS,
                position_y_bits: DEFAULT_POSITION_BITS,
            },
        }
    }
}

/// The key to use, by priority: the OAuth access token from the
/// keychain, then a non-empty `ANTHROPIC_API_KEY`, then a non-empty key in
/// the configuration; nothing otherwise.
pub open spec fn select_api_key(
    keychain_token: Option<Seq<char>>,
    env_key: Option<Seq<char>>,
    configured: Seq<char>,
) -> Option<Seq<char>> {
    match keychain_token {
        Some(token) => Some(token),
        None => if env_key is Some && env_key->0.len() > 0 {
            env_key
        } else if configured.len() > 0 {
            Some(configured)
        } else {
            None
        },
    }
}

/// The settings with another configured key.
pub open spec fn with_api_key(config: ConfigView, key: Seq<char>) -> ConfigView {
    ConfigView { api_key: key, ..config }
}

/// The settings with the widget placed elsewhere.
pub open spec fn with_position(config: ConfigView, x_bits: u64, y_bits: u64) -> ConfigView {
    ConfigView { position_x_bits: x_bits, position_y_bits: y_bits, ..config }
}

impl AppConfig {
    /// The API key to use, given what the keychain query and the
    /// `ANTHROPIC_API_KEY` environment variable yielded.
    pub fn api_key(&self, keychain_token: Option<String>, env_key: Option<String>) -> (key: Option<String>)
        ensures
            key.deep_view() == select_api_key(
                keychain_token.deep_view(),
                env_key.deep_view(),
                self.auth.api_key@,
            ),
    {
        if let Some(token) = keychain_token {
            return Some(token);
        }
        if let Some(key) = env_key {
            if !key.as_str().is_empty() {
                return Some(key);
            }
        }
        if !self.auth.api_key.as_str().is_empty() {
            return Some(self.auth.api_key.clone());
        }
        None
    }

    /// Stores a manually entered key.
    pub fn set_api_key(&mut self, key: String)
        ensures
            final(self)@ == with_api_key(old(self)@, key@),
            final(self).auth.api_key@ == key@,
            final(self).polling.interval_seconds == old(self).polling.interval_seconds,
            final(self).widget.show_on_launch == old(self).widget.show_on_launch,
            final(self).widget.position_x_bits == old(self).widget.position_x_bits,
            final(self).widget.position_y_bits == old(self).widget.position_y_bits,
    {
        self.auth.api_key = key;
    }

    /// Records where the widget was moved to.
    pub fn set_widget_position(&mut self, x_bits: u64, y_bits: u64)
        ensures
            final(self)@ == with_position(old(self)@, x_bits, y_bits),
            final(self).widget.position_x_bits == x_bits,
            final(self).widget.position_y_bits == y_bits,
            final(self).auth.api_key@ == old(self).auth.api_key@,
            final(self).polling.interval_seconds == old(self).polling.interval_seconds,
            final(self).widget.show_on_launch == old(self).widget.show_on_launch,
    {
        self.widget.position_x_bits = x_bits;
        self.widget.position_y_bits = y_bits;
    }

    /// The settings read from storage, or the defaults when none could be read.
    pub fn loaded_or_default(loaded: Option<AppConfig>) -> (config: AppConfig)
        ensures
            match loaded {
                Some(c) => config@ == c@,
                None => config@ == default_config(),
            },
    {
        match loaded {
            Some(c) => c,
            None => AppConfig::default(),
        }
    }
}

/// The keychain token, when there is one, is the key used.
pub proof fn lemma_keychain_token_first(
    keychain_token: Seq<char>,
    env_key: Option<Seq<char>>,
    configured: Seq<char>,
)
    ensures
        select_api_key(Some(keychain_token), env_key, configured) == Some(keychain_token),
{
}

/// Without a keychain token, a non-empty environment key wins over the configured key.
pub proof fn lemma_env_key_before_configured(env_key: Seq<char>, configured: Seq<char>)
    requires
        env_key.len() > 0,
    ensures
        select_api_key(None, Some(env_key), configured) == Some(env_key),
{
}

/// Without a keychain token or a non-empty environment key, the configured
/// key is used when it is not empty, and there is no key otherwise.
pub proof fn lemma_configured_key_last(env_key: Option<Seq<char>>, configured: Seq<char>)
    requires
        env_key is None || env_key->0.len() == 0,
    ensures
        select_api_key(None, env_key, configured) == if configured.len() > 0 {
            Some(configured)
        } else {
            None
        },
{
}

/// A key that was stored is the key read back, as long as neither the
/// keychain nor the environment supplies one.
pub proof fn lemma_stored_key_read_back(config: ConfigView, key: Seq<char>, env_key: Option<Seq<char>>)
    requires
        key.len() > 0,
        env_key is None || env_key->0.len() == 0,
    ensures
        select_api_key(None, env_key, with_api_key(config, key).api_key) == Some(key),
{
}

/// The chosen key is never empty when the keychain token, if any, is not.
pub proof fn lemma_selected_key_nonempty(
    keychain_token: Option<Seq<char>>,
    env_key: Option<Seq<char>>,
    configured: Seq<char>,
)
    requires
        keychain_token matches Some(t) ==> t.len() > 0,
    ensures
        select_api_key(keychain_token, env_key, configured) matches Some(k) ==> k.len() > 0,
{
}

/// Storing a key replaces the configured key by exactly that key, whatever
/// it is (the empty key included), and changes nothing else.
pub proof fn lemma_stored_key_replaces(config: ConfigView, key: Seq<char>)
    ensures
        with_api_key(config, key).api_key == key,
        with_api_key(config, key).interval_seconds == config.interval_seconds,
        with_api_key(config, key).show_on_launch == config.show_on_launch,
        with_api_key(config, key).position_x_bits == config.position_x_bits,
        with_api_key(config, key).position_y_bits == config.position_y_bits,
{
}

/// Storing the empty key clears the manual key: without a keychain token or a
/// non-empty environment key there is then no key at all.
pub proof fn lemma_cleared_key_gives_none(config: ConfigView, env_key: Option<Seq<char>>)
    requires
        env_key is None || env_key->0.len() == 0,
    ensures
        select_api_key(None, env_key, with_api_key(config, Seq::empty()).api_key) is None,
{
}

/// Moving the widget stores exactly the given coordinates, whatever they are.
pub proof fn lemma_position_edit_stores(config: ConfigView, x_bits: u64, y_bits: u64)
    ensures
        with_position(config, x_bits, y_bits).position_x_bits == x_bits,
        with_position(config, x_bits, y_bits).position_y_bits == y_bits,
        with_position(config, x_bits, y_bits).api_key == config.api_key,
{
}

/// A key chosen after reading the keychain is never empty, whatever the
/// keychain query printed and whatever the environment holds.
pub proof fn lemma_key_from_keychain_output_nonempty(
    succeeded: bool,
    stdout: Seq<u8>,
    env_key: Option<Seq<char>>,
    configured: Seq<char>,
)
    ensures
        select_api_key(keychain_token_spec(succeeded, stdout), env_key, configured) matches Some(k)
            ==> k.len() > 0,
{
    lemma_selected_key_nonempty(keychain_token_spec(succeeded, stdout), env_key, configured);
}

/// Moving the widget keeps the key, the poll interval and the launch visibility.
pub proof fn lemma_position_edit_keeps_other_settings(config: ConfigView, x_bits: u64, y_bits: u64)
    ensures
        with_position(config, x_bits, y_bits).api_key == config.api_key,
        with_position(config, x_bits, y_bits).interval_seconds == config.interval_seconds,
        with_position(config, x_bits, y_bits).show_on_launch == config.show_on_launch,
{
}

/// The per-field defaults used when a stored configuration omits a field are
/// those of the default configuration.
pub proof fn lemma_field_defaults_agree()
    ensures
        default_config().interval_seconds == DEFAULT_INTERVAL_SECONDS,
        default_config().show_on_launch,
        default_config().position_x_bits == DEFAULT_POSITION_BITS,
        default_config().position_y_bits == DEFAULT_POSITION_BITS,
        default_config().api_key.len() == 0,
{
}

} // verus!
