use vstd::prelude::*;
use vstd::string::StringExecFns;

verus! {

/// Logging settings.
#[derive(Clone, Debug)]
pub struct LoggingConfig {
    /// Log level: trace, debug, info, warn, error
    pub level: String,
    /// Path to the log file
    pub file: String,
}

/// Webhook listener settings.
#[derive(Clone, Copy, Debug, PartialEq, Eq, Structural)]
pub struct WebhookConfig {
    /// Enable webhook listener
    pub enabled: bool,
    /// Port for the webhook HTTP server
    pub port: u16,
}

/// Default candle interval: five minutes.
pub fn default_interval() -> (s: String)
    ensures
        s@ == "5m"@,
{
    String::from_str("5m")
}

/// Default number of candles fetched per request.
pub fn default_candle_limit() -> (n: usize)
    ensures
        n == 100,
{
    100
}

/// Default RSI look-back period.
pub fn default_rsi_period() -> (n: usize)
    ensures
        n == 14,
{
    14
}

/// Default log level.
pub fn default_log_level() -> (s: String)
    ensures
        s@ == "info"@,
{
    String::from_str("info")
}

/// Default log file.
pub fn default_log_file() -> (s: String)
    ensures
        s@ == "crypto_bot.log"@,
{
    String::from_str("crypto_bot.log")
}

/// Default port of the webhook HTTP server.
pub fn default_webhook_port() -> (p: u16)
    ensures
        p == 3030,
{
    3030
}

impl Default for WebhookConfig {
    /// The listener is off and would listen on the default port.
    fn default() -> (c: Self)
        ensures
            !c.enabled,
            c.port == 3030,
    {
        WebhookConfig { enabled: false, port: default_webhook_port() }
    }
}

} // verus!
