//! The client's saved connection: which hub it talks to and with which token, where that is kept,
//! and how the client shows times.

use vstd::prelude::*;
use crate::node_config::join_path;
use crate::text::{copy_text, trimmed, trim_text};

verus! {

/// The hub a client talks to when nothing else is configured.
pub open spec fn default_hub_url() -> Seq<char> {
    "ws://127.0.0.1:8080/ws/client"@
}

/// The hub a client talks to when nothing else is configured.
pub fn default_hub() -> (r: String)
    ensures
        r@ == default_hub_url(),
{
    copy_text("ws://127.0.0.1:8080/ws/client")
}

/// The client's saved configuration.
#[derive(Debug)]
pub struct ClientConfig {
    pub hub: String,
    pub token: Option<String>,
}

impl Default for ClientConfig {
    fn default() -> (r: Self)
        ensures
            r.hub@ == default_hub_url(),
            r.token is None,
    {
        ClientConfig { hub: default_hub(), token: None }
    }
}

/// The hub to talk to: the one given on the command line, else the one in the environment
/// (`PUMPKINPI_HUB`), else the saved one (`config`, or the error loading it).
pub fn resolve_hub(cli_hub: Option<&str>, env_hub: Option<&str>, config: Result<ClientConfig, String>) -> (r: Result<String, String>)
    ensures
        match (cli_hub, env_hub) {
            (Some(h), _) => r matches Ok(x) && x@ == h@,
            (None, Some(h)) => r matches Ok(x) && x@ == h@,
            (None, None) => match config {
                Ok(c) => r == Ok::<String, String>(c.hub),
                Err(e) => r == Err::<String, String>(e),
            },
        },
{
    if let Some(h) = cli_hub {
        return Ok(copy_text(h));
    }
    if let Some(h) = env_hub {
        return Ok(copy_text(h));
    }
    match config {
        Ok(c) => Ok(c.hub),
        Err(e) => Err(e),
    }
}

/// The token to present: the one in the environment (`PUMPKINPI_TOKEN`), else the saved one
/// (`config`, or the error loading it).
pub fn resolve_token(env_token: Option<&str>, config: Result<ClientConfig, String>) -> (r: Result<Option<String>, String>)
    ensures
        match env_token {
            Some(t) => r matches Ok(Some(x)) && x@ == t@,
            None => match config {
                Ok(c) => r == Ok::<Option<String>, String>(c.token),
                Err(e) => r == Err::<Option<String>, String>(e),
            },
        },
{
    if let Some(t) = env_token {
        return Ok(Some(copy_text(t)));
    }
    match config {
        Ok(c) => Ok(c.token),
        Err(e) => Err(e),
    }
}

/// Where the client's configuration lives: the file `PUMPKINPI_CLIENT_CONFIG` names, else
/// `pumpkinpi/client.toml` under `XDG_CONFIG_HOME`, else `.config/pumpkinpi/client.toml` under
/// `HOME`, which is then required.
pub fn config_path(explicit: Option<&str>, config_home: Option<&str>, home: Option<&str>) -> (r: Result<String, String>)
    ensures
        match (explicit, config_home, home) {
            (Some(p), _, _) => r matches Ok(x) && x@ == p@,
            (None, Some(c), _) => r matches Ok(x) && x@ == join_path(c@, "pumpkinpi/client.toml"@),
            (None, None, Some(h)) => r matches Ok(x) && x@ == join_path(h@, ".config/pumpkinpi/client.toml"@),
            (None, None, None) => r matches Err(m) && m@ == "HOME is required to locate client config"@,
        },
{
    if let Some(p) = explicit {
        return Ok(copy_text(p));
    }
    if let Some(c) = config_home {
        return Ok(crate::node_config::join_path_text(c, "pumpkinpi/client.toml"));
    }
    match home {
        Some(h) => Ok(crate::node_config::join_path_text(h, ".config/pumpkinpi/client.toml")),
        None => Err(copy_text("HOME is required to locate client config")),
    }
}

/// The configuration to save when logging in to `hub` with `token`; a blank token is refused.
pub fn login(hub: String, token: String) -> (r: Result<ClientConfig, String>)
    ensures
        trimmed(token@).len() == 0 ==> (r matches Err(m) && m@ == "token cannot be empty"@),
        trimmed(token@).len() > 0 ==> (r matches Ok(c) && c.hub == hub && c.token == Some(token)),
{
    if trim_text(token.as_str()).unicode_len() == 0 {
        return Err(copy_text("token cannot be empty"));
    }
    Ok(ClientConfig { hub, token: Some(token) })
}

/// The configuration to save when logging out: the same hub, no token.
pub fn logout(config: ClientConfig) -> (r: ClientConfig)
    ensures
        r.hub == config.hub,
        r.token is None,
{
    ClientConfig { hub: config.hub, token: None }
}

/// The text chrono gives for the instant `seconds` after the epoch at the fixed UTC offset
/// `offset_seconds`, as `%Y-%m-%d %H:%M:%S %:z`.
pub uninterp spec fn timestamp_text(seconds: i64, offset_seconds: i32) -> Seq<char>;

/// The instants chrono represents certainly: those within 8 * 10^12 seconds of the epoch (about
/// 250,000 years; chrono's dates reach the years -262143 to 262142).
pub open spec fn surely_representable(seconds: i64) -> bool {
    -8_000_000_000_000 <= seconds <= 8_000_000_000_000
}

/// Formats an instant at a fixed UTC offset (`DateTime::from_timestamp`, `FixedOffset::east_opt`,
/// then `with_timezone` and `format("%Y-%m-%d %H:%M:%S %:z")`); `None` where chrono cannot
/// represent the instant. Which instants beyond 8 * 10^12 seconds from the epoch chrono still
/// represents is not stated.
#[verifier::external_body]
fn chrono_timestamp_text(seconds: i64, offset_seconds: i32) -> (r: Option<String>)
    requires
        -86_400 < offset_seconds < 86_400,
    ensures
        r matches Some(t) ==> t@ == timestamp_text(seconds, offset_seconds),
        surely_representable(seconds) ==> r is Some,
{
    let zone = chrono::FixedOffset::east_opt(offset_seconds)?;
    let instant = chrono::DateTime::<chrono::Utc>::from_timestamp(seconds, 0)?;
    Some(instant.with_timezone(&zone).format("%Y-%m-%d %H:%M:%S %:z").to_string())
}

/// The instant a timestamp is shown as: itself when a signed 64-bit count holds it, else the epoch.
pub open spec fn shown_seconds(timestamp: u64) -> i64 {
    if timestamp <= i64::MAX as u64 { timestamp as i64 } else { 0 }
}

/// Shows the instant `timestamp` (seconds after the epoch) at the UTC offset `offset_seconds`;
/// an instant that chrono cannot represent, or past what a signed 64-bit count holds, is shown
/// as the epoch.
pub fn format_timestamp(timestamp: u64, offset_seconds: i32) -> (r: String)
    requires
        -86_400 < offset_seconds < 86_400,
    ensures
        r@ == timestamp_text(shown_seconds(timestamp), offset_seconds)
            || r@ == timestamp_text(0, offset_seconds),
        surely_representable(shown_seconds(timestamp)) ==> r@ == timestamp_text(shown_seconds(timestamp), offset_seconds),
{
    let seconds: i64 = if timestamp <= i64::MAX as u64 { timestamp as i64 } else { 0 };
    match chrono_timestamp_text(seconds, offset_seconds) {
        Some(t) => t,
        None => match chrono_timestamp_text(0, offset_seconds) {
            Some(t) => t,
            None => {
                proof {
                    assert(surely_representable(0));
                    assert(false);
                }
                String::new()
            },
        },
    }
}

} // verus!
