//! Settings of the tray application and the decisions of its ping paths.
//!
//! The application keeps an endpoint URL and an API key, loaded from a
//! key-value store at startup and saved back when the user edits them.  A
//! ping is one POST of the configured endpoint's ping route carrying the API
//! key in a header; the decisions of that path (when a ping may be sent, what
//! it targets, and how the response status reads back as a message) are
//! verified here, while the HTTP transport itself stays outside the library.

use vstd::prelude::*;
use vstd::string::StringExecFns;

verus! {

/// How many seconds the background loop waits between pings.
pub const PING_INTERVAL_SECS: u64 = 900;

/// How many seconds a user-initiated connection test waits for an answer.
pub const CONNECTION_TIMEOUT_SECS: u64 = 5;

/// The persisted settings of the application.
#[derive(Debug)]
pub struct Settings {
    /// Base URL of the remote endpoint to notify.
    pub api_url: String,
    /// Key sent with every ping; an empty key means "not configured".
    pub api_key: String,
}

impl Default for Settings {
    /// The settings a fresh installation starts from: the local default
    /// endpoint and no API key.
    fn default() -> (r: Self)
        ensures
            r.api_url@ == "http://localhost:9759"@,
            r.api_key@ == Seq::<char>::empty(),
    {
        Settings { api_url: String::from_str("http://localhost:9759"), api_key: String::new() }
    }
}

/// The file the settings store lives in.
pub fn store_filename() -> (r: &'static str)
    ensures
        r@ == "settings.json"@,
{
    "settings.json"
}

/// The store key holding the endpoint URL.
pub fn api_url_key() -> (r: &'static str)
    ensures
        r@ == "api_url"@,
{
    "api_url"
}

/// The store key holding the API key.
pub fn api_key_key() -> (r: &'static str)
    ensures
        r@ == "api_key"@,
{
    "api_key"
}

/// The header the API key travels in.
pub fn api_key_header() -> (r: &'static str)
    ensures
        r@ == "X-API-Key"@,
{
    "X-API-Key"
}

/// Rebuilds the settings from what the store held, falling back to the
/// defaults for whatever is missing.
pub fn settings_from_store(api_url: Option<String>, api_key: Option<String>) -> (r: Settings)
    ensures
        (api_url matches Some(u) ==> r.api_url@ == u@),
        api_url is None ==> r.api_url@ == "http://localhost:9759"@,
        (api_key matches Some(k) ==> r.api_key@ == k@),
        api_key is None ==> r.api_key@ == Seq::<char>::empty(),
{
    let url = match api_url {
        Some(u) => u,
        None => String::from_str("http://localhost:9759"),
    };
    let key = match api_key {
        Some(k) => k,
        None => String::new(),
    };
    Settings { api_url: url, api_key: key }
}

/// The ping route under the configured endpoint.
pub fn ping_url(api_url: &str) -> (r: String)
    ensures
        r@ == api_url@ + "/api/v1/ping"@,
{
    let mut r = String::from_str(api_url);
    r.append("/api/v1/ping");
    r
}

/// One planned ping: the URL to POST and the key to send with it.
#[derive(Debug)]
pub struct PingRequest {
    pub url: String,
    pub api_key: String,
}

/// Decides one ping from the current settings: refused exactly when no API
/// key is configured, otherwise the POST of the ping route with the key.
pub fn ping_request(settings: &Settings) -> (r: Result<PingRequest, String>)
    ensures
        r is Ok <==> settings.api_key@.len() > 0,
        (r matches Ok(p) ==> p.url@ == settings.api_url@ + "/api/v1/ping"@ && p.api_key@
            == settings.api_key@),
        (r matches Err(e) ==> e@ == "API key not configured"@),
{
    if settings.api_key.as_str().is_empty() {
        Err(String::from_str("API key not configured"))
    } else {
        Ok(
            PingRequest {
                url: ping_url(settings.api_url.as_str()),
                api_key: settings.api_key.clone(),
            },
        )
    }
}

/// The decimal digit character for `d`.
pub open spec fn spec_digit(d: nat) -> char {
    ((d + 48) as u8) as char
}

/// The decimal rendering of `n`, most significant digit first, with no sign
/// and no leading zero (except for zero itself).
pub open spec fn spec_decimal(n: nat) -> Seq<char>
    decreases n,
{
    if n < 10 {
        seq![spec_digit(n)]
    } else {
        spec_decimal(n / 10).push(spec_digit(n % 10))
    }
}

/// Appends one decimal digit to `out`.
fn push_digit(out: &mut String, d: u16)
    requires
        d < 10,
    ensures
        final (out)@ == old(out)@ + seq![spec_digit(d as nat)],
{
    proof {
        reveal_strlit("0");
        reveal_strlit("1");
        reveal_strlit("2");
        reveal_strlit("3");
        reveal_strlit("4");
        reveal_strlit("5");
        reveal_strlit("6");
        reveal_strlit("7");
        reveal_strlit("8");
        reveal_strlit("9");
    }
    match d {
        0 => out.append("0"),
        1 => out.append("1"),
        2 => out.append("2"),
        3 => out.append("3"),
        4 => out.append("4"),
        5 => out.append("5"),
        6 => out.append("6"),
        7 => out.append("7"),
        8 => out.append("8"),
        _ => out.append("9"),
    }
}

/// Appends the decimal rendering of `n` to `out`.
pub fn push_decimal(out: &mut String, n: u16)
    ensures
        final (out)@ == old(out)@ + spec_decimal(n as nat),
    decreases n,
{
    if n >= 10 {
        push_decimal(out, n / 10);
        push_digit(out, n % 10);
    } else {
        push_digit(out, n);
    }
}

/// Reads a user-initiated ping's HTTP status as the message the host shows:
/// success for every 2xx status, otherwise a failure message naming the
/// status.
pub fn ping_outcome(status: u16) -> (r: Result<String, String>)
    ensures
        r is Ok <==> 200 <= status < 300,
        (r matches Ok(msg) ==> msg@ == "Ping successful"@),
        (r matches Err(msg) ==> msg@ == "Ping failed: "@ + spec_decimal(status as nat)),
{
    if 200 <= status && status < 300 {
        Ok(String::from_str("Ping successful"))
    } else {
        let mut msg = String::from_str("Ping failed: ");
        push_decimal(&mut msg, status);
        Err(msg)
    }
}

/// Reads a connection test's HTTP status as the message the host shows.
pub fn connection_outcome(status: u16) -> (r: Result<String, String>)
    ensures
        r is Ok <==> 200 <= status < 300,
        (r matches Ok(msg) ==> msg@ == "Connection successful!"@),
        (r matches Err(msg) ==> msg@ == "Failed: "@ + spec_decimal(status as nat)),
{
    if 200 <= status && status < 300 {
        Ok(String::from_str("Connection successful!"))
    } else {
        let mut msg = String::from_str("Failed: ");
        push_decimal(&mut msg, status);
        Err(msg)
    }
}

} // verus!
