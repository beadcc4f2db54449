use vstd::prelude::*;
use vstd::string::StrSliceExecFns;

use crate::utils::errors::{Result, SessionManagerError, prefixed};

verus! {

#[derive(Debug, Clone)]
pub struct AppConfig {
    pub server: ServerConfig,
    pub livekit: LiveKitConfig,
    pub microservices: MicroserviceConfig,
    pub logging: LoggingConfig,
    pub vector_log: VectorLogConfig,
}

#[derive(Debug, Clone)]
pub struct ServerConfig {
    pub host: String,
    pub port: u16,
    pub workers: Option<usize>,
}

/// Address and credentials of the room provider.
#[derive(Debug, Clone)]
pub struct LiveKitConfig {
    pub server_url: String,
    pub api_key: String,
    pub api_secret: String,
}

/// Timeouts for worker registration and joining, in seconds.
#[derive(Debug, Clone, Copy, PartialEq, Eq, Structural)]
pub struct MicroserviceConfig {
    pub registration_timeout: u64,
    pub join_timeout: u64,
}

#[derive(Debug, Clone)]
pub struct LoggingConfig {
    pub level: String,
    pub format: String,
}

#[derive(Debug, Clone)]
pub struct VectorLogConfig {
    pub enabled: bool,
    pub endpoint: String,
    pub source_name: String,
}

/// The settings the process environment may give; `None` where a variable
/// is not set.
#[derive(Debug)]
pub struct EnvOverrides {
    pub livekit_server_url: Option<String>,
    pub livekit_api_key: Option<String>,
    pub livekit_api_secret: Option<String>,
    pub server_host: Option<String>,
    pub server_port: Option<String>,
    pub vector_log_enabled: Option<String>,
    pub vector_log_endpoint: Option<String>,
}

/// Decimal value of a string of ASCII digits.
pub open spec fn digits_value(s: Seq<char>) -> int
    decreases s.len(),
{
    if s.len() == 0 {
        0
    } else {
        digits_value(s.drop_last()) * 10 + (s.last() as int - '0' as int)
    }
}

pub open spec fn all_digits(s: Seq<char>) -> bool {
    forall|i: int| 0 <= i < s.len() ==> '0' <= #[trigger] s[i] <= '9'
}

/// A port number as Rust's `u16` parsing reads it: an optional `+`, then one
/// or more ASCII digits, with a value that fits.
pub open spec fn port_value(s: Seq<char>) -> Option<u16> {
    let body = if s.len() > 0 && s[0] == '+' { s.drop_first() } else { s };
    if body.len() > 0 && all_digits(body) && digits_value(body) <= u16::MAX {
        Some(digits_value(body) as u16)
    } else {
        None
    }
}

/// Reads a port number; `None` where `s` is not one.
pub fn parse_port(s: &str) -> (r: Option<u16>)
    ensures
        r == port_value(s@),
{
    let n = s.unicode_len();
    let mut start: usize = 0;
    if n > 0 && s.get_char(0) == '+' {
        start = 1;
    }
    let ghost body = s@.subrange(start as int, n as int);
    assert(body =~= if s@.len() > 0 && s@[0] == '+' { s@.drop_first() } else { s@ });
    if start == n {
        return None;
    }
    let mut value: u32 = 0;
    let mut i: usize = start;
    while i < n
        invariant
            start <= i <= n,
            n == s@.len(),
            body == s@.subrange(start as int, n as int),
            body.len() > 0,
            port_value(s@) == (if all_digits(body) && digits_value(body) <= u16::MAX {
                Some(digits_value(body) as u16)
            } else {
                None::<u16>
            }),
            all_digits(body.take(i - start)),
            value == digits_value(body.take(i - start)),
            value <= u16::MAX,
        decreases n - i,
    {
        let c = s.get_char(i);
        assert(body.take(i - start + 1).drop_last() =~= body.take(i - start));
        assert(body[i - start] == c);
        if c < '0' || c > '9' {
            assert(!all_digits(body)) by {
                assert(body[i - start] == c);
            }
            return None;
        }
        let d = (c as u32) - ('0' as u32);
        if value > 6553 || (value == 6553 && d > 5) {
            assert(digits_value(body.take(i - start + 1)) > u16::MAX);
            proof {
                if all_digits(body) {
                    lemma_digits_grow(body, (i - start + 1) as int);
                }
            }
            return None;
        }
        value = value * 10 + d;
        assert(all_digits(body.take(i - start + 1))) by {
            assert forall|k: int| 0 <= k < body.take(i - start + 1).len() implies '0' <= #[trigger] body.take(i - start + 1)[k] <= '9' by {
                if k < i - start {
                    assert(body.take(i - start + 1)[k] == body.take(i - start)[k]);
                }
            }
        }
        i += 1;
    }
    assert(body.take(n - start) =~= body);
    Some(value as u16)
}

/// The value of a digit string is at least that of any of its prefixes.
proof fn lemma_digits_grow(s: Seq<char>, k: int)
    requires
        0 <= k <= s.len(),
        all_digits(s),
    ensures
        digits_value(s) >= digits_value(s.take(k)),
        digits_value(s) >= 0,
    decreases s.len(),
{
    if s.len() == 0 {
        assert(s.take(k) =~= s);
    } else if k < s.len() {
        assert(s.drop_last().take(k) =~= s.take(k));
        assert(all_digits(s.drop_last())) by {
            assert forall|i: int| 0 <= i < s.drop_last().len() implies '0' <= #[trigger] s.drop_last()[i] <= '9' by {
                assert(s.drop_last()[i] == s[i]);
            }
        }
        lemma_digits_grow(s.drop_last(), k);
    } else {
        assert(s.take(k) =~= s);
        assert(all_digits(s.drop_last())) by {
            assert forall|i: int| 0 <= i < s.drop_last().len() implies '0' <= #[trigger] s.drop_last()[i] <= '9' by {
                assert(s.drop_last()[i] == s[i]);
            }
        }
        lemma_digits_grow(s.drop_last(), 0);
    }
}

pub open spec fn is_true_text(o: Option<Seq<char>>) -> bool {
    o == Some("true"@)
}

pub open spec fn opt_view(o: Option<String>) -> Option<Seq<char>> {
    match o {
        Some(s) => Some(s@),
        None => None,
    }
}

/// `o` if given, else `default`.
fn or_default(o: &Option<String>, default: &str) -> (r: String)
    ensures
        r@ == match o { Some(s) => s@, None => default@ },
{
    match o {
        Some(s) => s.clone(),
        None => default.to_owned(),
    }
}

fn is_true(o: &Option<String>) -> (r: bool)
    ensures
        r == is_true_text(opt_view(*o)),
{
    proof {
        reveal_strlit("true");
    }
    match o {
        Some(s) => s.eq(&String::from_str("true")),
        None => false,
    }
}

impl AppConfig {
    /// The built-in configuration, with the credentials and the log
    /// shipping settings the environment gives: key `devkey` and secret
    /// `secret` by default; log shipping on unless the environment says
    /// otherwise, to `localhost:9000`.
    pub fn defaults(env: &EnvOverrides) -> (r: AppConfig)
        ensures
            r.server.host@ == "0.0.0.0"@,
            r.server.port == 8080,
            r.server.workers == Some(4usize),
            r.livekit.server_url@ == "ws://localhost:7880"@,
            r.livekit.api_key@ == match env.livekit_api_key { Some(s) => s@, None => "devkey"@ },
            r.livekit.api_secret@ == match env.livekit_api_secret { Some(s) => s@, None => "secret"@ },
            r.microservices.registration_timeout == 30,
            r.microservices.join_timeout == 60,
            r.logging.level@ == "debug"@,
            r.logging.format@ == "json"@,
            r.vector_log.enabled == (env.vector_log_enabled is None || is_true_text(opt_view(env.vector_log_enabled))),
            r.vector_log.endpoint@ == match env.vector_log_endpoint { Some(s) => s@, None => "localhost:9000"@ },
            r.vector_log.source_name@ == "session-manager"@,
    {
        AppConfig {
            server: ServerConfig { host: String::from_str("0.0.0.0"), port: 8080, workers: Some(4) },
            livekit: LiveKitConfig {
                server_url: String::from_str("ws://localhost:7880"),
                api_key: or_default(&env.livekit_api_key, "devkey"),
                api_secret: or_default(&env.livekit_api_secret, "secret"),
            },
            microservices: MicroserviceConfig { registration_timeout: 30, join_timeout: 60 },
            logging: LoggingConfig { level: String::from_str("debug"), format: String::from_str("json") },
            vector_log: VectorLogConfig {
                enabled: env.vector_log_enabled.is_none() || is_true(&env.vector_log_enabled),
                endpoint: or_default(&env.vector_log_endpoint, "localhost:9000"),
                source_name: String::from_str("session-manager"),
            },
        }
    }

    /// Lets the environment override the room provider's address and
    /// credentials, the server's host and port, and the log shipping
    /// settings. A port that does not parse is a configuration error.
    pub fn apply_overrides(self, env: &EnvOverrides) -> (r: Result<AppConfig>)
        ensures
            env.server_port is Some && port_value(env.server_port->0@) is None <==> r is Err,
            r is Err ==> r->Err_0 is Configuration,
            r is Ok ==> {
                let c = r->Ok_0;
                &&& c.livekit.server_url@ == match env.livekit_server_url { Some(s) => s@, None => self.livekit.server_url@ }
                &&& c.livekit.api_key@ == match env.livekit_api_key { Some(s) => s@, None => self.livekit.api_key@ }
                &&& c.livekit.api_secret@ == match env.livekit_api_secret { Some(s) => s@, None => self.livekit.api_secret@ }
                &&& c.server.host@ == match env.server_host { Some(s) => s@, None => self.server.host@ }
                &&& c.server.port == match env.server_port { Some(s) => port_value(s@)->0, None => self.server.port }
                &&& c.server.workers == self.server.workers
                &&& c.vector_log.enabled == match env.vector_log_enabled { Some(s) => s@ == "true"@, None => self.vector_log.enabled }
                &&& c.vector_log.endpoint@ == match env.vector_log_endpoint { Some(s) => s@, None => self.vector_log.endpoint@ }
                &&& c.vector_log.source_name@ == self.vector_log.source_name@
                &&& c.microservices == self.microservices
                &&& c.logging.level@ == self.logging.level@
                &&& c.logging.format@ == self.logging.format@
            },
    {
        let mut config = self;
        match &env.livekit_server_url {
            Some(url) => config.livekit.server_url = url.clone(),
            None => {},
        }
        match &env.livekit_api_key {
            Some(key) => config.livekit.api_key = key.clone(),
            None => {},
        }
        match &env.livekit_api_secret {
            Some(secret) => config.livekit.api_secret = secret.clone(),
            None => {},
        }
        match &env.server_host {
            Some(host) => config.server.host = host.clone(),
            None => {},
        }
        match &env.server_port {
            Some(port) => match parse_port(port.as_str()) {
                Some(p) => config.server.port = p,
                None => {
                    return Err(SessionManagerError::Configuration(prefixed("Invalid port: ", port)));
                },
            },
            None => {},
        }
        match &env.vector_log_enabled {
            Some(enabled) => {
                proof {
                    reveal_strlit("true");
                }
                config.vector_log.enabled = enabled.eq(&String::from_str("true"));
            },
            None => {},
        }
        match &env.vector_log_endpoint {
            Some(endpoint) => config.vector_log.endpoint = endpoint.clone(),
            None => {},
        }
        Ok(config)
    }
}

} // verus!
