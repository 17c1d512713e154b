//! Gateway addressing and payload types.
//!
//! The HTTP client that talks to the gateway lives outside the library; this
//! module owns the configuration, the endpoint addresses, and the payload
//! shapes the client sends.

use vstd::prelude::*;
use vstd::string::StringExecFns;
use crate::hsi::HsiSnapshot;
use crate::strfmt::{spec_u64_dec, u64_to_string};

verus! {

/// Where the gateway listens, and the bearer token it expects.
#[derive(Clone, Debug)]
pub struct GatewayConfig {
    /// Gateway host.
    pub host: String,
    /// Gateway port.
    pub port: u16,
    /// Bearer authentication token.
    pub token: String,
}

/// The base URL of a gateway configuration.
pub open spec fn spec_url(host: Seq<char>, port: u16) -> Seq<char> {
    "http://"@ + host + seq![':'] + spec_u64_dec(port as int)
}

impl GatewayConfig {
    /// A new gateway configuration.
    pub fn new(host: String, port: u16, token: String) -> (r: Self)
        ensures
            r.host == host,
            r.port == port,
            r.token == token,
    {
        GatewayConfig { host, port, token }
    }

    /// The base gateway URL.
    pub fn url(&self) -> (r: String)
        ensures
            r@ == spec_url(self.host@, self.port),
    {
        proof {
            reveal_strlit(":");
        }
        let mut out = String::from_str("http://");
        out.append(self.host.as_str());
        out.append(":");
        out.append(u64_to_string(self.port as u64).as_str());
        proof {
            assert(out@ =~= spec_url(self.host@, self.port));
        }
        out
    }

    /// The behavioral ingest endpoint URL.
    pub fn ingest_url(&self) -> (r: String)
        ensures
            r@ == spec_url(self.host@, self.port) + "/v1/ingest"@,
    {
        let mut out = self.url();
        out.append("/v1/ingest");
        out
    }

    /// The health check endpoint URL.
    pub fn health_url(&self) -> (r: String)
        ensures
            r@ == spec_url(self.host@, self.port) + "/health"@,
    {
        let mut out = self.url();
        out.append("/health");
        out
    }
}

/// Gateway client failures.
pub enum GatewayError {
    /// Configuration could not be read or was invalid.
    Config(String),
    /// The gateway could not be reached.
    Network(String),
    /// The gateway answered with an error status.
    Server { status: u16, message: String },
    /// A payload could not be serialized or parsed.
    Serialization(String),
}

/// Session metadata sent with each sync.
#[derive(Clone, Debug)]
pub struct SessionMeta {
    /// Producing software.
    pub source: String,
    /// Producing software version.
    pub version: String,
    /// Number of snapshots in the payload.
    pub snapshot_count: u64,
}

/// The session payload the gateway's ingest endpoint expects.
pub struct SessionPayload {
    pub session_id: String,
    pub device_id: String,
    pub timezone: String,
    pub start_time: String,
    pub end_time: String,
    pub snapshots: Vec<HsiSnapshot>,
    pub meta: SessionMeta,
}

/// The envelope around a session payload.
pub struct BehavioralSession {
    pub session: SessionPayload,
}

/// The gateway's summary of inferred state.
#[derive(Clone, Debug)]
pub struct HsiState {
    pub focus: Option<String>,
    pub load: Option<String>,
    pub recovery: Option<String>,
}

/// One field of the state summary: the value, or `unknown`.
pub open spec fn state_field(v: Option<String>) -> Seq<char> {
    match v {
        Some(x) => x@,
        None => "unknown"@,
    }
}

impl HsiState {
    /// A one-line rendering: `focus: F, load: L, recovery: R`.
    pub fn summary(&self) -> (r: String)
        ensures
            r@ == "focus: "@ + state_field(self.focus) + ", load: "@ + state_field(self.load)
                + ", recovery: "@ + state_field(self.recovery),
    {
        let mut out = String::from_str("focus: ");
        match &self.focus {
            Some(x) => out.append(x.as_str()),
            None => out.append("unknown"),
        }
        out.append(", load: ");
        match &self.load {
            Some(x) => out.append(x.as_str()),
            None => out.append("unknown"),
        }
        out.append(", recovery: ");
        match &self.recovery {
            Some(x) => out.append(x.as_str()),
            None => out.append("unknown"),
        }
        proof {
            assert(out@ =~= "focus: "@ + state_field(self.focus) + ", load: "@
                + state_field(self.load) + ", recovery: "@ + state_field(self.recovery));
        }
        out
    }
}

/// HTTP server configuration for the ingest endpoint's host program.
#[derive(Clone, Debug)]
pub struct ServerConfig {
    /// Port to bind to (zero for a random port).
    pub port: u16,
    /// Gateway to forward processed payloads to.
    pub gateway_config: GatewayConfig,
    /// Directory for baseline state.
    pub state_dir: String,
}

impl ServerConfig {
    /// A new server configuration.
    pub fn new(port: u16, gateway_config: GatewayConfig, state_dir: String) -> (r: Self)
        ensures
            r.port == port,
            r.gateway_config == gateway_config,
            r.state_dir == state_dir,
    {
        ServerConfig { port, gateway_config, state_dir }
    }
}

/// The health endpoint's response body.
#[derive(Clone, Debug)]
pub struct HealthResponse {
    pub status: String,
    pub version: String,
}

/// The ingest endpoint's error response body.
#[derive(Clone, Debug)]
pub struct ErrorResponse {
    pub error: String,
    pub code: String,
}

} // verus!
