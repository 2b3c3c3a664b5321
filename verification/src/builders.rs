//! The builder directory: the closed set of builder services, the endpoint
//! each one exposes, and construction of per-builder HTTP clients.

use vstd::prelude::*;
use vstd::string::StringExecFns;

verus! {

/// The closed set of builder services the relay knows about.
#[derive(Clone, Copy, Debug, PartialEq, Eq, Structural)]
pub enum BuilderKind {
    Titan,
    Beaver,
    Rsync,
}

/// The endpoint a builder exposes: where to POST, and which JSON-RPC method
/// that builder expects for private-transaction submission.
pub struct BuilderEndpoint {
    pub url: String,
    pub rpc_method: String,
}

impl BuilderEndpoint {
    pub fn new(url: &str, rpc_method: &str) -> (r: Self)
        ensures
            r.url@ == url@,
            r.rpc_method@ == rpc_method@,
    {
        Self { url: url.to_owned(), rpc_method: rpc_method.to_owned() }
    }
}

impl BuilderKind {
    /// The directory order in which the dispatcher walks the builder set.
    pub open spec fn spec_directory() -> Seq<BuilderKind> {
        seq![BuilderKind::Titan, BuilderKind::Beaver, BuilderKind::Rsync]
    }

    pub open spec fn spec_url(self) -> Seq<char> {
        match self {
            BuilderKind::Titan => "https://rpc.titanbuilder.xyz"@,
            BuilderKind::Beaver => "https://mevshare-rpc.beaverbuild.org"@,
            BuilderKind::Rsync => "https://rsync-builder.xyz"@,
        }
    }

    pub open spec fn spec_rpc_method(self) -> Seq<char> {
        match self {
            BuilderKind::Titan => "eth_sendPrivateTransaction"@,
            BuilderKind::Beaver => "eth_sendPrivateRawTransaction"@,
            BuilderKind::Rsync => "eth_sendPrivateRawTransaction"@,
        }
    }

    pub open spec fn spec_name(self) -> Seq<char> {
        match self {
            BuilderKind::Titan => "Titan"@,
            BuilderKind::Beaver => "Beaver"@,
            BuilderKind::Rsync => "Rsync"@,
        }
    }

    /// Every builder kind, in directory order.
    pub fn all() -> (r: Vec<BuilderKind>)
        ensures
            r@ == BuilderKind::spec_directory(),
    {
        let mut v: Vec<BuilderKind> = Vec::new();
        v.push(BuilderKind::Titan);
        v.push(BuilderKind::Beaver);
        v.push(BuilderKind::Rsync);
        proof {
            assert(v@ =~= BuilderKind::spec_directory());
        }
        v
    }

    /// The endpoint this builder expects private transactions on.
    pub fn endpoint(&self) -> (r: BuilderEndpoint)
        ensures
            r.url@ == self.spec_url(),
            r.rpc_method@ == self.spec_rpc_method(),
    {
        match self {
            Self::Titan => {
                BuilderEndpoint::new("https://rpc.titanbuilder.xyz", "eth_sendPrivateTransaction")
            },
            Self::Beaver => BuilderEndpoint::new(
                "https://mevshare-rpc.beaverbuild.org",
                "eth_sendPrivateRawTransaction",
            ),
            Self::Rsync => {
                BuilderEndpoint::new("https://rsync-builder.xyz", "eth_sendPrivateRawTransaction")
            },
        }
    }

    /// The builder's display name, for event reporting.
    pub fn name(&self) -> (r: String)
        ensures
            r@ == self.spec_name(),
    {
        match self {
            Self::Titan => "Titan".to_owned(),
            Self::Beaver => "Beaver".to_owned(),
            Self::Rsync => "Rsync".to_owned(),
        }
    }

    /// Construct the client for this builder. Construction fails only when
    /// the HTTP transport cannot be initialized; the failure is reported to
    /// the caller, who excludes the builder from the batch.
    pub fn builder(&self) -> (r: Result<Builder, BuilderError>)
        ensures
            r matches Ok(b) ==> b.kind == *self && b.wf(),
            r matches Err(e) ==> e is Client,
    {
        let endpoint = self.endpoint();
        match build_http_client() {
            Ok(client) => Ok(Builder { client, endpoint, kind: *self }),
            Err(msg) => Err(BuilderError::Client(msg)),
        }
    }
}

/// Why a single builder attempt failed.
#[derive(Debug, PartialEq, Eq)]
pub enum BuilderError {
    /// The HTTP client machinery failed: the client could not be constructed,
    /// the exchange did not complete, or the response body could not be
    /// decoded. Carries the transport's report, or the undecodable body.
    Client(String),
    /// The exchange completed but the response body carries a top-level
    /// `error` field. Carries the body.
    InvalidResponse(String),
}

impl BuilderError {
    /// The human-readable description of the failure, as the surrounding
    /// program reports it.
    pub fn describe(&self) -> (r: String)
        ensures
            self matches BuilderError::Client(m) ==> r@ == "HTTP client error: "@ + m@,
            self matches BuilderError::InvalidResponse(b) ==> r@ == "Invalid response from builder: "@
                + b@,
    {
        match self {
            BuilderError::Client(m) => {
                let mut s: String = "HTTP client error: ".to_owned();
                s.append(m.as_str());
                s
            },
            BuilderError::InvalidResponse(b) => {
                let mut s: String = "Invalid response from builder: ".to_owned();
                s.append(b.as_str());
                s
            },
        }
    }
}

#[verifier::external_type_specification]
#[verifier::external_body]
pub struct ExClient(reqwest::Client);

/// Relies on reqwest::Client::builder and reqwest::ClientBuilder::build:
/// constructs an HTTP client handle, or reports why the transport could not
/// be initialized. No request is issued here; the error is carried as text.
#[verifier::external_body]
fn build_http_client() -> Result<reqwest::Client, String> {
    match reqwest::Client::builder().build() {
        Ok(c) => Ok(c),
        Err(e) => Err(format!("{e}")),
    }
}

/// One per-builder client: the builder's identity, its endpoint, and the
/// HTTP transport handle it owns exclusively for the current batch.
pub struct Builder {
    pub client: reqwest::Client,
    pub endpoint: BuilderEndpoint,
    pub kind: BuilderKind,
}

impl Builder {
    /// A client posts to the endpoint of its own kind.
    pub open spec fn wf(self) -> bool {
        self.endpoint.url@ == self.kind.spec_url() && self.endpoint.rpc_method@
            == self.kind.spec_rpc_method()
    }

    /// The exact request body this client posts for the given transaction.
    pub fn request_body(&self, tx: &Vec<u8>) -> (r: String)
        ensures
            r@ == crate::payload::envelope(self.endpoint.rpc_method@, tx@),
    {
        crate::payload::request_body(self.endpoint.rpc_method.as_str(), tx)
    }
}

} // verus!
