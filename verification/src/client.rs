//! The transport engine's decisions: credential validation at construction,
//! the two URL namespaces, and the classification of HTTP statuses into
//! success and the typed errors. Performing the HTTP call itself is I/O and
//! stays with the binary, which feeds each raw status and body back through
//! [`classify_status`].

use vstd::prelude::*;

use crate::config::Config;
use crate::error::ApiError;

verus! {

/// The request kinds the engine issues, as far as classification cares.
#[derive(Debug, Clone, Copy, PartialEq, Eq, Structural)]
pub enum Verb {
    Get,
    Post,
    Patch,
    Delete,
}

/// Whether an option holds a non-empty string.
pub open spec fn key_present(k: Option<String>) -> bool {
    match k {
        Some(s) => s@.len() > 0,
        None => false,
    }
}

/// The authenticated API client: the resolved credential tuple. The
/// engine refuses to come into being without a complete tuple, so every
/// value of this type can authenticate.
#[derive(Debug, Clone)]
pub struct LangfuseClient {
    pub host: String,
    pub public_key: String,
    pub secret_key: String,
}

impl LangfuseClient {
    /// A well-formed client: nothing of the credential tuple is empty.
    pub open spec fn wf(self) -> bool {
        &&& self.host@.len() > 0
        &&& self.public_key@.len() > 0
        &&& self.secret_key@.len() > 0
    }

    /// Creates a client from a configuration. Construction succeeds exactly
    /// when both keys are present and non-empty and the host is non-empty;
    /// a missing key is refused before any network activity.
    pub fn new(config: &Config) -> (r: Result<LangfuseClient, ApiError>)
        ensures
            r is Ok <==> (key_present(config.public_key) && key_present(config.secret_key)
                && config.host@.len() > 0),
            r matches Ok(c) ==> {
                &&& c.wf()
                &&& Some(c.public_key@) == crate::config::opt_view(config.public_key)
                &&& Some(c.secret_key@) == crate::config::opt_view(config.secret_key)
                &&& c.host@ == config.host@
            },
            !key_present(config.public_key) ==> (r matches Err(e) && e matches
                ApiError::ConfigurationError(d) && d@ == "Public key is required"@),
            key_present(config.public_key) && !key_present(config.secret_key) ==> (r matches Err(e)
                && e matches ApiError::ConfigurationError(d) && d@ == "Secret key is required"@),
            key_present(config.public_key) && key_present(config.secret_key) && config.host@.len()
                == 0 ==> (r matches Err(e) && e matches ApiError::ConfigurationError(d) && d@
                == "Host is required"@),
    {
        let public_key = match &config.public_key {
            Some(k) => {
                if k.as_str().is_empty() {
                    return Err(
                        ApiError::ConfigurationError(String::from_str("Public key is required")),
                    );
                }
                k.clone()
            },
            None => {
                return Err(
                    ApiError::ConfigurationError(String::from_str("Public key is required")),
                );
            },
        };
        let secret_key = match &config.secret_key {
            Some(k) => {
                if k.as_str().is_empty() {
                    return Err(
                        ApiError::ConfigurationError(String::from_str("Secret key is required")),
                    );
                }
                k.clone()
            },
            None => {
                return Err(
                    ApiError::ConfigurationError(String::from_str("Secret key is required")),
                );
            },
        };
        if config.host.as_str().is_empty() {
            return Err(ApiError::ConfigurationError(String::from_str("Host is required")));
        }
        Ok(LangfuseClient { host: config.host.clone(), public_key, secret_key })
    }

    /// The absolute URL of a path in the v1 namespace.
    pub fn api_url(&self, path: &str) -> (r: String)
        ensures
            r@ == self.host@ + "/api/public"@ + path@,
    {
        let mut url = self.host.clone();
        url.append("/api/public");
        url.append(path);
        url
    }

    /// The absolute URL of a path in the v2 namespace.
    pub fn api_url_v2(&self, path: &str) -> (r: String)
        ensures
            r@ == self.host@ + "/api/public/v2"@ + path@,
    {
        let mut url = self.host.clone();
        url.append("/api/public/v2");
        url.append(path);
        url
    }
}

/// Which statuses count as success for each request kind: 200 always, 201
/// for the mutating POST and PATCH, 204 for DELETE.
pub open spec fn status_success(verb: Verb, status: u16) -> bool {
    match verb {
        Verb::Get => status == 200,
        Verb::Post => status == 200 || status == 201,
        Verb::Patch => status == 200 || status == 201,
        Verb::Delete => status == 200 || status == 204,
    }
}

/// The typed error for a non-success status: 401 and 403 are
/// authentication failures, 404 carries the body as the not-found detail,
/// 429 is throttling, and everything else keeps status and body raw.
pub open spec fn classify_error(status: u16, body: String) -> ApiError {
    if status == 401 || status == 403 {
        ApiError::AuthenticationError
    } else if status == 404 {
        ApiError::NotFoundError(body)
    } else if status == 429 {
        ApiError::RateLimitError
    } else {
        ApiError::ApiError { status, message: body }
    }
}

/// Classifies the outcome of one HTTP exchange: a success status hands the
/// body through, every other status becomes its typed error.
pub fn classify_status(verb: Verb, status: u16, body: String) -> (r: Result<String, ApiError>)
    ensures
        status_success(verb, status) ==> r == Ok::<String, ApiError>(body),
        !status_success(verb, status) ==> r == Err::<String, ApiError>(
            classify_error(status, body),
        ),
{
    let success = match verb {
        Verb::Get => status == 200,
        Verb::Post => status == 200 || status == 201,
        Verb::Patch => status == 200 || status == 201,
        Verb::Delete => status == 200 || status == 204,
    };
    if success {
        Ok(body)
    } else if status == 401 || status == 403 {
        Err(ApiError::AuthenticationError)
    } else if status == 404 {
        Err(ApiError::NotFoundError(body))
    } else if status == 429 {
        Err(ApiError::RateLimitError)
    } else {
        Err(ApiError::ApiError { status, message: body })
    }
}

/// Classifies a transport-level failure, before any status exists: a
/// local timeout is its own terminal outcome, every other transport
/// failure keeps its detail as a network error.
pub fn classify_transport_failure(is_timeout: bool, detail: String) -> (r: ApiError)
    ensures
        is_timeout ==> r == ApiError::TimeoutError,
        !is_timeout ==> r == ApiError::NetworkError(detail),
{
    if is_timeout {
        ApiError::TimeoutError
    } else {
        ApiError::NetworkError(detail)
    }
}

} // verus!
