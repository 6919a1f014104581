//! Configuration for a remote runtime server, and the mapping of its HTTP
//! failures onto the runtime's error kinds.

use vstd::prelude::*;
use vstd::string::*;

use crate::errors::{BoxliteError, BoxliteResult};
use crate::strutil::str_eq;

verus! {

/// How to reach a remote runtime server.
#[derive(Debug, Clone)]
pub struct BoxliteRestOptions {
    /// Base URL of the server.
    pub url: String,
    /// OAuth2 client identifier.
    pub client_id: Option<String>,
    /// OAuth2 client secret.
    pub client_secret: Option<String>,
    /// API path prefix; `v1` when unset.
    pub prefix: Option<String>,
}

impl BoxliteRestOptions {
    /// Minimal configuration: a URL and no authentication.
    pub fn new(url: String) -> (r: BoxliteRestOptions)
        ensures
            r.url@ == url@,
            r.client_id is None,
            r.client_secret is None,
            r.prefix is None,
    {
        BoxliteRestOptions { url, client_id: None, client_secret: None, prefix: None }
    }

    /// Build a configuration from the values of the environment variables,
    /// each `None` when unset.  A missing URL is a configuration error.
    pub fn from_parts(
        url: Option<String>,
        client_id: Option<String>,
        client_secret: Option<String>,
        prefix: Option<String>,
    ) -> (r: BoxliteResult<BoxliteRestOptions>)
        ensures
            r is Ok <==> url is Some,
            match r {
                Ok(o) => o.url == url.unwrap() && o.client_id == client_id && o.client_secret
                    == client_secret && o.prefix == prefix,
                Err(e) => e is Config,
            },
    {
        match url {
            Some(u) => Ok(
                BoxliteRestOptions { url: u, client_id, client_secret, prefix },
            ),
            None => Err(BoxliteError::Config(String::from_str("rest server URL not set"))),
        }
    }

    /// Add OAuth2 credentials.
    pub fn with_credentials(self, client_id: String, client_secret: String) -> (r:
        BoxliteRestOptions)
        ensures
            r.url == self.url,
            r.client_id == Some(client_id),
            r.client_secret == Some(client_secret),
            r.prefix == self.prefix,
    {
        BoxliteRestOptions {
            client_id: Some(client_id),
            client_secret: Some(client_secret),
            ..self
        }
    }

    /// Set the API path prefix.
    pub fn with_prefix(self, prefix: String) -> (r: BoxliteRestOptions)
        ensures
            r.url == self.url,
            r.client_id == self.client_id,
            r.client_secret == self.client_secret,
            r.prefix == Some(prefix),
    {
        BoxliteRestOptions { prefix: Some(prefix), ..self }
    }

    /// The prefix in force: the configured one, or `v1`.
    pub fn effective_prefix(&self) -> (r: &str)
        ensures
            r@ == match self.prefix {
                Some(p) => p@,
                None => "v1"@,
            },
    {
        match &self.prefix {
            Some(p) => p.as_str(),
            None => "v1",
        }
    }
}

/// An error document as the server reports it.
#[derive(Debug, Clone)]
pub struct ErrorModel {
    /// Human-readable message.
    pub message: String,
    /// The server's error type name.
    pub error_type: String,
    /// The server's numeric code.
    pub code: u16,
}

/// The error kind a status and error-type pair maps to.
pub open spec fn spec_http_error_kind_of(status: u16, error_type: Seq<char>, r: &BoxliteError) -> bool {
    if status == 404 {
        r is NotFound
    } else if status == 409 && error_type == "AlreadyExistsError"@ {
        r is AlreadyExists
    } else if status == 409 && error_type == "InvalidStateError"@ {
        r is InvalidState
    } else if status == 409 && error_type == "StoppedError"@ {
        r is Stopped
    } else if status == 400 {
        r is InvalidArgument
    } else if status == 422 && error_type == "ImageError"@ {
        r is Image
    } else if status == 422 {
        r is InvalidArgument
    } else if status == 401 || status == 403 {
        r is Config
    } else {
        r is Internal
    }
}

/// Map an HTTP error response onto the runtime's error kinds.
pub fn map_http_error(status: u16, body: &ErrorModel) -> (r: BoxliteError)
    ensures
        spec_http_error_kind_of(status, body.error_type@, &r),
{
    if status == 404 {
        BoxliteError::NotFound(body.message.clone())
    } else if status == 409 && str_eq(body.error_type.as_str(), "AlreadyExistsError") {
        BoxliteError::AlreadyExists(body.message.clone())
    } else if status == 409 && str_eq(body.error_type.as_str(), "InvalidStateError") {
        BoxliteError::InvalidState(body.message.clone())
    } else if status == 409 && str_eq(body.error_type.as_str(), "StoppedError") {
        BoxliteError::Stopped(body.message.clone())
    } else if status == 400 {
        BoxliteError::InvalidArgument(body.message.clone())
    } else if status == 422 && str_eq(body.error_type.as_str(), "ImageError") {
        BoxliteError::Image(body.message.clone())
    } else if status == 422 {
        BoxliteError::InvalidArgument(body.message.clone())
    } else if status == 401 || status == 403 {
        BoxliteError::Config(String::from_str("auth: ").concat(body.message.as_str()))
    } else {
        BoxliteError::Internal(
            String::from_str("HTTP ").concat(crate::strutil::u64_to_dec(status as u64).as_str())
                .concat(": ").concat(body.message.as_str()),
        )
    }
}

/// Map a bare HTTP status, used when the body could not be parsed.
pub fn map_http_status(status: u16, text: &str) -> (r: BoxliteError)
    ensures
        status == 404 ==> r is NotFound,
        status == 401 || status == 403 ==> r is Config,
        !(status == 404 || status == 401 || status == 403) ==> r is Internal,
{
    if status == 404 {
        BoxliteError::NotFound(text.to_owned())
    } else if status == 401 || status == 403 {
        BoxliteError::Config(String::from_str("auth: ").concat(text))
    } else {
        BoxliteError::Internal(
            String::from_str("HTTP ").concat(crate::strutil::u64_to_dec(status as u64).as_str())
                .concat(": ").concat(text),
        )
    }
}

} // verus!
