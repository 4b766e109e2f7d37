use std::collections::HashMap;
use vstd::prelude::*;

verus! {

/// The HTTP methods a run may use.
#[derive(Debug, Clone, Copy, PartialEq, Eq, Structural)]
pub enum Method {
    Get,
    Post,
    Put,
    Delete,
    Patch,
}

/// Why one request produced no response.
#[derive(Debug, Clone)]
pub enum RequestError {
    /// The method name is none of GET, POST, PUT, DELETE, PATCH; nothing was sent.
    InvalidMethod(String),
    /// The transport failed (DNS, connection, TLS, timeout); carries its description.
    Transport(String),
}

/// The method that `name` designates, if it is one of the supported ones.
pub open spec fn method_of(name: Seq<char>) -> Option<Method> {
    if name == "GET"@ {
        Some(Method::Get)
    } else if name == "POST"@ {
        Some(Method::Post)
    } else if name == "PUT"@ {
        Some(Method::Put)
    } else if name == "DELETE"@ {
        Some(Method::Delete)
    } else if name == "PATCH"@ {
        Some(Method::Patch)
    } else {
        None
    }
}

/// Reads an HTTP method name; names are case-sensitive and upper case.
pub fn parse_method(name: &String) -> (r: Result<Method, RequestError>)
    ensures
        r is Ok <==> method_of(name@) is Some,
        r is Ok ==> method_of(name@) == Some(r->Ok_0),
        r is Err ==> (r->Err_0 matches RequestError::InvalidMethod(n) && n@ == name@),
{
    if *name == "GET".to_owned() {
        Ok(Method::Get)
    } else if *name == "POST".to_owned() {
        Ok(Method::Post)
    } else if *name == "PUT".to_owned() {
        Ok(Method::Put)
    } else if *name == "DELETE".to_owned() {
        Ok(Method::Delete)
    } else if *name == "PATCH".to_owned() {
        Ok(Method::Patch)
    } else {
        Err(RequestError::InvalidMethod(name.clone()))
    }
}

/// Header name of the identifying user agent sent with every request.
pub open spec fn user_agent_name() -> Seq<char> {
    "user-agent"@
}

/// Value of the identifying user agent sent with every request.
pub open spec fn user_agent_value() -> Seq<char> {
    "the-awesome-agent/007"@
}

/// The identifying user-agent header, as a name and a value.
pub fn default_user_agent() -> (r: (String, String))
    ensures
        r.0@ == user_agent_name(),
        r.1@ == user_agent_value(),
{
    ("user-agent".to_owned(), "the-awesome-agent/007".to_owned())
}

/// What one completed HTTP round trip produced.
#[derive(Debug, Clone)]
pub struct ResponseStats {
    pub status: u16,
    /// Length of the body in bytes as the transport reported it, zero when it did not.
    pub content_length: u64,
    /// The content-type header, empty when absent.
    pub content_type: String,
    pub headers: HashMap<String, String>,
    /// Milliseconds from sending the request to receiving the status line and headers.
    pub duration: u128,
}

impl ResponseStats {
    /// Builds the record of a response: an unreported length counts as zero bytes and an
    /// absent content type as the empty string.
    pub fn from_parts(
        status: u16,
        content_length: Option<u64>,
        content_type: Option<String>,
        headers: HashMap<String, String>,
        duration: u128,
    ) -> (r: ResponseStats)
        ensures
            r.status == status,
            r.content_length == (match content_length {
                Some(n) => n,
                None => 0,
            }),
            r.content_type@ == (match content_type {
                Some(t) => t@,
                None => Seq::<char>::empty(),
            }),
            r.headers == headers,
            r.duration == duration,
    {
        let content_length = match content_length {
            Some(n) => n,
            None => 0,
        };
        let content_type = match content_type {
            Some(t) => t,
            None => String::new(),
        };
        ResponseStats { status, content_length, content_type, headers, duration }
    }
}

/// A status that counts as an error: 400 and above.
pub open spec fn is_error_status_spec(status: u16) -> bool {
    status >= 400
}

/// A status that counts as a redirect: 300 to 399.
pub open spec fn is_redirect_status_spec(status: u16) -> bool {
    300 <= status < 400
}

/// Whether `status` counts as an error.
pub fn is_error_status(status: u16) -> (r: bool)
    ensures
        r == is_error_status_spec(status),
{
    status >= 400
}

/// Whether `status` counts as a redirect.
pub fn is_redirect_status(status: u16) -> (r: bool)
    ensures
        r == is_redirect_status_spec(status),
{
    status >= 300 && status < 400
}

} // verus!
