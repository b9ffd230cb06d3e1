use vstd::prelude::*;
use vstd::string::StringExecFns;

use crate::error::IpDataError;
use crate::ipaddr::IpAddr;
use crate::ipaddr::ip_text;
use crate::json::Json;
use crate::json::get_field;
use crate::json::json_of_text;
use crate::json::obj_get;
use crate::json::parse_json;
use crate::lookup::IpData;
use crate::lookup::decode_ipdata;
use crate::lookup::decode_ipdata_spec;

verus! {

/// The endpoint used when no override is configured.
pub open spec fn default_url_spec() -> Seq<char> {
    "https://api.ipdata.co"@
}

/// The endpoint used when no override is configured.
pub fn default_url() -> (r: &'static str)
    ensures
        r@ == default_url_spec(),
{
    "https://api.ipdata.co"
}

/// Resolved configuration: the base endpoint and the optional API key.
pub struct Config {
    pub base_url: String,
    pub api_key: Option<String>,
}

/// Derives the configuration from environment-style values: an absent or
/// empty endpoint override falls back to the fixed default; the key is taken
/// as given, and its absence is non-fatal.
pub fn resolve_config(url_var: Option<String>, key_var: Option<String>) -> (r: Config)
    ensures
        r.base_url@ == (match url_var {
            Some(u) => if u@.len() == 0 {
                default_url_spec()
            } else {
                u@
            },
            None => default_url_spec(),
        }),
        r.api_key == key_var,
{
    let base_url = match url_var {
        Some(u) => {
            if u.as_str().is_empty() {
                default_url().to_owned()
            } else {
                u
            }
        },
        None => default_url().to_owned(),
    };
    Config { base_url, api_key: key_var }
}

/// What the outside URL parser yields on a text: absent where the text is not
/// an absolute URL, otherwise the parsed URL's normalized serialization. The
/// result depends on the text alone.
pub uninterp spec fn parsed_url(s: Seq<char>) -> Option<Seq<char>>;

/// What resolving a reference against a parsed base URL serializes to, absent
/// where the reference cannot be resolved. The base stands as its normalized
/// serialization.
pub uninterp spec fn joined_url(base: Seq<char>, reference: Seq<char>) -> Option<Seq<char>>;

/// What a parsed URL serializes to once its query is replaced.
pub uninterp spec fn url_with_query(u: Seq<char>, query: Seq<char>) -> Seq<char>;

/// Relies on url::Url::parse: it succeeds exactly on absolute URL texts, its
/// result is a function of the text alone, and a normalized serialization
/// parses back to itself.
#[verifier::external_body]
fn url_parse_normalize(s: &str) -> (r: Option<String>)
    ensures
        match r {
            Some(u) => parsed_url(s@) == Some(u@) && parsed_url(u@) == Some(u@),
            None => parsed_url(s@) is None,
        },
{
    url::Url::parse(s).ok().map(String::from)
}

/// Relies on url::Url::join, with url::Url::parse bringing the base back from
/// its serialization: resolves a reference against a base URL.
#[verifier::external_body]
fn url_join(base: &str, reference: &str) -> (r: Option<String>)
    requires
        parsed_url(base@) == Some(base@),
    ensures
        match r {
            Some(u) => joined_url(base@, reference@) == Some(u@) && parsed_url(u@) == Some(u@),
            None => joined_url(base@, reference@) is None,
        },
{
    match url::Url::parse(base) {
        Ok(b) => b.join(reference).ok().map(String::from),
        Err(_) => None,
    }
}

/// Relies on url::Url::set_query, with url::Url::parse bringing the URL back
/// from its serialization: replaces the query of a URL. Setting a query never
/// fails on a parsed URL.
#[verifier::external_body]
fn url_set_query(u: &str, query: &str) -> (r: String)
    requires
        parsed_url(u@) == Some(u@),
    ensures
        r@ == url_with_query(u@, query@),
{
    match url::Url::parse(u) {
        Ok(mut x) => {
            x.set_query(Some(query));
            String::from(x)
        },
        Err(_) => String::new(),
    }
}

/// Composes the endpoint for a lookup: the base URL, normalized, with the
/// address's canonical text joined as a reference when an address is given.
/// An endpoint that cannot be built is the configuration failure.
pub fn api_endpoint(base_url: &str, addr: &Option<IpAddr>) -> (r: Result<String, IpDataError>)
    ensures
        match r {
            Ok(u) => match parsed_url(base_url@) {
                Some(b) => parsed_url(u@) == Some(u@) && (match addr {
                    None => u@ == b,
                    Some(a) => joined_url(b, ip_text(*a)) == Some(u@),
                }),
                None => false,
            },
            Err(e) => match parsed_url(base_url@) {
                Some(b) => (match addr {
                    None => false,
                    Some(a) => joined_url(b, ip_text(*a)) is None,
                }) && e.message@ == "invalid endpoint URL"@,
                None => e.message@ == "invalid endpoint URL"@,
            },
        },
{
    let base = match url_parse_normalize(base_url) {
        Some(u) => u,
        None => { return Err(IpDataError::new("invalid endpoint URL")) },
    };
    match addr {
        None => Ok(base),
        Some(a) => {
            let text = a.to_text();
            match url_join(base.as_str(), text.as_str()) {
                Some(u) => Ok(u),
                None => Err(IpDataError::new("invalid endpoint URL")),
            }
        },
    }
}

/// Builds the full request URL for a configuration and an optional address:
/// the endpoint, with the key set as the "api-key" query parameter where one
/// is configured. Without a key the URL keeps no query string.
pub fn build_request_url(cfg: &Config, addr: &Option<IpAddr>) -> (r: Result<String, IpDataError>)
    ensures
        match r {
            Ok(u) => match parsed_url(cfg.base_url@) {
                Some(b) => {
                    let endpoint = match addr {
                        None => Some(b),
                        Some(a) => joined_url(b, ip_text(*a)),
                    };
                    match endpoint {
                        Some(e) => u@ == (match cfg.api_key {
                            Some(k) => url_with_query(e, "api-key="@ + k@),
                            None => e,
                        }),
                        None => false,
                    }
                },
                None => false,
            },
            Err(e) => (parsed_url(cfg.base_url@) is None || (match addr {
                None => false,
                Some(a) => joined_url(parsed_url(cfg.base_url@)->0, ip_text(*a)) is None,
            })) && e.message@ == "invalid endpoint URL"@,
        },
{
    let url = match api_endpoint(cfg.base_url.as_str(), addr) {
        Ok(u) => u,
        Err(e) => { return Err(e) },
    };
    match &cfg.api_key {
        Some(k) => {
            let mut q = String::from_str("api-key=");
            q.append(k.as_str());
            Ok(url_set_query(url.as_str(), q.as_str()))
        },
        None => Ok(url),
    }
}

/// What the outside status table holds for a code: its canonical reason
/// phrase, absent for an unknown or invalid code.
pub uninterp spec fn reason_phrase(code: u16) -> Option<Seq<char>>;

/// Relies on http::StatusCode::canonical_reason, with http::StatusCode::from_u16
/// bringing the code in: the canonical reason phrase of a status code, a
/// function of the code alone, absent where none is defined.
#[verifier::external_body]
fn canonical_reason_of(code: u16) -> (r: Option<String>)
    ensures
        match r {
            Some(p) => reason_phrase(code) == Some(p@),
            None => reason_phrase(code) is None,
        },
{
    match http::StatusCode::from_u16(code) {
        Ok(s) => s.canonical_reason().map(|p| p.to_owned()),
        Err(_) => None,
    }
}

/// Classifies a transport failure: the carried status code's canonical reason
/// phrase where one is known, the generic message otherwise. Finer transport
/// detail is deliberately not preserved.
pub fn request_error(status: Option<u16>) -> (r: IpDataError)
    ensures
        r.message@ == (match status {
            Some(code) => match reason_phrase(code) {
                Some(p) => p,
                None => "unknown error"@,
            },
            None => "unknown error"@,
        }),
{
    match status {
        Some(code) => match canonical_reason_of(code) {
            Some(p) => IpDataError { message: p },
            None => IpDataError::new("unknown error"),
        },
        None => IpDataError::new("unknown error"),
    }
}

/// The success range of HTTP statuses.
pub open spec fn is_success_spec(status: u16) -> bool {
    200 <= status < 300
}

/// Whether a status lies in the success range.
pub fn is_success(status: u16) -> (r: bool)
    ensures
        r == is_success_spec(status),
{
    200 <= status && status < 300
}

/// The message of a failure body: present when the body's JSON tree is an
/// object whose "message" member is a string.
pub open spec fn error_message_spec(t: Json) -> Option<Seq<char>> {
    match t {
        Json::Obj(fields) => match obj_get(fields@, "message"@) {
            Some(Json::Str(s)) => Some(s@),
            _ => None,
        },
        _ => None,
    }
}

/// Reads the message of a failure body's JSON tree.
fn error_message(t: &Json) -> (r: Option<String>)
    ensures
        match r {
            Some(m) => error_message_spec(*t) == Some(m@),
            None => error_message_spec(*t) is None,
        },
{
    let fields = match t {
        Json::Obj(fields) => fields,
        _ => { return None },
    };
    match get_field(fields, "message") {
        Some(m) => match m {
            Json::Str(s) => Some(s.clone()),
            _ => None,
        },
        None => None,
    }
}

/// Classifies a response once its status and body are at hand. A non-success
/// status yields the upstream error message, or the generic fallback where
/// the body carries none; a success status decodes the body into a result,
/// and a body that does not decode is the decode failure.
pub fn handle_response(status: u16, body: &str) -> (r: Result<IpData, IpDataError>)
    ensures
        match r {
            Ok(d) => is_success_spec(status) && (match json_of_text(body@) {
                Some(t) => decode_ipdata_spec(t) == Some(d@),
                None => false,
            }),
            Err(e) => if !is_success_spec(status) {
                e.message@ == (match json_of_text(body@) {
                    Some(t) => match error_message_spec(t) {
                        Some(m) => m,
                        None => "unknown failure occurred"@,
                    },
                    None => "unknown failure occurred"@,
                })
            } else {
                (match json_of_text(body@) {
                    Some(t) => decode_ipdata_spec(t) is None,
                    None => true,
                }) && e.message@ == "failed to decode response: unexpected shape"@
            },
        },
{
    let tree = parse_json(body);
    if !is_success(status) {
        let msg = match &tree {
            Some(t) => error_message(t),
            None => None,
        };
        match msg {
            Some(m) => Err(IpDataError { message: m }),
            None => Err(IpDataError::new("unknown failure occurred")),
        }
    } else {
        match &tree {
            Some(t) => match decode_ipdata(t) {
                Some(d) => Ok(d),
                None => Err(IpDataError::new("failed to decode response: unexpected shape")),
            },
            None => Err(IpDataError::new("failed to decode response: unexpected shape")),
        }
    }
}

} // verus!
