//! How a task's web request is made: which headers are kept, and the
//! method, address and body of the request.

use vstd::prelude::*;
use vstd::string::StringExecFns;
use crate::task::{RequestMethod, TaskSpecification};
use super::errors::RequestMethodNotSupported;

verus! {

/// `str::to_lowercase`: the text with every letter in lower case, by the
/// Unicode rules, which this name stands for.
pub uninterp spec fn lowercase(s: Seq<char>) -> Seq<char>;

/// `str::to_lowercase`; its result is the name `lowercase` of its argument.
#[verifier::external_body]
fn to_lowercase(s: &str) -> (r: String)
    ensures
        r@ == lowercase(s@),
{
    s.to_lowercase()
}

/// A character that may stand in a header name: a letter, a digit, or one
/// of `!"#$%&'*+-.^_`|~` (the characters that `http`'s `HEADER_CHARS` table
/// does not map to zero).
pub open spec fn header_name_char(c: char) -> bool {
    ||| ('a' <= c && c <= 'z')
    ||| ('A' <= c && c <= 'Z')
    ||| ('0' <= c && c <= '9')
    ||| c == '!' || c == '"' || c == '#' || c == '$' || c == '%' || c == '&' || c == '\''
    ||| c == '*' || c == '+' || c == '-' || c == '.' || c == '^' || c == '_' || c == '`'
    ||| c == '|' || c == '~'
}

/// The longest header name accepted, in bytes (`MAX_HEADER_NAME_LEN`).
pub const MAX_HEADER_NAME_LEN: usize = 65535;

/// What `reqwest::header::HeaderName::from_str` accepts as a header name:
/// at least one and at most `MAX_HEADER_NAME_LEN` characters, each one that
/// may stand in a header name. Such characters are ASCII, so the count of
/// characters is the count of bytes; a name with any other character is
/// refused whatever its length.
pub open spec fn header_name_accepted(name: Seq<char>) -> bool {
    &&& 0 < name.len() <= MAX_HEADER_NAME_LEN
    &&& forall|i: int| 0 <= i < name.len() ==> #[trigger] header_name_char(name[i])
}

/// `reqwest::header::HeaderName::from_str`, asked only whether it accepts
/// the name: it does exactly when `header_name_accepted` holds.
#[verifier::external_body]
fn header_name_valid(name: &str) -> (r: bool)
    ensures
        r == header_name_accepted(name@),
{
    <reqwest::header::HeaderName as std::str::FromStr>::from_str(name).is_ok()
}

/// A header value that `reqwest::header::HeaderValue::from_str` accepts:
/// every byte is a tab, or at least a space and not DEL; a character
/// beyond ASCII is made of bytes above DEL, so it is accepted.
pub open spec fn header_value_ok(value: Seq<char>) -> bool {
    forall|i: int|
        0 <= i < value.len() ==> #[trigger] value[i] == '\t' || (value[i] >= ' ' && value[i] != '\x7f')
}

/// `reqwest::header::HeaderValue::from_str`, asked only whether it accepts
/// the value: it does when every byte is a tab, or at least a space and
/// not DEL.
#[verifier::external_body]
fn header_value_valid(value: &str) -> (r: bool)
    ensures
        r == header_value_ok(value@),
{
    reqwest::header::HeaderValue::from_str(value).is_ok()
}

/// A header is kept when its name, in lower case, and its value are both
/// accepted.
pub open spec fn header_kept(name: Seq<char>, value: Seq<char>) -> bool {
    header_name_accepted(lowercase(name)) && header_value_ok(value)
}

/// The headers a request carries: each header kept, in order, under its
/// name in lower case.
pub open spec fn built_headers(headers: Seq<(String, String)>) -> Seq<(Seq<char>, Seq<char>)>
    decreases headers.len(),
{
    if headers.len() == 0 {
        Seq::empty()
    } else {
        let rest = built_headers(headers.drop_last());
        let (name, value) = headers.last();
        if header_kept(name@, value@) {
            rest.push((lowercase(name@), value@))
        } else {
            rest
        }
    }
}

/// The text views of a list of headers.
pub open spec fn header_texts(headers: Seq<(String, String)>) -> Seq<(Seq<char>, Seq<char>)> {
    headers.map_values(|h: (String, String)| (h.0@, h.1@))
}

/// The headers of a request: those whose name, in lower case, and value
/// are accepted, in order, named in lower case.
pub fn build_headers(header_map: &Vec<(String, String)>) -> (r: Vec<(String, String)>)
    ensures
        header_texts(r@) == built_headers(header_map@),
{
    let mut r: Vec<(String, String)> = Vec::new();
    let mut i: usize = 0;
    while i < header_map.len()
        invariant
            i <= header_map.len(),
            header_texts(r@) == built_headers(header_map@.take(i as int)),
        decreases header_map.len() - i,
    {
        let (name, value) = &header_map[i];
        let lower = to_lowercase(name.as_str());
        let name_ok = header_name_valid(lower.as_str());
        let value_ok = header_value_valid(value.as_str());
        proof {
            assert(header_map@.take(i as int + 1).drop_last() =~= header_map@.take(i as int));
        }
        if name_ok && value_ok {
            r.push((lower, value.clone()));
            proof {
                assert(header_texts(r@) =~= built_headers(header_map@.take(i as int)).push((lowercase(name@), value@)));
            }
        }
        i = i + 1;
    }
    assert(header_map@.take(header_map.len() as int) =~= header_map@);
    r
}

/// The methods a web request is sent with.
#[derive(Debug, Clone, Copy, PartialEq, Eq, Structural)]
pub enum HttpMethod {
    Get,
    Post,
}

/// A web request ready to be sent: its method, its address, its headers,
/// and the JSON text of its body, if any.
#[derive(Debug)]
pub struct HttpRequestPlan {
    pub method: HttpMethod,
    pub url: String,
    pub headers: Vec<(String, String)>,
    pub json_body: Option<String>,
}

/// A GET request's address: the parameters, when given, follow a `?`.
pub open spec fn get_url(url: Seq<char>, params: Option<String>) -> Seq<char> {
    match params {
        Some(p) => url + "?"@ + p@,
        None => url,
    }
}

/// `plan` is the web request of a task of specification `spec`: its kept
/// headers; a GET to the endpoint with the payload as parameters in the
/// address; a POST to the endpoint with the payload as its JSON body.
pub open spec fn plans_task_request(spec: TaskSpecification, plan: HttpRequestPlan) -> bool {
    &&& header_texts(plan.headers@) == built_headers(spec.request_header@)
    &&& spec.request_method == RequestMethod::Get ==> plan.method == HttpMethod::Get && plan.url@ == get_url(
        spec.request_endpoint@,
        spec.payload,
    ) && plan.json_body is None
    &&& spec.request_method == RequestMethod::Post ==> plan.method == HttpMethod::Post && plan.url@
        == spec.request_endpoint@ && plan.json_body == spec.payload
}

/// The request for a task: a GET carries its parameters in the address, a
/// POST carries them as its JSON body; both carry the given headers, or
/// none. A websocket endpoint is refused: a web client cannot send it.
pub fn build_request(
    url: &str,
    request_method: RequestMethod,
    headers: Option<Vec<(String, String)>>,
    params: Option<String>,
) -> (r: Result<HttpRequestPlan, RequestMethodNotSupported>)
    ensures
        request_method == RequestMethod::Websocket <==> r is Err,
        r matches Ok(plan) ==> {
            &&& plan.headers@ == (match headers {
                Some(h) => h@,
                None => Seq::empty(),
            })
            &&& request_method == RequestMethod::Get ==> plan.method == HttpMethod::Get && plan.url@ == get_url(
                url@,
                params,
            ) && plan.json_body is None
            &&& request_method == RequestMethod::Post ==> plan.method == HttpMethod::Post && plan.url@ == url@
                && plan.json_body == params
        },
{
    let header_list = match headers {
        Some(h) => h,
        None => Vec::new(),
    };
    match request_method {
        RequestMethod::Get => {
            let mut full = String::from_str(url);
            match &params {
                Some(p) => {
                    full.append("?");
                    full.append(p.as_str());
                },
                None => {},
            }
            Ok(HttpRequestPlan { method: HttpMethod::Get, url: full, headers: header_list, json_body: None })
        },
        RequestMethod::Post => Ok(
            HttpRequestPlan {
                method: HttpMethod::Post,
                url: String::from_str(url),
                headers: header_list,
                json_body: params,
            },
        ),
        RequestMethod::Websocket => Err(RequestMethodNotSupported),
    }
}

} // verus!
