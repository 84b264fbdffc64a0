//! FortiGate REST API client logic: where requests go and what a response
//! means. The HTTP exchange itself is performed by the terminal layer.

use vstd::prelude::*;
use crate::json::{
    get_in, json_get, json_str, json_to_string, opt_val, parse_json, parse_result_view,
    serde_json_parse, json_text, str_of, JsonValue,
};
use crate::text::{
    chars_of, decimal, is_blank, is_white_space, lemma_trim_empty, push_decimal, push_str,
    string_from_chars, trim,
};

verus! {

/// The monitor-API base URL of a FortiGate: `https://{host}:{port}/api/v2/monitor`.
pub open spec fn base_url_text(host: Seq<char>, port: u16) -> Seq<char> {
    "https://"@ + host + ":"@ + decimal(port as nat) + "/api/v2/monitor"@
}

/// Builds the monitor-API base URL for a host and port.
pub fn base_url(host: &str, port: u16) -> (s: String)
    ensures
        s@ == base_url_text(host@, port),
{
    let mut out: Vec<char> = Vec::new();
    push_str(&mut out, "https://");
    push_str(&mut out, host);
    push_str(&mut out, ":");
    push_decimal(&mut out, port as u128);
    push_str(&mut out, "/api/v2/monitor");
    string_from_chars(&out)
}

/// The URL of a monitor endpoint: the base URL followed by the endpoint path.
pub fn endpoint_url(base: &str, endpoint: &str) -> (s: String)
    ensures
        s@ == base@ + endpoint@,
{
    let mut out: Vec<char> = Vec::new();
    push_str(&mut out, base);
    push_str(&mut out, endpoint);
    string_from_chars(&out)
}

/// What `reqwest::Url::parse_with_params(base, params)` followed by
/// `to_string` yields: the URL with the parameters form-encoded, or the text of
/// the URL parse error. A function of its arguments alone.
pub uninterp spec fn url_with_params(
    base: Seq<char>,
    params: Seq<(Seq<char>, Seq<char>)>,
) -> Result<Seq<char>, Seq<char>>;

/// Query parameters as character sequences.
pub open spec fn params_view(params: Seq<(&str, &str)>) -> Seq<(Seq<char>, Seq<char>)> {
    params.map_values(|p: (&str, &str)| (p.0@, p.1@))
}

/// A string result as characters.
pub open spec fn text_result_view(r: Result<String, String>) -> Result<Seq<char>, Seq<char>> {
    match r {
        Ok(s) => Ok(s@),
        Err(e) => Err(e@),
    }
}

/// `reqwest::Url::parse_with_params` rendered back to text; the result is
/// named by `url_with_params`.
#[verifier::external_body]
fn parse_with_params(base: &str, params: &[(&str, &str)]) -> (r: Result<String, String>)
    ensures
        text_result_view(r) == url_with_params(base@, params_view(params@)),
{
    reqwest::Url::parse_with_params(base, params.iter().map(|(k, v)| (*k, *v))).map(
        |u| u.to_string(),
    ).map_err(|e| e.to_string())
}

/// The URL of a monitor endpoint with URL-encoded query parameters: the plain
/// endpoint URL when there are none; otherwise the encoded URL, or an
/// `invalid query URL for {endpoint}: {error}` error.
pub open spec fn query_url_result(
    base: Seq<char>,
    endpoint: Seq<char>,
    params: Seq<(Seq<char>, Seq<char>)>,
) -> Result<Seq<char>, Seq<char>> {
    if params.len() == 0 {
        Ok(base + endpoint)
    } else {
        match url_with_params(base + endpoint, params) {
            Ok(u) => Ok(u),
            Err(e) => Err("invalid query URL for "@ + endpoint + ": "@ + e),
        }
    }
}

/// Builds the URL of a monitor endpoint with query parameters (route
/// lookup's `?destination=`).
pub fn query_url(base: &str, endpoint: &str, params: &[(&str, &str)]) -> (r: Result<String, String>)
    ensures
        text_result_view(r) == query_url_result(base@, endpoint@, params_view(params@)),
{
    let url = endpoint_url(base, endpoint);
    if params.len() == 0 {
        return Ok(url);
    }
    match parse_with_params(url.as_str(), params) {
        Ok(u) => Ok(u),
        Err(e) => {
            let mut out: Vec<char> = Vec::new();
            push_str(&mut out, "invalid query URL for ");
            push_str(&mut out, endpoint);
            push_str(&mut out, ": ");
            push_str(&mut out, e.as_str());
            Err(string_from_chars(&out))
        },
    }
}

/// The error text a FortiGate error body carries: its `error` member, else
/// `message`, else `status`, else `request failed`.
pub open spec fn error_message(parsed: Option<JsonValue>) -> Seq<char> {
    match str_of(get_in(parsed, "error"@)) {
        Some(s) => s,
        None => match str_of(get_in(parsed, "message"@)) {
            Some(s) => s,
            None => match str_of(get_in(parsed, "status"@)) {
                Some(s) => s,
                None => "request failed"@,
            },
        },
    }
}

/// The first 120 characters of a non-blank body; nothing for a blank one.
pub open spec fn body_snippet(text: Seq<char>) -> Seq<char> {
    if trim(text).len() == 0 {
        Seq::empty()
    } else if text.len() <= 120 {
        text
    } else {
        text.take(120)
    }
}

/// The bracketed detail of an error: the body's `http_status` member as JSON,
/// else the body snippet.
pub open spec fn error_code(parsed: Option<JsonValue>, text: Seq<char>) -> Seq<char> {
    match get_in(parsed, "http_status"@) {
        Some(c) => json_text(c),
        None => body_snippet(text),
    }
}

/// The meaning of a monitor-API response with HTTP `status` and body `text`
/// fetched from `url`, given what parsing the body as JSON gave (`parsed`):
/// - 2xx with a blank body: `Null` ("no results"; the parse is not used);
/// - 2xx otherwise: the parsed document, or `invalid JSON from {url}: {error}`;
/// - any other status: an error naming the status, the FortiGate message and,
///   in brackets, the `http_status` member or a body snippet when there is one.
pub open spec fn response_from(
    status: u16,
    text: Seq<char>,
    url: Seq<char>,
    parsed: Result<JsonValue, Seq<char>>,
) -> Result<JsonValue, Seq<char>> {
    if 200 <= status && status < 300 {
        if trim(text).len() == 0 {
            Ok(JsonValue::Null)
        } else {
            match parsed {
                Ok(v) => Ok(v),
                Err(e) => Err("invalid JSON from "@ + url + ": "@ + e),
            }
        }
    } else {
        let doc = match parsed {
            Ok(v) => Some(v),
            Err(_) => None,
        };
        let code = error_code(doc, text);
        let detail = if code.len() == 0 {
            Seq::empty()
        } else {
            " ["@ + code + "]"@
        };
        Err(
            "FortiGate returned HTTP "@ + decimal(status as nat) + " ("@ + error_message(doc)
                + ") for "@ + url + detail,
        )
    }
}

/// The meaning of a monitor-API response, the body parsed by `serde_json`.
pub open spec fn response_meaning(status: u16, text: Seq<char>, url: Seq<char>) -> Result<
    JsonValue,
    Seq<char>,
> {
    response_from(status, text, url, serde_json_parse(text))
}

fn first_str(parsed: Option<&JsonValue>, key: &str) -> (r: Option<String>)
    ensures
        r matches Some(s) ==> str_of(get_in(opt_val(parsed), key@)) == Some(s@),
        r is None ==> str_of(get_in(opt_val(parsed), key@)) is None,
{
    match parsed {
        Some(b) => json_str(json_get(b, key)),
        None => None,
    }
}

fn snippet(text: &str) -> (s: Vec<char>)
    ensures
        s@ == body_snippet(text@),
{
    if is_blank(text) {
        return Vec::new();
    }
    let v = chars_of(text);
    if v.len() <= 120 {
        return v;
    }
    let mut out: Vec<char> = Vec::new();
    let mut i: usize = 0;
    while i < 120
        invariant
            i <= 120 < v@.len(),
            out@ == v@.take(i as int),
        decreases 120 - i,
    {
        out.push(v[i]);
        i = i + 1;
    }
    assert(v@ == text@);
    out
}

/// Interprets a monitor-API response given the result of parsing its body
/// (see [`response_from`]).
pub fn response_from_parsed(
    status: u16,
    text: &str,
    url: &str,
    parsed: Result<JsonValue, String>,
) -> (r: Result<JsonValue, String>)
    ensures
        parse_result_view(r) == response_from(status, text@, url@, parse_result_view(parsed)),
{
    if 200 <= status && status < 300 {
        if is_blank(text) {
            return Ok(JsonValue::Null);
        }
        return match parsed {
            Ok(v) => Ok(v),
            Err(e) => {
                let mut out: Vec<char> = Vec::new();
                push_str(&mut out, "invalid JSON from ");
                push_str(&mut out, url);
                push_str(&mut out, ": ");
                push_str(&mut out, e.as_str());
                Err(string_from_chars(&out))
            },
        };
    }
    let parsed_r = parsed;
    let parsed: Option<&JsonValue> = match &parsed_r {
        Ok(v) => Some(v),
        Err(_) => None,
    };
    let ghost pv = match parse_result_view(parsed_r) {
        Ok(v) => Some(v),
        Err(_) => None,
    };
    assert(opt_val(parsed) == pv);
    let mut msg: Vec<char> = Vec::new();
    match first_str(parsed, "error") {
        Some(s) => push_str(&mut msg, s.as_str()),
        None => match first_str(parsed, "message") {
            Some(s) => push_str(&mut msg, s.as_str()),
            None => match first_str(parsed, "status") {
                Some(s) => push_str(&mut msg, s.as_str()),
                None => push_str(&mut msg, "request failed"),
            },
        },
    }
    assert(msg@ == error_message(pv));
    let code: Vec<char> = match parsed {
        Some(b) => match json_get(b, "http_status") {
            Some(c) => chars_of(json_to_string(c).as_str()),
            None => snippet(text),
        },
        None => snippet(text),
    };
    assert(code@ == error_code(pv, text@));
    let ghost m0 = msg@;
    let ghost c0 = code@;
    let mut out: Vec<char> = Vec::new();
    push_str(&mut out, "FortiGate returned HTTP ");
    push_decimal(&mut out, status as u128);
    push_str(&mut out, " (");
    out.append(&mut msg);
    push_str(&mut out, ") for ");
    push_str(&mut out, url);
    let ghost head = out@;
    assert(head =~= "FortiGate returned HTTP "@ + decimal(status as nat) + " ("@ + m0 + ") for "@
        + url@);
    if code.len() > 0 {
        let mut code = code;
        push_str(&mut out, " [");
        out.append(&mut code);
        push_str(&mut out, "]");
        assert(out@ =~= head + (" ["@ + c0 + "]"@));
    }
    Err(string_from_chars(&out))
}

/// Interprets a monitor-API response (see [`response_meaning`]); a blank
/// 2xx body is not parsed.
pub fn parse_response(status: u16, text: &str, url: &str) -> (r: Result<JsonValue, String>)
    ensures
        parse_result_view(r) == response_meaning(status, text@, url@),
{
    if 200 <= status && status < 300 && is_blank(text) {
        return Ok(JsonValue::Null);
    }
    response_from_parsed(status, text, url, parse_json(text))
}


/// A response with a status outside 2xx is always an error, whatever its
/// body, and the error names the status and the request.
pub proof fn law_error_status_fails(status: u16, text: Seq<char>, url: Seq<char>)
    requires
        !(200 <= status && status < 300),
    ensures
        response_meaning(status, text, url) is Err,
        response_meaning(status, text, url)->Err_0.subrange(0, 24) == "FortiGate returned HTTP "@,
{
    reveal_strlit("FortiGate returned HTTP ");
    let e = response_meaning(status, text, url)->Err_0;
    let parsed = match serde_json_parse(text) {
        Ok(v) => Some(v),
        Err(_) => None,
    };
    let rest = decimal(status as nat) + " ("@ + error_message(parsed) + ") for "@ + url;
    assert(e =~= "FortiGate returned HTTP "@ + (rest + (if error_code(parsed, text).len() == 0 {
        Seq::empty()
    } else {
        " ["@ + error_code(parsed, text) + "]"@
    })));
}

/// A 2xx response whose body is empty or only white space means JSON `null`.
pub proof fn law_blank_success_is_null(status: u16, text: Seq<char>, url: Seq<char>)
    requires
        200 <= status && status < 300,
        forall|k: int| 0 <= k < text.len() ==> is_white_space(#[trigger] text[k]),
    ensures
        response_meaning(status, text, url) == Ok::<JsonValue, Seq<char>>(JsonValue::Null),
{
    lemma_trim_empty(text);
}

} // verus!
