//! Building the one outbound search request and classifying its outcome.
//!
//! The request itself — the network call — is performed outside this
//! library; here live the parts that can be pinned down exactly: the
//! request plan built from the configuration and the query text, and the
//! classification of whatever came back.

use vstd::prelude::*;
use crate::extract::SelectionPatterns;

verus! {

/// What one fetch produced: exactly one of these, consumed once.
#[derive(Clone, Debug)]
pub enum FetchOutcome {
    /// A success status with the body decoded as text.
    Success(String),
    /// A non-success status, with the raw body kept for diagnostics.
    HttpError(u16, String),
    /// The request never completed: connection failure, timeout, or a
    /// broken channel; the cause as a message.
    TransportError(String),
}

/// How the query travels: appended to the URL, or carried in a JSON
/// request body. A configuration choice; the URL form is the default.
#[derive(Clone, Copy, Debug, PartialEq, Eq, Structural)]
pub enum RequestShape {
    /// The query is concatenated onto the endpoint URL.
    UrlQuery,
    /// The query is sent as the request body `{"q":"..."}`.
    JsonBody,
}

/// Configuration of the one outbound request.
#[derive(Clone, Debug)]
pub struct QueryConfig {
    /// The engine's endpoint; with [`RequestShape::UrlQuery`] the query is
    /// appended to it.
    pub endpoint: String,
    /// How the query travels.
    pub shape: RequestShape,
    /// Bound on the whole fetch, in milliseconds; when it runs out the
    /// outcome is a [`FetchOutcome::TransportError`].
    pub timeout_ms: u64,
}

/// A request ready to be sent: the URL and, with the JSON shape, a body.
#[derive(Clone, Debug)]
pub struct RequestPlan {
    pub url: String,
    pub body: Option<String>,
}

/// The escape of one character inside a JSON string literal: quote,
/// backslash, newline, carriage return and tab get their two-character
/// escapes; every other character stands for itself.
pub open spec fn json_escaped_char(c: char) -> Seq<char> {
    if c == '"' {
        seq!['\\', '"']
    } else if c == '\\' {
        seq!['\\', '\\']
    } else if c == '\n' {
        seq!['\\', 'n']
    } else if c == '\r' {
        seq!['\\', 'r']
    } else if c == '\t' {
        seq!['\\', 't']
    } else {
        seq![c]
    }
}

/// The escape of a whole string: each character escaped, in order.
pub open spec fn json_escaped(s: Seq<char>) -> Seq<char>
    decreases s.len(),
{
    if s.len() == 0 {
        Seq::empty()
    } else {
        json_escaped(s.drop_last()) + json_escaped_char(s.last())
    }
}

/// The JSON request body that carries the query `q`.
pub open spec fn json_query_body(q: Seq<char>) -> Seq<char> {
    "{\"q\":\""@ + json_escaped(q) + "\"}"@
}

/// Relies on std's String::push: it appends exactly the one character.
#[verifier::external_body]
fn push_char(s: &mut String, c: char)
    ensures
        final(s)@ == old(s)@.push(c),
{
    s.push(c);
}

/// Escapes `s` for use inside a JSON string literal, per
/// [`json_escaped`].
fn json_escape(s: &str) -> (r: String)
    ensures
        r@ == json_escaped(s@),
{
    let n = s.unicode_len();
    let mut r = String::new();
    for i in 0..n
        invariant
            n == s@.len(),
            r@ == json_escaped(s@.take(i as int)),
    {
        let c = s.get_char(i);
        if c == '"' {
            r.append("\\\"");
            proof {
                reveal_strlit("\\\"");
            }
        } else if c == '\\' {
            r.append("\\\\");
            proof {
                reveal_strlit("\\\\");
            }
        } else if c == '\n' {
            r.append("\\n");
            proof {
                reveal_strlit("\\n");
            }
        } else if c == '\r' {
            r.append("\\r");
            proof {
                reveal_strlit("\\r");
            }
        } else if c == '\t' {
            r.append("\\t");
            proof {
                reveal_strlit("\\t");
            }
        } else {
            push_char(&mut r, c);
        }
        proof {
            assert(s@.take(i + 1).drop_last() =~= s@.take(i as int));
            assert(s@.take(i + 1).last() == s@[i as int]);
            assert(r@ =~= json_escaped(s@.take(i + 1)));
        }
    }
    proof {
        assert(s@.take(n as int) =~= s@);
    }
    r
}

/// Builds the request for `query` under `config`: with the URL shape the
/// query is concatenated onto the endpoint and there is no body, with the
/// JSON shape the endpoint stands alone and the body carries the escaped
/// query.
pub fn build_request(config: &QueryConfig, query: &str) -> (plan: RequestPlan)
    ensures
        config.shape is UrlQuery ==> plan.url@ == config.endpoint@ + query@,
        config.shape is UrlQuery ==> plan.body is None,
        config.shape is JsonBody ==> plan.url@ == config.endpoint@,
        config.shape is JsonBody ==> (plan.body matches Some(b) && b@ == json_query_body(query@)),
{
    match config.shape {
        RequestShape::UrlQuery => {
            let url = config.endpoint.clone().concat(query);
            RequestPlan { url, body: None }
        },
        RequestShape::JsonBody => {
            let mut body = String::from_str("{\"q\":\"");
            body.append(json_escape(query).as_str());
            body.append("\"}");
            proof {
                assert(body@ =~= json_query_body(query@));
            }
            RequestPlan { url: config.endpoint.clone(), body: Some(body) }
        },
    }
}

/// Classifies an answered request by its status code: 200 is the one
/// success status and hands the body on; every other status is an HTTP
/// error that keeps the raw body for diagnostics.
pub fn classify_response(status: u16, body: String) -> (r: FetchOutcome)
    ensures
        status == 200 ==> r == FetchOutcome::Success(body),
        status != 200 ==> r == FetchOutcome::HttpError(status, body),
{
    if status == 200 {
        FetchOutcome::Success(body)
    } else {
        FetchOutcome::HttpError(status, body)
    }
}

/// The default engine configuration: the query travels in the URL, and a
/// request is given ten seconds.
pub fn default_config() -> (c: QueryConfig)
    ensures
        c.endpoint@ == "https://html.duckduckgo.com/html?q="@,
        c.shape is UrlQuery,
        c.timeout_ms == 10000,
{
    QueryConfig {
        endpoint: String::from_str("https://html.duckduckgo.com/html?q="),
        shape: RequestShape::UrlQuery,
        timeout_ms: 10000,
    }
}

/// The default selection patterns, matching the engine of
/// [`default_config`].
pub fn default_patterns() -> (p: SelectionPatterns)
    ensures
        p.container@ == ".result"@,
        p.title_link@ == ".result__a"@,
        p.snippet@ == ".result__snippet"@,
{
    SelectionPatterns {
        container: String::from_str(".result"),
        title_link: String::from_str(".result__a"),
        snippet: String::from_str(".result__snippet"),
    }
}

} // verus!
