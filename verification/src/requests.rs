//! What the HTTP client computes around its requests: the server's base
//! URL, the URL of an endpoint, the error of a failed response, and the
//! credentials taken from the environment.
use vstd::prelude::*;
use crate::config::env_value;
use crate::error::ApiError;
use crate::strings::{append_str, chars_of, concat_str, decimal, push_decimal, string_from_range};

verus! {

/// Seconds a request may take before it times out.
pub const DEFAULT_TIMEOUT_SECS: u64 = 30;

/// `s` without its trailing slashes.
pub open spec fn trim_slashes(s: Seq<char>) -> Seq<char>
    decreases s.len(),
{
    if s.len() > 0 && s.last() == '/' {
        trim_slashes(s.drop_last())
    } else {
        s
    }
}

/// The base URL of a server: the URL without trailing slashes.
pub fn base_url_of(url: &str) -> (r: String)
    ensures
        r@ == trim_slashes(url@),
{
    let v = chars_of(url);
    let mut end: usize = v.len();
    assert(v@.take(end as int) =~= url@);
    while end > 0 && v[end - 1] == '/'
        invariant
            end <= v@.len(),
            v@ == url@,
            trim_slashes(v@.take(end as int)) == trim_slashes(url@),
        decreases end,
    {
        assert(v@.take(end as int).drop_last() =~= v@.take(end - 1));
        end = end - 1;
    }
    assert(v@.subrange(0, end as int) =~= v@.take(end as int));
    string_from_range(&v, 0, end)
}

/// The URL of an endpoint of the server at `base`.
pub fn request_url(base: &str, path: &str) -> (r: String)
    ensures
        r@ == base@ + path@,
{
    concat_str(base, path)
}

/// The error of a response with a status that is not a success: 401 is
/// an authentication failure, 408 and 504 a timeout, any other an HTTP
/// error carrying the response's text.
pub fn status_error(status: u16, endpoint: &str, text: String) -> (r: ApiError)
    ensures
        status == 401 ==> r == (ApiError::Unauthorized {
            status: 401,
            endpoint: r->Unauthorized_endpoint,
            server_message: text,
        }) && r->Unauthorized_endpoint@ == endpoint@,
        (status == 408 || status == 504) ==> r == (ApiError::Timeout {
            timeout_secs: DEFAULT_TIMEOUT_SECS,
            endpoint: r->Timeout_endpoint,
        }) && r->Timeout_endpoint@ == endpoint@,
        status != 401 && status != 408 && status != 504 ==> r == (ApiError::Http {
            status,
            endpoint: r->Http_endpoint,
            message: text,
        }) && r->Http_endpoint@ == endpoint@,
{
    let endpoint = endpoint.to_string();
    if status == 401 {
        ApiError::Unauthorized { status, endpoint, server_message: text }
    } else if status == 408 || status == 504 {
        ApiError::Timeout { timeout_secs: DEFAULT_TIMEOUT_SECS, endpoint }
    } else {
        ApiError::Http { status, endpoint, message: text }
    }
}

/// A value of the environment, kept when it is not empty.
pub fn nonempty_value(v: Option<String>) -> (r: Option<String>)
    ensures
        r == env_value(v),
{
    match v {
        Some(s) => if s.as_str().is_empty() {
            None
        } else {
            Some(s)
        },
        None => None,
    }
}

/// The username and password, when both are set and not empty.
pub fn credentials_from(username: Option<String>, password: Option<String>) -> (r: Option<
    (String, String),
>)
    ensures
        r == match (env_value(username), env_value(password)) {
            (Some(u), Some(p)) => Some((u, p)),
            _ => None,
        },
{
    match (nonempty_value(username), nonempty_value(password)) {
        (Some(u), Some(p)) => Some((u, p)),
        _ => None,
    }
}

/// The endpoint listing the questions, of one collection when one is
/// named (an empty name names none).
pub fn questions_endpoint(collection: Option<&str>) -> (r: String)
    ensures
        r@ == "/api/card?f=all"@ + match collection {
            Some(c) => if c@.len() > 0 {
                "&collection="@ + c@
            } else {
                Seq::empty()
            },
            None => Seq::empty(),
        },
{
    let mut r = String::new();
    append_str(&mut r, "/api/card?f=all");
    assert(Seq::<char>::empty() + "/api/card?f=all"@ =~= "/api/card?f=all"@);
    if let Some(c) = collection {
        if !c.is_empty() {
            append_str(&mut r, "&collection=");
            append_str(&mut r, c);
            assert(r@ =~= "/api/card?f=all"@ + ("&collection="@ + c@));
        } else {
            assert(r@ =~= "/api/card?f=all"@ + Seq::<char>::empty());
        }
    } else {
        assert(r@ =~= "/api/card?f=all"@ + Seq::<char>::empty());
    }
    r
}

/// The endpoint that runs a question.
pub fn question_query_endpoint(question_id: u32) -> (r: String)
    ensures
        r@ == "/api/card/"@ + decimal(question_id as nat) + "/query"@,
{
    let mut r = String::new();
    append_str(&mut r, "/api/card/");
    push_decimal(&mut r, question_id as u64);
    append_str(&mut r, "/query");
    assert(Seq::<char>::empty() + "/api/card/"@ =~= "/api/card/"@);
    r
}

/// The endpoint listing a database's schemas.
pub fn schemas_endpoint(database_id: u32) -> (r: String)
    ensures
        r@ == "/api/database/"@ + decimal(database_id as nat) + "/schemas"@,
{
    let mut r = String::new();
    append_str(&mut r, "/api/database/");
    push_decimal(&mut r, database_id as u64);
    append_str(&mut r, "/schemas");
    assert(Seq::<char>::empty() + "/api/database/"@ =~= "/api/database/"@);
    r
}

/// The endpoint listing the tables of a database's schema.
pub fn tables_endpoint(database_id: u32, schema: &str) -> (r: String)
    ensures
        r@ == "/api/database/"@ + decimal(database_id as nat) + "/schema/"@ + schema@,
{
    let mut r = String::new();
    append_str(&mut r, "/api/database/");
    push_decimal(&mut r, database_id as u64);
    append_str(&mut r, "/schema/");
    append_str(&mut r, schema);
    assert(Seq::<char>::empty() + "/api/database/"@ =~= "/api/database/"@);
    r
}

} // verus!
