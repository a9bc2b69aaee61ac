//! The request descriptor the front end hands to the bridge, and its
//! validation: the method must be a recognized HTTP verb, and the URL must be
//! absolute — a scheme (a letter, then letters, digits, `+`, `-` or `.`),
//! a colon, and at least one further character.

use vstd::prelude::*;

verus! {

/// A fetch request as the front end describes it: an HTTP verb, an absolute
/// URL, ordered headers, an optional body, and a caller-supplied correlation
/// token that must be unique among the caller's in-flight requests.
#[derive(Debug, Clone)]
pub struct FetchRequest {
    pub method: String,
    pub url: String,
    pub headers: Vec<(String, String)>,
    pub body: Option<Vec<u8>>,
    pub id: String,
}

/// The recognized HTTP verbs.
pub open spec fn valid_method(m: Seq<char>) -> bool {
    ||| m == "GET"@
    ||| m == "HEAD"@
    ||| m == "POST"@
    ||| m == "PUT"@
    ||| m == "DELETE"@
    ||| m == "CONNECT"@
    ||| m == "OPTIONS"@
    ||| m == "TRACE"@
    ||| m == "PATCH"@
}

/// A character that may open a URL scheme: an ASCII letter.
pub open spec fn is_scheme_start(c: char) -> bool {
    (65 <= c as u32 <= 90) || (97 <= c as u32 <= 122)
}

/// A character that may continue a URL scheme: a letter, a digit, `+`, `-`
/// or `.`.
pub open spec fn is_scheme_char(c: char) -> bool {
    is_scheme_start(c) || (48 <= c as u32 <= 57) || c == '+' || c == '-' || c == '.'
}

/// An absolute URL: a well-formed scheme, a colon, and a non-empty remainder.
pub open spec fn valid_url(u: Seq<char>) -> bool {
    exists|k: int|
        0 < k && k + 1 < u.len() && #[trigger] u[k] == ':' && is_scheme_start(u[0]) && (forall|
            i: int,
        | 0 < i < k ==> is_scheme_char(#[trigger] u[i]))
}

/// A request the bridge accepts: recognized verb and absolute URL.
pub open spec fn valid_request(req: FetchRequest) -> bool {
    valid_method(req.method@) && valid_url(req.url@)
}

fn str_equals(a: &String, b: &str) -> (r: bool)
    ensures
        r == (a@ == b@),
{
    *a == b.to_owned()
}

/// Whether `m` is a recognized HTTP verb.
pub fn is_valid_method(m: &String) -> (r: bool)
    ensures
        r == valid_method(m@),
{
    str_equals(m, "GET") || str_equals(m, "HEAD") || str_equals(m, "POST") || str_equals(
        m,
        "PUT",
    ) || str_equals(m, "DELETE") || str_equals(m, "CONNECT") || str_equals(m, "OPTIONS")
        || str_equals(m, "TRACE") || str_equals(m, "PATCH")
}

fn is_scheme_start_char(c: char) -> (r: bool)
    ensures
        r == is_scheme_start(c),
{
    (65 <= c as u32 && c as u32 <= 90) || (97 <= c as u32 && c as u32 <= 122)
}

fn is_scheme_char_exec(c: char) -> (r: bool)
    ensures
        r == is_scheme_char(c),
{
    is_scheme_start_char(c) || (48 <= c as u32 && c as u32 <= 57) || c == '+' || c == '-' || c
        == '.'
}

/// Whether `u` is an absolute URL under this library's grammar.
pub fn is_valid_url(u: &str) -> (r: bool)
    ensures
        r == valid_url(u@),
{
    let n = u.unicode_len();
    if n == 0 {
        return false;
    }
    if !is_scheme_start_char(u.get_char(0)) {
        return false;
    }
    let mut i: usize = 1;
    while i < n
        invariant
            1 <= i <= n,
            n == u@.len(),
            is_scheme_start(u@[0]),
            forall|j: int| 0 < j < i ==> is_scheme_char(#[trigger] u@[j]) && u@[j] != ':',
        decreases n - i,
    {
        let c = u.get_char(i);
        if c == ':' {
            if i + 1 < n {
                assert(0 < i && i + 1 < u@.len() && u@[i as int] == ':');
                return true;
            } else {
                assert forall|k: int| !(0 < k && k + 1 < u@.len() && #[trigger] u@[k] == ':'
                    && is_scheme_start(u@[0]) && (forall|j: int|
                    0 < j < k ==> is_scheme_char(#[trigger] u@[j]))) by {
                    if 0 < k && k + 1 < u@.len() && u@[k] == ':' {
                        assert(k != i);
                        if k < i {
                            assert(u@[k] != ':');
                        } else {
                            assert(!is_scheme_char(u@[i as int]));
                        }
                    }
                }
                return false;
            }
        }
        if !is_scheme_char_exec(c) {
            assert forall|k: int| !(0 < k && k + 1 < u@.len() && #[trigger] u@[k] == ':'
                && is_scheme_start(u@[0]) && (forall|j: int|
                0 < j < k ==> is_scheme_char(#[trigger] u@[j]))) by {
                if 0 < k && k + 1 < u@.len() && u@[k] == ':' {
                    assert(k != i);
                    if k < i {
                        assert(u@[k] != ':');
                    } else {
                        assert(!is_scheme_char(u@[i as int]));
                    }
                }
            }
            return false;
        }
        i += 1;
    }
    assert forall|k: int| !(0 < k && k + 1 < u@.len() && #[trigger] u@[k] == ':') by {
        if 0 < k && k + 1 < u@.len() {
            assert(u@[k] != ':');
        }
    }
    false
}

/// Whether the bridge accepts `req`: recognized verb and absolute URL.
pub fn validate(req: &FetchRequest) -> (r: bool)
    ensures
        r == valid_request(*req),
{
    is_valid_method(&req.method) && is_valid_url(req.url.as_str())
}

} // verus!
