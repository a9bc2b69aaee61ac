//! Naming of temporary HTML preview files. Each file is named
//! `aiaw_html_preview_<token>.html`, where the token is a freshly drawn
//! version-4 UUID: distinct tokens give distinct names, so concurrent calls
//! never collide on a path.

use vstd::prelude::*;
use vstd::string::StringExecFns;

verus! {

/// A character of a hyphenated UUID: a lower-case hexadecimal digit or `-`.
pub open spec fn is_uuid_char(c: char) -> bool {
    (48 <= c as u32 <= 57) || (97 <= c as u32 <= 102) || c == '-'
}

/// The text of a hyphenated UUID: 36 characters, hyphens exactly at
/// positions 8, 13, 18 and 23, hexadecimal digits elsewhere.
pub open spec fn is_uuid_text(t: Seq<char>) -> bool {
    &&& t.len() == 36
    &&& forall|i: int| 0 <= i < 36 ==> is_uuid_char(#[trigger] t[i])
    &&& t[8] == '-' && t[13] == '-' && t[18] == '-' && t[23] == '-'
}

/// Relies on uuid::Uuid::new_v4 and the Display form of uuid::Uuid: a fresh
/// version-4 UUID rendered hyphenated and lower-case — 32 lower-case
/// hexadecimal digits with hyphens at positions 8, 13, 18 and 23. The value
/// drawn is random, so nothing relates two calls.
#[verifier::external_body]
fn fresh_uuid_text() -> (r: String)
    ensures
        is_uuid_text(r@),
{
    uuid::Uuid::new_v4().to_string()
}

pub open spec fn temp_html_prefix() -> Seq<char> {
    "aiaw_html_preview_"@
}

pub open spec fn temp_html_suffix() -> Seq<char> {
    ".html"@
}

/// The file name used for a preview whose identifying token is `token`.
pub open spec fn temp_html_name(token: Seq<char>) -> Seq<char> {
    temp_html_prefix() + token + temp_html_suffix()
}

/// A name some preview file can carry: the fixed prefix, a UUID token, and
/// the `.html` suffix.
pub open spec fn is_temp_html_name(s: Seq<char>) -> bool {
    exists|t: Seq<char>| s == #[trigger] temp_html_name(t) && is_uuid_text(t)
}

/// Builds the preview file name that carries `token`.
pub fn make_temp_html_name(token: &str) -> (r: String)
    ensures
        r@ == temp_html_name(token@),
{
    let mut s = "aiaw_html_preview_".to_owned();
    s.append(token);
    s.append(".html");
    proof {
        assert(s@ =~= temp_html_name(token@));
    }
    s
}

/// Draws a fresh UUID token and builds the preview file name carrying it.
pub fn fresh_temp_html_name() -> (r: String)
    ensures
        is_temp_html_name(r@),
{
    let token = fresh_uuid_text();
    let name = make_temp_html_name(token.as_str());
    proof {
        assert(name@ == temp_html_name(token@) && is_uuid_text(token@));
    }
    name
}

/// Distinct tokens give distinct preview file names: the name determines the
/// token, so two concurrent preview files collide only if their UUIDs do.
pub proof fn lemma_distinct_tokens_distinct_names(a: Seq<char>, b: Seq<char>)
    requires
        a != b,
    ensures
        temp_html_name(a) != temp_html_name(b),
{
    let p = temp_html_prefix().len() as int;
    if a.len() == b.len() {
        if temp_html_name(a) == temp_html_name(b) {
            assert forall|i: int| 0 <= i < a.len() implies a[i] == b[i] by {
                assert(temp_html_name(a)[p + i] == a[i]);
                assert(temp_html_name(b)[p + i] == b[i]);
            }
            assert(a =~= b);
        }
    } else {
        assert(temp_html_name(a).len() != temp_html_name(b).len());
    }
}

} // verus!
