//! Endpoint parameters arrive in the query string (GET), in a URL-encoded
//! form body (POST), or in both; this module decides which text is parsed.
//!
//! Some clients put parameters in the query string even for POST requests,
//! so both sources are read and concatenated.  Authentication parameters in
//! the combined text are ignored by the endpoint parameter types.

use vstd::prelude::*;
use crate::text::{chars_of, push_char};

verus! {

/// Typed endpoint parameters read from the query string and/or the form body.
pub struct QueryOrForm<T>(pub T);

/// The content type prefix of a URL-encoded form body.
pub open spec fn form_content_type() -> Seq<char> {
    "application/x-www-form-urlencoded"@
}

/// Whether the `Content-Type` header says the body is a URL-encoded form.
pub open spec fn is_form_body_spec(content_type: Option<Seq<char>>) -> bool {
    match content_type {
        Some(ct) => ct.len() >= form_content_type().len() && ct.subrange(
            0,
            form_content_type().len() as int,
        ) == form_content_type(),
        None => false,
    }
}

/// Whether the `Content-Type` header (when it is readable text) says the body
/// is a URL-encoded form.
pub fn is_form_body(content_type: Option<&str>) -> (r: bool)
    ensures
        r == is_form_body_spec(
            match content_type {
                Some(ct) => Some(ct@),
                None => None,
            },
        ),
{
    match content_type {
        None => false,
        Some(ct) => {
            let v = chars_of(ct);
            let pat = chars_of("application/x-www-form-urlencoded");
            if v.len() < pat.len() {
                return false;
            }
            let mut i: usize = 0;
            while i < pat.len()
                invariant
                    content_type == Some(ct),
                    pat@ == form_content_type(),
                    v@ == ct@,
                    pat@.len() <= v@.len(),
                    i <= pat@.len(),
                    forall|k: int| 0 <= k < i ==> v@[k] == pat@[k],
                decreases pat.len() - i,
            {
                if v[i] != pat[i] {
                    assert(v@.subrange(0, pat@.len() as int)[i as int] != pat@[i as int]);
                    return false;
                }
                i = i + 1;
            }
            assert(v@.subrange(0, pat@.len() as int) =~= pat@);
            true
        },
    }
}

/// The parameter text: the query string and the body joined by `&`, or
/// whichever of them is not empty.
pub open spec fn combined_spec(query: Seq<char>, body: Seq<char>) -> Seq<char> {
    if query.len() == 0 {
        body
    } else if body.len() == 0 {
        query
    } else {
        query + seq!['&'] + body
    }
}

/// Concatenates the query string and the form body, both of which use the
/// same `key=value&…` encoding.
pub fn combine_query_and_body(query: String, body: String) -> (r: String)
    ensures
        r@ == combined_spec(query@, body@),
{
    if query.as_str().unicode_len() == 0 {
        body
    } else if body.as_str().unicode_len() == 0 {
        query
    } else {
        let mut r = query;
        push_char(&mut r, '&');
        r.append(body.as_str());
        r
    }
}

/// Reading both sources loses nothing: a request without a body is parsed
/// from its query string alone, a request without a query string from its
/// body alone.
pub proof fn law_single_source_unchanged(s: Seq<char>)
    ensures
        combined_spec(s, Seq::empty()) == s,
        combined_spec(Seq::empty(), s) == s,
{
}

} // verus!
