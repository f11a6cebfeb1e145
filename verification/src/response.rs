//! The redirect response: status, `location` header value and body text,
//! built from the slug of the request path.

use crate::slug::slugify;
use crate::slug::spec_slug;
use vstd::prelude::*;
use vstd::string::StrSliceExecFns;
use vstd::string::StringExecFns;

verus! {

/// The fixed blog host every redirect points at.
pub open spec fn spec_location_prefix() -> Seq<char> {
    "https://mechanicalrock.io/blog/"@
}

/// The fixed text put before the slug in the response body.
pub open spec fn spec_body_prefix() -> Seq<char> {
    "Redirected to "@
}

/// One redirect response: a status code, the value of the `location`
/// header, and a plain-text body naming the target. It is built fresh per
/// request and holds nothing else.
pub struct Redirect {
    pub status: u16,
    pub location: String,
    pub body: String,
}

/// The redirect for `slug`: permanent-redirect status 301, a location that
/// is the blog host followed verbatim by the slug (nothing escaped), and a
/// body confirming the target.
pub open spec fn is_redirect_for(r: Redirect, slug: Seq<char>) -> bool {
    &&& r.status == 301
    &&& r.location@ == spec_location_prefix() + slug
    &&& r.body@ == spec_body_prefix() + slug
}

/// Builds the redirect response for a slug: status 301, the `location`
/// header pointing at the blog host with the slug appended verbatim, and
/// the body text naming the target.
pub fn build_redirect(slug: &str) -> (r: Redirect)
    ensures
        is_redirect_for(r, slug@),
{
    let mut location = String::from_str("https://mechanicalrock.io/blog/");
    location.append(slug);
    let mut body = String::from_str("Redirected to ");
    body.append(slug);
    Redirect { status: 301, location, body }
}

/// Handles one request path: drops the leading character, computes the slug
/// of the rest, and builds the redirect for it.
pub fn handle_path(path: &str) -> (r: Redirect)
    requires
        path@.len() >= 1,
    ensures
        is_redirect_for(r, spec_slug(path@.skip(1))),
{
    let n = path.unicode_len();
    let stripped = path.substring_char(1, n);
    proof {
        assert(stripped@ =~= path@.skip(1));
    }
    let slug = slugify(stripped);
    build_redirect(slug.as_str())
}

/// The location header ends exactly with the slug: its final characters,
/// as many as the slug has, are the slug itself, unescaped.
pub proof fn lemma_location_ends_with_slug(r: Redirect, slug: Seq<char>)
    requires
        is_redirect_for(r, slug),
    ensures
        r.location@.len() == spec_location_prefix().len() + slug.len(),
        r.location@.skip(spec_location_prefix().len() as int) == slug,
{
    assert(r.location@.skip(spec_location_prefix().len() as int) =~= slug);
}

} // verus!
