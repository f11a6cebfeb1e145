//! The path-to-slug transformation: dash substitution followed by
//! truncation of the last five characters.

use vstd::prelude::*;
use vstd::string::StrSliceExecFns;

verus! {

/// The dash substitution: every `/` becomes `-`, every other character is kept.
pub open spec fn spec_dashed(s: Seq<char>) -> Seq<char> {
    s.map_values(|c: char| if c == '/' { '-' } else { c })
}

/// The slug of a path whose leading character has already been stripped:
/// every `/` is replaced by `-` and the last five characters of the
/// substituted string are removed. An input of fewer than five characters
/// (the empty one included) yields the empty slug.
pub open spec fn spec_slug(s: Seq<char>) -> Seq<char> {
    if s.len() >= 5 {
        spec_dashed(s).take(s.len() - 5)
    } else {
        Seq::<char>::empty()
    }
}

/// Relies on std's `String::push`: appends the one character at the end.
#[verifier::external_body]
fn push_char(s: &mut String, c: char)
    ensures
        final(s)@ == old(s)@.push(c),
{
    s.push(c);
}

/// Computes the slug of an already-stripped request path: every `/` is
/// replaced by `-`, then the last five characters of the substituted string
/// are dropped. The empty input stays empty, and an input shorter than five
/// characters is clamped to the empty slug rather than truncated past its
/// start.
pub fn slugify(uri: &str) -> (r: String)
    ensures
        r@ == spec_slug(uri@),
{
    let n = uri.unicode_len();
    let keep: usize = if n >= 5 {
        n - 5
    } else {
        0
    };
    let mut slug = String::new();
    let mut i: usize = 0;
    while i < keep
        invariant
            i <= keep,
            keep <= n,
            n == uri@.len(),
            keep == spec_slug(uri@).len(),
            slug@ == spec_dashed(uri@).take(i as int),
        decreases keep - i,
    {
        let c = uri.get_char(i);
        let d = if c == '/' {
            '-'
        } else {
            c
        };
        push_char(&mut slug, d);
        proof {
            assert(spec_dashed(uri@).take(i + 1) =~= spec_dashed(uri@).take(i as int).push(
                spec_dashed(uri@)[i as int],
            ));
        }
        i += 1;
    }
    proof {
        assert(slug@ =~= spec_slug(uri@));
    }
    slug
}

/// Every character the slug keeps is the dash substitution of the input
/// character at the same position: each `/` is replaced by `-` before
/// truncation, so no slug contains `/`.
pub proof fn lemma_slug_substitutes_dashes(s: Seq<char>)
    ensures
        forall|i: int|
            0 <= i < spec_slug(s).len() ==> spec_slug(s)[i] == (if s[i] == '/' {
                '-'
            } else {
                s[i]
            }),
        forall|i: int| 0 <= i < spec_slug(s).len() ==> spec_slug(s)[i] != '/',
{
}

/// Truncation removes exactly the last five characters: for an input of at
/// least five characters, the dash-substituted string is the slug followed
/// by its final five characters.
pub proof fn lemma_truncation_removes_last_five(s: Seq<char>)
    requires
        s.len() >= 5,
    ensures
        spec_slug(s).len() == s.len() - 5,
        spec_dashed(s) == spec_slug(s) + spec_dashed(s).skip(s.len() - 5),
        spec_dashed(s).skip(s.len() - 5).len() == 5,
{
    assert(spec_dashed(s) =~= spec_slug(s) + spec_dashed(s).skip(s.len() - 5));
}

} // verus!
