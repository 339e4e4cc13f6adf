//! Federation identities are URIs. Whether a text is one is the URL
//! parser's verdict, which this module asks for and names.

use vstd::prelude::*;

verus! {

/// Whether `activitystreams::primitives::XsdAnyUri` parses `text`: the
/// verdict of the URL parser behind it, which depends on the text alone.
pub uninterp spec fn is_valid_uri(text: Seq<char>) -> bool;

/// Calls `<XsdAnyUri as FromStr>::from_str` and reports whether it returned
/// `Ok`. The contract names that verdict and claims nothing else of it.
#[verifier::external_body]
pub(crate) fn uri_parses(text: &str) -> (ok: bool)
    ensures
        ok == is_valid_uri(text@),
{
    text.parse::<activitystreams::primitives::XsdAnyUri>().is_ok()
}

/// Whether every text of the sequence is a URI.
pub open spec fn all_valid_uris(texts: Seq<Seq<char>>) -> bool {
    forall|i: int| 0 <= i < texts.len() ==> is_valid_uri(#[trigger] texts[i])
}

/// Whether every entry of `texts` is a URI.
pub fn check_all(texts: &Vec<String>) -> (ok: bool)
    ensures
        ok == all_valid_uris(texts.deep_view()),
{
    let mut i: usize = 0;
    while i < texts.len()
        invariant
            i <= texts.len(),
            forall|j: int| 0 <= j < i ==> is_valid_uri(#[trigger] texts.deep_view()[j]),
        decreases texts.len() - i,
    {
        assert(texts.deep_view()[i as int] == texts[i as int]@);
        if !uri_parses(texts[i].as_str()) {
            return false;
        }
        i += 1;
    }
    true
}

} // verus!
