//! The address of one page of results on the service.

use crate::decimal::{decimal, decimal_string};
use url::Url;
use vstd::prelude::*;

verus! {

/// The fixed endpoint of the search service.
pub const BASE_URL: &'static str = "https://sunxdcc.com/deliver.php";

/// What `url::Url::parse_with_params` makes of the text `input` and the
/// query pairs `pairs`: the URL's text, or `None` where `input` is no
/// absolute URL.
pub uninterp spec fn url_with_params(input: Seq<char>, pairs: Seq<(Seq<char>, Seq<char>)>) -> Option<
    Seq<char>,
>;

/// Calls `url::Url::parse_with_params` on `input` with the two query pairs
/// `first` and `second`, in this order, and hands back the URL's text.
///
/// The crate parses `input` as an absolute URL and appends each pair to its
/// query, form-encoded; the result depends on these arguments alone.
/// Nothing is claimed of it but that it is `url_with_params` of them.
///
/// The crate counts the URL's bytes in 32 bits and unwraps that count in two
/// places: where it opens the query of a URL that had none, and where it
/// puts a fragment back behind the query. So `input` is kept short enough
/// for the parsed text to stay far below that limit, and an `input` with a
/// fragment is left out.
#[verifier::external_body]
fn parse_with_params(input: &str, first: (&str, &str), second: (&str, &str)) -> (url: Option<String>)
    requires
        input@.len() <= 0xFFFF,
        !input@.contains('#'),
    ensures
        url.deep_view() == url_with_params(
            input@,
            seq![(first.0@, first.1@), (second.0@, second.1@)],
        ),
{
    Url::parse_with_params(input, &[first, second]).ok().map(String::from)
}

/// The URL that asks the service for page `page` of the results for
/// `query`: the endpoint with the search term as parameter `sterm` and the
/// page index, in decimal notation, as parameter `page`.
pub open spec fn endpoint_url(query: Seq<char>, page: nat) -> Option<Seq<char>> {
    url_with_params(BASE_URL@, seq![("sterm"@, query), ("page"@, decimal(page))])
}

/// Builds the URL of page `page` of the results for `query`.
///
/// `None` where the `url` crate makes no URL of the endpoint.
pub fn page_url(query: &str, page: usize) -> (url: Option<String>)
    ensures
        url.deep_view() == endpoint_url(query@, page as nat),
{
    let index = decimal_string(page);
    proof {
        reveal_strlit("https://sunxdcc.com/deliver.php");
        assert(BASE_URL@.len() <= 0xFFFF);
        assert(!BASE_URL@.contains('#'));
    }
    parse_with_params(BASE_URL, ("sterm", query), ("page", index.as_str()))
}

} // verus!
