//! URLs, as parsed and edited by the `url` crate.
use vstd::prelude::*;

verus! {

#[verifier::external_type_specification]
#[verifier::external_body]
pub struct ExUrl(url::Url);

/// What `Url::parse` makes of a text: the URL, or the message of the parse error.
pub uninterp spec fn spec_url_parse(text: Seq<char>) -> Result<url::Url, Seq<char>>;

/// The serialization of a URL (`Url::as_str`).
pub uninterp spec fn spec_url_text(u: url::Url) -> Seq<char>;

/// The scheme of a URL (`Url::scheme`).
pub uninterp spec fn spec_url_scheme(u: url::Url) -> Seq<char>;

/// The query of a URL (`Url::query`).
pub uninterp spec fn spec_url_query(u: url::Url) -> Option<Seq<char>>;

/// The URL that `Url::set_query` leaves after replacing the query.
pub uninterp spec fn spec_url_with_query(u: url::Url, query: Option<Seq<char>>) -> url::Url;

/// Calls `Url::parse`; the outcome is the function of the text named by `spec_url_parse`.
#[verifier::external_body]
pub(crate) fn url_parse(text: &str) -> (res: Result<url::Url, String>)
    ensures
        match res {
            Ok(u) => spec_url_parse(text@) == Ok::<url::Url, Seq<char>>(u),
            Err(msg) => spec_url_parse(text@) == Err::<url::Url, Seq<char>>(msg@),
        },
{
    match url::Url::parse(text) {
        Ok(u) => Ok(u),
        Err(e) => Err(e.to_string()),
    }
}

/// Calls `Url::as_str`.
#[verifier::external_body]
pub(crate) fn url_text(u: &url::Url) -> (res: &str)
    ensures
        res@ == spec_url_text(*u),
{
    u.as_str()
}

/// Calls `Url::scheme`.
#[verifier::external_body]
pub(crate) fn url_scheme(u: &url::Url) -> (res: &str)
    ensures
        res@ == spec_url_scheme(*u),
{
    u.scheme()
}

/// Calls `Url::query`.
#[verifier::external_body]
pub(crate) fn url_query(u: &url::Url) -> (res: Option<&str>)
    ensures
        match res {
            Some(q) => spec_url_query(*u) == Some(q@),
            None => spec_url_query(*u) is None,
        },
{
    u.query()
}

/// A character that the query percent-encode sets of `Url::set_query` leave
/// as it is: printable ASCII other than space, `"`, `#`, `<`, `>` and `'`.
pub open spec fn spec_query_plain_char(c: char) -> bool {
    0x21 <= (c as u32) <= 0x7e && c != '"' && c != '#' && c != '<' && c != '>' && c != '\''
}

/// A query text made of such characters only.
pub open spec fn spec_query_plain(q: Seq<char>) -> bool {
    forall|i: int| 0 <= i < q.len() ==> spec_query_plain_char(#[trigger] q[i])
}

/// Calls `Url::set_query`. As its source shows, the scheme stays, no query
/// leaves none, and a query text that needs no percent-encoding (and holds
/// no tab or newline, which the setter drops) reads back from `Url::query`
/// as it was given.
#[verifier::external_body]
pub(crate) fn url_set_query(u: &mut url::Url, query: Option<&str>)
    ensures
        *final(u) == spec_url_with_query(*old(u), match query {
            Some(q) => Some(q@),
            None => None,
        }),
        spec_url_scheme(*final(u)) == spec_url_scheme(*old(u)),
        match query {
            Some(q) => spec_query_plain(q@) ==> spec_url_query(*final(u)) == Some(q@),
            None => spec_url_query(*final(u)) is None,
        },
{
    u.set_query(query)
}

/// What `Url::parse_with_params` makes of a base text and query pairs: the
/// URL with the pairs form-encoded into its query, or the parse error's message.
pub uninterp spec fn spec_url_parse_with_params(text: Seq<char>, pairs: Seq<(Seq<char>, Seq<char>)>) -> Result<url::Url, Seq<char>>;

/// The URL that appending one query pair leaves
/// (`Url::query_pairs_mut().append_pair`).
pub uninterp spec fn spec_url_with_pair(u: url::Url, key: Seq<char>, value: Seq<char>) -> url::Url;

/// The URL after appending query pairs one after the other.
pub open spec fn spec_url_with_pairs(u: url::Url, pairs: Seq<(Seq<char>, Seq<char>)>) -> url::Url
    decreases pairs.len(),
{
    if pairs.len() == 0 {
        u
    } else {
        spec_url_with_pair(spec_url_with_pairs(u, pairs.drop_last()), pairs.last().0, pairs.last().1)
    }
}

/// The value of the first pair named `key` in a list of query pairs.
pub open spec fn spec_pair_value(pairs: Seq<(Seq<char>, Seq<char>)>, key: Seq<char>) -> Option<Seq<char>>
    decreases pairs.len(),
{
    if pairs.len() == 0 {
        None
    } else if pairs[0].0 == key {
        Some(pairs[0].1)
    } else {
        spec_pair_value(pairs.drop_first(), key)
    }
}

/// The views of a list of text pairs.
pub open spec fn spec_pairs(pairs: Seq<(String, String)>) -> Seq<(Seq<char>, Seq<char>)> {
    pairs.map_values(|p: (String, String)| (p.0@, p.1@))
}

/// Calls `Url::parse_with_params` with the pairs in order.
#[verifier::external_body]
pub(crate) fn url_parse_with_params(text: &str, pairs: &Vec<(String, String)>) -> (res: Result<url::Url, String>)
    ensures
        match res {
            Ok(u) => spec_url_parse_with_params(text@, spec_pairs(pairs@)) == Ok::<url::Url, Seq<char>>(u),
            Err(msg) => spec_url_parse_with_params(text@, spec_pairs(pairs@)) == Err::<url::Url, Seq<char>>(msg@),
        },
{
    match url::Url::parse_with_params(text, pairs.iter().map(|p| (p.0.as_str(), p.1.as_str()))) {
        Ok(u) => Ok(u),
        Err(e) => Err(e.to_string()),
    }
}

/// Appends one query pair (`query_pairs_mut().append_pair`).
#[verifier::external_body]
pub(crate) fn url_append_pair(u: &mut url::Url, key: &str, value: &str)
    ensures
        *final(u) == spec_url_with_pair(*old(u), key@, value@),
{
    u.query_pairs_mut().append_pair(key, value);
}

/// Appends query pairs one after the other.
pub(crate) fn url_append_pairs(u: &mut url::Url, pairs: &Vec<(String, String)>)
    ensures
        *final(u) == spec_url_with_pairs(*old(u), spec_pairs(pairs@)),
{
    let mut i: usize = 0;
    while i < pairs.len()
        invariant
            i <= pairs@.len(),
            *u == spec_url_with_pairs(*old(u), spec_pairs(pairs@.take(i as int))),
        decreases pairs@.len() - i,
    {
        url_append_pair(u, pairs[i].0.as_str(), pairs[i].1.as_str());
        proof {
            assert(spec_pairs(pairs@.take(i + 1)).drop_last() =~= spec_pairs(pairs@.take(i as int)));
        }
        i = i + 1;
    }
    proof {
        assert(pairs@.take(pairs@.len() as int) =~= pairs@);
    }
}

/// `Clone` for `Url` copies the serialization; the copy is the same URL.
pub assume_specification[ <url::Url as Clone>::clone ](u: &url::Url) -> (res: url::Url)
    ensures
        res == *u,
;

} // verus!
