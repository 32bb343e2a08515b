//! Building the URL of a query from a base and name/value pairs.

use vstd::prelude::*;
use vstd::utf8::encode_utf8;

use crate::error::UrlError;
use crate::text::pair_views;
use crate::text::text_result;

verus! {

/// The largest weight (see [`url_weight`]) of a base and pairs from which a
/// URL is built.
pub const MAX_URL_BYTES: usize = 0x0100_0000;

/// Number of bytes of `text` in UTF-8.
pub open spec fn byte_len(text: Seq<char>) -> nat {
    encode_utf8(text).len()
}

/// Weight of the pairs alone: for each pair the bytes of its name and of its
/// value, and two for the separators that go with it.
pub open spec fn pairs_weight(pairs: Seq<(Seq<char>, Seq<char>)>) -> nat
    decreases pairs.len(),
{
    if pairs.len() == 0 {
        0
    } else {
        pairs_weight(pairs.drop_last()) + byte_len(pairs.last().0) + byte_len(pairs.last().1) + 2
    }
}

/// Weight of a base and pairs: the bytes of the base and the weight of the pairs.
pub open spec fn url_weight(base: Seq<char>, pairs: Seq<(Seq<char>, Seq<char>)>) -> nat {
    byte_len(base) + pairs_weight(pairs)
}

/// The text of the URL that `url::Url::parse_with_params` makes of `base`
/// and `pairs`; `None` where it refuses `base`.
pub uninterp spec fn url_with_query(
    base: Seq<char>,
    pairs: Seq<(Seq<char>, Seq<char>)>,
) -> Option<Seq<char>>;

/// The error of the `url` crate's parser, carried through unopened.
#[verifier::external_type_specification]
#[verifier::external_body]
pub struct ExParseError(url::ParseError);

/// Parses `base` as an absolute URL and appends `pairs` to its query string.
///
/// Trusted: calls `url::Url::parse_with_params`, which parses `base`, then
/// appends each pair to the query string in `application/x-www-form-urlencoded`
/// syntax, keeping the pairs that `base` already has. The contract names the
/// resulting text, which depends on `base` and `pairs` alone, and says no
/// more of it. The bound keeps the URL within the length that the crate can
/// index.
#[verifier::external_body]
fn parse_with_params(
    base: &str,
    pairs: &Vec<(String, String)>,
) -> (parsed: Result<String, url::ParseError>)
    requires
        url_weight(base@, pair_views(pairs@)) <= MAX_URL_BYTES,
    ensures
        match parsed {
            Ok(text) => url_with_query(base@, pair_views(pairs@)) == Some(text@),
            Err(_) => url_with_query(base@, pair_views(pairs@)) is None,
        },
{
    match url::Url::parse_with_params(base, pairs) {
        Ok(url) => Ok(String::from(url)),
        Err(e) => Err(e),
    }
}

/// The first pairs of a sequence weigh no more than all of them.
proof fn lemma_pairs_weight_grows(pairs: Seq<(Seq<char>, Seq<char>)>, n: int)
    requires
        0 <= n <= pairs.len(),
    ensures
        pairs_weight(pairs.take(n)) <= pairs_weight(pairs),
    decreases pairs.len() - n,
{
    if n == pairs.len() {
        assert(pairs.take(n) =~= pairs);
    } else {
        lemma_pairs_weight_grows(pairs, n + 1);
        assert(pairs.take(n + 1).drop_last() =~= pairs.take(n));
    }
}

/// Whether the weight of `base` and `pairs` is at most [`MAX_URL_BYTES`].
fn fits(base: &str, pairs: &Vec<(String, String)>) -> (ok: bool)
    ensures
        ok == (url_weight(base@, pair_views(pairs@)) <= MAX_URL_BYTES),
{
    let base_len = base.as_bytes().len();
    if base_len > MAX_URL_BYTES {
        return false;
    }
    let ghost all = pair_views(pairs@);
    let mut total: usize = base_len;
    let mut i: usize = 0;
    assert(all.take(0) =~= Seq::empty());
    while i < pairs.len()
        invariant
            0 <= i <= pairs.len(),
            all == pair_views(pairs@),
            total == url_weight(base@, all.take(i as int)),
            total <= MAX_URL_BYTES,
        decreases pairs.len() - i,
    {
        let name_len = pairs[i].0.as_str().as_bytes().len();
        let value_len = pairs[i].1.as_str().as_bytes().len();
        proof {
            assert(all.take(i + 1).drop_last() =~= all.take(i as int));
            assert(all.take(i + 1).last() == all[i as int]);
            assert(all[i as int] == (pairs@[i as int].0@, pairs@[i as int].1@));
            lemma_pairs_weight_grows(all, i + 1);
        }
        if name_len > MAX_URL_BYTES || value_len > MAX_URL_BYTES {
            return false;
        }
        total = total + name_len + value_len + 2;
        if total > MAX_URL_BYTES {
            return false;
        }
        i = i + 1;
    }
    assert(all.take(i as int) =~= all);
    true
}

/// What building the URL of `base` and `pairs` comes to: an error where the
/// two weigh too much or `base` is no absolute URL, else the text that the
/// `url` crate makes of them.
pub open spec fn url_outcome(
    base: Seq<char>,
    pairs: Seq<(Seq<char>, Seq<char>)>,
) -> Result<Seq<char>, UrlError> {
    if url_weight(base, pairs) > MAX_URL_BYTES {
        Err(UrlError::TooLong)
    } else {
        match url_with_query(base, pairs) {
            Some(text) => Ok(text),
            None => Err(UrlError::Invalid),
        }
    }
}

/// What follows from the parser's answer: its text, or
/// [`UrlError::Invalid`] where it refused the base.
pub fn url_from_parsed(parsed: Result<String, url::ParseError>) -> (url: Result<String, UrlError>)
    ensures
        match parsed {
            Ok(text) => url == Ok::<String, UrlError>(text),
            Err(_) => url == Err::<String, UrlError>(UrlError::Invalid),
        },
{
    match parsed {
        Ok(text) => Ok(text),
        Err(_) => Err(UrlError::Invalid),
    }
}

/// The URL made of `base` and of `pairs` appended to its query string.
///
/// Fails with [`UrlError::TooLong`] exactly where the weight of the two is
/// over [`MAX_URL_BYTES`], and with [`UrlError::Invalid`] exactly where the
/// weight is within the bound and `base` is not an absolute URL.
pub fn build_url(base: &str, pairs: &Vec<(String, String)>) -> (url: Result<String, UrlError>)
    ensures
        text_result(url) == url_outcome(base@, pair_views(pairs@)),
{
    if !fits(base, pairs) {
        return Err(UrlError::TooLong);
    }
    url_from_parsed(parse_with_params(base, pairs))
}

} // verus!
