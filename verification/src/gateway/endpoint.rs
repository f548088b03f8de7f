//! The URL that a connection is made to: the one that the platform gave,
//! with the query parameters that the gateway needs.

use crate::error::joined;
use crate::error::DiscordError;
use crate::error::ErrorView;
use crate::text::same_text;
use crate::text::texts_of;
use url::Url;
use vstd::prelude::*;
use vstd::string::StringExecFns;

verus! {

/// A URL of more characters than this is refused. The crate `url` finds
/// its way in a URL by 32-bit offsets into its bytes, and a character
/// takes up to four bytes: this is the most that still leaves room for
/// the pairs that are appended.
pub const MAX_URL_LEN: usize = 1_073_741_000;

/// `url::Url`: a parsed URL.
#[verifier::external_type_specification]
#[verifier::external_body]
pub struct ExUrl(Url);

/// The text of a URL: its serialization.
pub uninterp spec fn url_text(url: Url) -> Seq<char>;

/// What `Url::parse` makes of a text: the serialization of the URL, or
/// the message of the error.
pub uninterp spec fn parsed_url(text: Seq<char>) -> Result<Seq<char>, Seq<char>>;

/// The keys of the query of the URL with the given serialization, in
/// order.
pub uninterp spec fn query_keys(url: Seq<char>) -> Seq<Seq<char>>;

/// The serialization of a URL once a pair is appended to its query.
pub uninterp spec fn with_query_pair(url: Seq<char>, key: Seq<char>, value: Seq<char>) -> Seq<char>;

/// `Url::parse` of the crate `url`.
#[verifier::external_body]
fn parse_url(text: &str) -> (r: Result<Url, String>)
    ensures
        match r {
            Ok(url) => parsed_url(text@) == Ok::<Seq<char>, Seq<char>>(url_text(url)),
            Err(why) => parsed_url(text@) == Err::<Seq<char>, Seq<char>>(why@),
        },
{
    match Url::parse(text) {
        Ok(url) => Ok(url),
        Err(e) => Err(e.to_string()),
    }
}

/// `Url::query_pairs` of the crate `url`: the keys of the pairs of the
/// query, in order.
#[verifier::external_body]
fn url_query_keys(url: &Url) -> (keys: Vec<String>)
    ensures
        texts_of(keys@) == query_keys(url_text(*url)),
{
    url.query_pairs().map(|(k, _)| k.into_owned()).collect()
}

/// `Url::query_pairs_mut` of the crate `url` and `append_pair` on what it
/// returns: the pair is appended to the query. The keys of the query are
/// then the earlier ones and the new one, and the text grows by no more
/// than the pair in its encoded form and two separators. The bytes of
/// the longer URL have to fit into the 32-bit offsets of the crate.
#[verifier::external_body]
fn url_append_pair(url: &mut Url, key: &str, value: &str)
    requires
        4 * url_text(*old(url)).len() + 12 * (key@.len() + value@.len()) + 2 <= u32::MAX,
    ensures
        url_text(*final(url)) == with_query_pair(url_text(*old(url)), key@, value@),
        query_keys(url_text(*final(url))) == query_keys(url_text(*old(url))).push(key@),
        url_text(*final(url)).len() <= url_text(*old(url)).len() + 12 * (key@.len() + value@.len())
            + 2,
{
    url.query_pairs_mut().append_pair(key, value);
}

/// `Url::to_string` of the crate `url`: the serialization.
#[verifier::external_body]
fn url_to_string(url: &Url) -> (s: String)
    ensures
        s@ == url_text(*url),
{
    url.to_string()
}

/// Whether `key` is among `keys`.
pub fn has_key(keys: &Vec<String>, key: &str) -> (r: bool)
    ensures
        r == texts_of(keys@).contains(key@),
{
    let mut i: usize = 0;
    while i < keys.len()
        invariant
            i <= keys.len(),
            forall|j: int| 0 <= j < i ==> texts_of(keys@)[j] != key@,
        decreases keys.len() - i,
    {
        if same_text(keys[i].as_str(), key) {
            assert(texts_of(keys@)[i as int] == key@);
            return true;
        }
        i += 1;
    }
    false
}

/// The URL with the pair in its query, appended unless the key is there
/// already.
pub open spec fn ensure_param(url: Seq<char>, key: Seq<char>, value: Seq<char>) -> Seq<char> {
    if query_keys(url).contains(key) {
        url
    } else {
        with_query_pair(url, key, value)
    }
}

/// The URL with the protocol version and the encoding in its query, and
/// the compression where it is asked for. None is added twice.
pub open spec fn normalized(url: Seq<char>, compress: bool) -> Seq<char> {
    let with_version = ensure_param(url, "v"@, "10"@);
    let with_encoding = ensure_param(with_version, "encoding"@, "json"@);
    if compress {
        ensure_param(with_encoding, "compress"@, "zlib-stream"@)
    } else {
        with_encoding
    }
}

/// The URL to connect to for the target `target`: an error where the
/// target is no URL or is too long, else the normalized URL.
pub open spec fn gateway_url_spec(target: Seq<char>, compress: bool) -> Result<
    Seq<char>,
    ErrorView,
> {
    match parsed_url(target) {
        Err(why) => Err(ErrorView::Gateway("Invalid Gateway URL: "@ + why)),
        Ok(url) => if url.len() > MAX_URL_LEN {
            Err(ErrorView::Gateway("Invalid Gateway URL: too long"@))
        } else {
            Ok(normalized(url, compress))
        },
    }
}

fn ensure_pair(url: &mut Url, key: &str, value: &str)
    requires
        url_text(*old(url)).len() <= MAX_URL_LEN + 460,
        key@.len() + value@.len() <= 19,
    ensures
        url_text(*final(url)) == ensure_param(url_text(*old(url)), key@, value@),
        url_text(*final(url)).len() <= url_text(*old(url)).len() + 230,
        query_keys(url_text(*final(url))).contains(key@),
        forall|k: Seq<char>|
            query_keys(url_text(*old(url))).contains(k) ==> query_keys(
                url_text(*final(url)),
            ).contains(k),
{
    let keys = url_query_keys(url);
    if !has_key(&keys, key) {
        let ghost before = query_keys(url_text(*url));
        url_append_pair(url, key, value);
        proof {
            let after = before.push(key@);
            assert(after[before.len() as int] == key@);
            assert forall|k: Seq<char>| before.contains(k) implies after.contains(k) by {
                let i = choose|i: int| 0 <= i < before.len() && before[i] == k;
                assert(after[i] == k);
            }
        }
    }
}

/// The URL to connect to for the target `target`: see `gateway_url_spec`.
/// The query of an accepted URL holds the keys `v` and `encoding`, and
/// `compress` where `compress` is set.
pub fn gateway_url(target: &str, compress: bool) -> (r: Result<String, DiscordError>)
    ensures
        match gateway_url_spec(target@, compress) {
            Ok(url) => r is Ok && r->Ok_0@ == url && query_keys(url).contains("v"@) && query_keys(
                url,
            ).contains("encoding"@) && (compress ==> query_keys(url).contains("compress"@)),
            Err(e) => r is Err && r->Err_0@ == e,
        },
{
    let mut url = match parse_url(target) {
        Ok(url) => url,
        Err(why) => {
            return Err(DiscordError::Gateway(joined("Invalid Gateway URL: ", why.as_str())));
        },
    };
    let text = url_to_string(&url);
    if text.as_str().unicode_len() > MAX_URL_LEN {
        return Err(DiscordError::Gateway(String::from_str("Invalid Gateway URL: too long")));
    }
    proof {
        reveal_strlit("v");
        reveal_strlit("10");
        reveal_strlit("encoding");
        reveal_strlit("json");
        reveal_strlit("compress");
        reveal_strlit("zlib-stream");
    }
    ensure_pair(&mut url, "v", "10");
    ensure_pair(&mut url, "encoding", "json");
    if compress {
        ensure_pair(&mut url, "compress", "zlib-stream");
    }
    Ok(url_to_string(&url))
}

} // verus!
