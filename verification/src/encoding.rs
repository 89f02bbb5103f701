//! The encodings that the `url` and `base64` crates compute, and the
//! quoting of text that `std` does for `Debug`.
//!
//! Of the functions that make these calls nothing is proved: each states
//! what the crate's function returns, and each result that would take pages
//! to write out has a name instead. The rest of the library is verified
//! against these statements.

use vstd::prelude::*;
use vstd::string::StringSliceAdditionalSpecFns;
use vstd::utf8::encode_utf8;
use crate::params::{pair_texts, pairs_weight, weight_within, PairSeq};
use crate::text::contains_char;

verus! {

/// The error of the `url` crate's parser.
#[verifier::external_type_specification]
#[verifier::external_body]
pub struct ExUrlParseError(url::ParseError);

/// The serialisation of the absolute URL that `input` parses to, with
/// `params` appended to its query in form-urlencoded syntax; `None` where
/// `input` is no absolute URL.
pub uninterp spec fn url_with_params_text(input: Seq<char>, params: PairSeq) -> Option<Seq<char>>;

/// The path of the absolute URL that `input` parses to, percent-encoded, and
/// the name and value pairs of its query, decoded, in order; `None` where
/// `input` is no absolute URL.
pub uninterp spec fn url_path_and_query(input: Seq<char>) -> Option<(Seq<char>, PairSeq)>;

/// The pairs `pairs` in form-urlencoded syntax, joined by `&`.
pub uninterp spec fn form_urlencoded_text(pairs: PairSeq) -> Seq<char>;

/// The base64 encoding, in the standard alphabet and with padding, of the
/// UTF-8 bytes of `text`.
pub uninterp spec fn base64_standard_text(text: Seq<char>) -> Seq<char>;

/// The longest address, in bytes, that is handed to the parser of URLs
/// together with pairs for its query.
pub const URL_ADDRESS_LIMIT: usize = 0x000F_FFFF;

/// The most that pairs may weigh, by [`pairs_weight`], where they are put
/// into the query of an address that holds a `#`.
pub const URL_QUERY_LIMIT: usize = 0x3FFF_FFFF;

/// Whether the address `input` and the pairs `pairs` are short enough for
/// the positions inside the URL that is made of them to fit 32 bits. The
/// address is at most [`URL_ADDRESS_LIMIT`] bytes long. Where it holds a
/// `#`, which makes the pairs stand before a fragment, the pairs weigh at
/// most [`URL_QUERY_LIMIT`]; without one they may be of any length.
pub open spec fn url_input_fits(input: Seq<char>, pairs: PairSeq) -> bool {
    &&& encode_utf8(input).len() <= URL_ADDRESS_LIMIT
    &&& input.contains('#') ==> pairs_weight(pairs) <= URL_QUERY_LIMIT
}

/// `url::Url::parse_with_params`, the URL handed back as text: parses
/// `input` and appends `params` to the query of the URL. The contract names
/// the outcome and says that the call fails exactly where the name is `None`.
///
/// The crate keeps positions inside a URL in 32 bits, and unwinds where one
/// does not fit when it opens the query or puts the fragment back behind
/// it. The first is the end of the parsed address, which is at most a small
/// multiple of the address as given; the second is the end of the query,
/// where each pair takes at most three times its bytes and two separators.
/// [`url_input_fits`] leaves out the inputs on which either could exceed 32
/// bits.
#[verifier::external_body]
pub(crate) fn url_with_params(input: &str, params: &Vec<(String, String)>) -> (r: Result<
    String,
    url::ParseError,
>)
    requires
        url_input_fits(input@, pair_texts(params@)),
    ensures
        match r {
            Ok(u) => url_with_params_text(input@, pair_texts(params@)) == Some(u@),
            Err(_) => url_with_params_text(input@, pair_texts(params@)) is None,
        },
{
    url::Url::parse_with_params(input, params.iter()).map(String::from)
}

/// `url::Url::parse`, followed by `Url::path` and `Url::query_pairs` on the
/// URL it gave: the path and the decoded query of `input`. The contract names
/// the outcome and says that the call fails exactly where the name is `None`.
#[verifier::external_body]
pub(crate) fn parse_path_and_query(input: &str) -> (r: Result<
    (String, Vec<(String, String)>),
    url::ParseError,
>)
    ensures
        match r {
            Ok(parts) => url_path_and_query(input@) == Some((parts.0@, pair_texts(parts.1@))),
            Err(_) => url_path_and_query(input@) is None,
        },
{
    let url = url::Url::parse(input)?;
    Ok((url.path().to_string(), url.query_pairs().into_owned().collect()))
}

/// `url::form_urlencoded::Serializer`, fed `pairs` in order and finished. The
/// contract names the text it gives.
#[verifier::external_body]
pub(crate) fn form_urlencode(pairs: &Vec<(String, String)>) -> (r: String)
    ensures
        r@ == form_urlencoded_text(pair_texts(pairs@)),
{
    url::form_urlencoded::Serializer::new(String::new()).extend_pairs(pairs.iter()).finish()
}

/// The longest input, in bytes, that the base64 encoder is given. The
/// length of its output, a third longer, then fits a machine word of 32 bits.
pub const BASE64_INPUT_LIMIT: usize = 0x3FFF_FFFF;

/// `base64::Engine::encode` of the engine
/// `base64::engine::general_purpose::STANDARD`, on the bytes of `text`. The
/// contract names the text it gives. The encoder panics where the length of
/// its output overflows, so long inputs are left out.
#[verifier::external_body]
pub(crate) fn base64_encode(text: &str) -> (r: String)
    requires
        text.spec_bytes().len() <= BASE64_INPUT_LIMIT,
    ensures
        r@ == base64_standard_text(text@),
{
    base64::Engine::encode(&base64::engine::general_purpose::STANDARD, text)
}

/// The `Display` text of an error of the `url` crate's parser. Nothing is
/// said of the text.
#[verifier::external_body]
pub(crate) fn url_error_message(e: &url::ParseError) -> String {
    e.to_string()
}

/// The text `text` in double quotes, with the characters that would not
/// show as themselves written as escapes.
pub uninterp spec fn debug_quoted_text(text: Seq<char>) -> Seq<char>;

/// The `Debug` format of `str`, as `format!("{:?}", ..)` gives it: the text
/// in double quotes, with escapes. The contract names the text it gives.
#[verifier::external_body]
pub(crate) fn debug_quoted(text: &str) -> (r: String)
    ensures
        r@ == debug_quoted_text(text@),
{
    format!("{:?}", text)
}

/// Whether the address `input` and the pairs `pairs` may be handed to the
/// parser of URLs together.
pub fn check_url_input(input: &str, pairs: &Vec<(String, String)>) -> (r: bool)
    ensures
        r == url_input_fits(input@, pair_texts(pairs@)),
{
    if input.as_bytes().len() > URL_ADDRESS_LIMIT {
        return false;
    }
    !contains_char(input, '#') || weight_within(pairs, URL_QUERY_LIMIT)
}

} // verus!
