use vstd::prelude::*;
use vstd::utf8::{valid_utf8, decode_utf8};

verus! {

// ---------------------------------------------------------------------------
// SHA-256 (sha2)
// ---------------------------------------------------------------------------

/// The SHA-256 digest of `data`.
pub uninterp spec fn sha256(data: Seq<u8>) -> Seq<u8>;

/// `<sha2::Sha256 as Digest>::digest`: the 32-byte SHA-256 digest of the
/// data. The digest is named `sha256` of the input; the hash function itself
/// is not restated.
#[verifier::external_body]
pub(crate) fn sha256_digest(data: &[u8]) -> (r: Vec<u8>)
    ensures
        r@ == sha256(data@),
        r@.len() == 32,
{
    <sha2::Sha256 as sha2::Digest>::digest(data).to_vec()
}

// ---------------------------------------------------------------------------
// URL parsing (url)
// ---------------------------------------------------------------------------

/// What `url::Url::parse` gives for a string: on success the scheme, the
/// host as text, the explicit port and the serialized URL; on failure the
/// error's text.
pub uninterp spec fn url_parse(s: Seq<char>) -> Result<
    (Seq<char>, Option<Seq<char>>, Option<u16>, Seq<char>),
    Seq<char>,
>;

/// A parsed URL as plain values.
pub struct UrlParts {
    pub scheme: String,
    pub host: Option<String>,
    pub port: Option<u16>,
    pub serialized: String,
}

/// `url::Url::parse`, read out through `scheme`, `host_str`, `port` and
/// `as_str`; on failure the `Display` text of the `ParseError`. The result
/// is named `url_parse` of the input; the URL standard is not restated.
#[verifier::external_body]
pub(crate) fn parse_url(s: &str) -> (r: Result<UrlParts, String>)
    ensures
        match r {
            Ok(p) => url_parse(s@) == Ok::<
                (Seq<char>, Option<Seq<char>>, Option<u16>, Seq<char>),
                Seq<char>,
            >((p.scheme@, crate::config::opt_view(p.host), p.port, p.serialized@)),
            Err(e) => url_parse(s@) == Err::<
                (Seq<char>, Option<Seq<char>>, Option<u16>, Seq<char>),
                Seq<char>,
            >(e@),
        },
{
    match url::Url::parse(s) {
        Ok(u) => Ok(
            UrlParts {
                scheme: u.scheme().to_string(),
                host: u.host_str().map(|h| h.to_string()),
                port: u.port(),
                serialized: u.as_str().to_string(),
            },
        ),
        Err(e) => Err(e.to_string()),
    }
}

// ---------------------------------------------------------------------------
// Text decoding (encoding_rs and std)
// ---------------------------------------------------------------------------

/// What `encoding_rs::GBK.decode` gives: the text (BOM sniffing included)
/// and whether malformed sequences were replaced.
pub uninterp spec fn gbk_decode(bytes: Seq<u8>) -> (Seq<char>, bool);

/// `encoding_rs::GBK.decode`. The result is named `gbk_decode` of the input;
/// the GBK tables are not restated.
#[verifier::external_body]
pub(crate) fn decode_gbk(bytes: &[u8]) -> (r: (String, bool))
    ensures
        (r.0@, r.1) == gbk_decode(bytes@),
{
    let (text, _, had_errors) = encoding_rs::GBK.decode(bytes);
    (text.into_owned(), had_errors)
}

/// What `String::from_utf8_lossy` gives.
pub uninterp spec fn utf8_lossy(bytes: Seq<u8>) -> Seq<char>;

/// `String::from_utf8_lossy`: invalid sequences become U+FFFD; valid UTF-8
/// decodes as it is (std documents both).
#[verifier::external_body]
pub(crate) fn from_utf8_lossy(bytes: &[u8]) -> (r: String)
    ensures
        r@ == utf8_lossy(bytes@),
        valid_utf8(bytes@) ==> r@ == decode_utf8(bytes@),
{
    String::from_utf8_lossy(bytes).into_owned()
}

/// The UTF-16 decoding of `units`: a unit outside the surrogate range is
/// the character with that value; a high surrogate followed by a low one is
/// the character they encode; `None` if any surrogate is unpaired.
pub open spec fn utf16_decode(units: Seq<u16>) -> Option<Seq<char>>
    decreases units.len(),
{
    if units.len() == 0 {
        Some(seq![])
    } else if units[0] < 0xD800 || units[0] > 0xDFFF {
        match utf16_decode(units.drop_first()) {
            Some(rest) => Some(seq![(units[0] as u32) as char] + rest),
            None => None,
        }
    } else if units[0] <= 0xDBFF && units.len() >= 2 && 0xDC00 <= units[1] <= 0xDFFF {
        match utf16_decode(units.skip(2)) {
            Some(rest) => Some(seq![surrogate_pair(units[0], units[1])] + rest),
            None => None,
        }
    } else {
        None
    }
}

/// The character a high and a low surrogate encode.
pub open spec fn surrogate_pair(hi: u16, lo: u16) -> char {
    ((0x10000 + (hi - 0xD800) * 0x400 + (lo - 0xDC00)) as u32) as char
}

/// As `utf16_decode`, with each unpaired surrogate replaced by U+FFFD.
pub open spec fn utf16_decode_lossy(units: Seq<u16>) -> Seq<char>
    decreases units.len(),
{
    if units.len() == 0 {
        seq![]
    } else if units[0] < 0xD800 || units[0] > 0xDFFF {
        seq![(units[0] as u32) as char] + utf16_decode_lossy(units.drop_first())
    } else if units[0] <= 0xDBFF && units.len() >= 2 && 0xDC00 <= units[1] <= 0xDFFF {
        seq![surrogate_pair(units[0], units[1])] + utf16_decode_lossy(units.skip(2))
    } else {
        seq!['\u{FFFD}'] + utf16_decode_lossy(units.drop_first())
    }
}

/// `String::from_utf16`: the text the UTF-16 units encode, or `None` where
/// they hold an unpaired surrogate (std returns an error then).
#[verifier::external_body]
pub(crate) fn from_utf16(units: &[u16]) -> (r: Option<String>)
    ensures
        match r {
            Some(s) => utf16_decode(units@) == Some(s@),
            None => utf16_decode(units@) is None,
        },
{
    String::from_utf16(units).ok()
}

/// `String::from_utf16_lossy`: as `from_utf16`, with U+FFFD in place of
/// each unpaired surrogate.
#[verifier::external_body]
pub(crate) fn from_utf16_lossy(units: &[u16]) -> (r: String)
    ensures
        r@ == utf16_decode_lossy(units@),
{
    String::from_utf16_lossy(units)
}

} // verus!
