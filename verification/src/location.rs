//! Web addresses: the parsed form of a URL that tabs, history and bookmarks
//! carry, and percent-encoding of search terms.

use vstd::prelude::*;


verus! {

/// The observable parts of a parsed URL: its serialization, its scheme, and
/// its host (if it has one).
pub struct UrlView {
    pub text: Seq<char>,
    pub scheme: Seq<char>,
    pub host: Option<Seq<char>>,
}

/// What `url::Url::parse` makes of an input string: `None` where it refuses
/// it, else the serialization (`as_str`), `scheme` and `host_str` of the
/// parsed URL, which depend on the input alone.
pub uninterp spec fn parsed_url(input: Seq<char>) -> Option<UrlView>;

/// An absolute URL as the `url` crate parsed it.
pub struct Url {
    serialization: String,
    scheme: String,
    host: Option<String>,
}

/// The input could not be parsed as an absolute URL.
#[derive(Debug, Clone, Copy, PartialEq, Eq)]
pub struct UrlParseError;

impl View for Url {
    type V = UrlView;

    closed spec fn view(&self) -> UrlView {
        UrlView {
            text: self.serialization@,
            scheme: self.scheme@,
            host: match self.host {
                Some(h) => Some(h@),
                None => None,
            },
        }
    }
}

/// Parses `input` with `url::Url::parse` and keeps the serialization,
/// scheme and host of the result. The contract claims only that the result
/// is what `parsed_url` names for the input.
#[verifier::external_body]
fn parse_with_url_crate(input: &str) -> (res: Option<Url>)
    ensures
        match res {
            Some(u) => parsed_url(input@) == Some(u@),
            None => parsed_url(input@) is None,
        },
{
    url::Url::parse(input).ok().map(
        |u| Url {
            serialization: u.as_str().to_owned(),
            scheme: u.scheme().to_owned(),
            host: u.host_str().map(|h| h.to_owned()),
        },
    )
}

impl Url {
    /// Parses an absolute URL.
    pub fn parse(input: &str) -> (res: Result<Url, UrlParseError>)
        ensures
            match res {
                Ok(u) => parsed_url(input@) == Some(u@),
                Err(_) => parsed_url(input@) is None,
            },
    {
        match parse_with_url_crate(input) {
            Some(u) => Ok(u),
            None => Err(UrlParseError),
        }
    }

    /// The serialization of this URL.
    pub fn as_str(&self) -> (res: &str)
        ensures
            res@ == self@.text,
    {
        self.serialization.as_str()
    }

    /// The scheme of this URL, without the `:` delimiter.
    pub fn scheme(&self) -> (res: &str)
        ensures
            res@ == self@.scheme,
    {
        self.scheme.as_str()
    }

    /// The host of this URL, if it has one.
    pub fn host_str(&self) -> (res: Option<&str>)
        ensures
            match res {
                Some(h) => self@.host == Some(h@),
                None => self@.host is None,
            },
    {
        match &self.host {
            Some(h) => Some(h.as_str()),
            None => None,
        }
    }

    /// Whether two URLs have the same serialization (the equality of
    /// `url::Url`).
    pub fn same_as(&self, other: &Url) -> (res: bool)
        ensures
            res == (self@.text == other@.text),
    {
        self.serialization == other.serialization
    }

    /// The serialization as an owned string.
    pub fn to_string(&self) -> (res: String)
        ensures
            res@ == self@.text,
    {
        self.serialization.clone()
    }
}

impl Clone for Url {
    fn clone(&self) -> (res: Self)
        ensures
            res@ == self@,
    {
        Url {
            serialization: self.serialization.clone(),
            scheme: self.scheme.clone(),
            host: match &self.host {
                Some(h) => Some(h.clone()),
                None => None,
            },
        }
    }
}

/// Whether a byte is left as it is by percent-encoding: ASCII letters and
/// digits and `-`, `.`, `_`, `~`.
pub open spec fn is_unreserved(b: u8) -> bool {
    (48 <= b <= 57) || (65 <= b <= 90) || (97 <= b <= 122) || b == 45 || b == 46 || b == 95
        || b == 126
}

/// The upper-case hexadecimal digit for `d < 16`.
pub open spec fn hex_digit(d: u8) -> char {
    if d < 10 {
        (48 + d) as char
    } else {
        (55 + d) as char
    }
}

/// The percent-encoding of one byte.
pub open spec fn encode_byte(b: u8) -> Seq<char> {
    if is_unreserved(b) {
        seq![b as char]
    } else {
        seq!['%', hex_digit(b / 16), hex_digit(b % 16)]
    }
}

/// The percent-encoding of a byte string, byte by byte.
pub open spec fn encode_bytes(bytes: Seq<u8>) -> Seq<char>
    decreases bytes.len(),
{
    if bytes.len() == 0 {
        Seq::empty()
    } else {
        encode_byte(bytes[0]) + encode_bytes(bytes.drop_first())
    }
}

/// The percent-encoding of a string: every byte of its UTF-8 form except
/// ASCII letters, digits and `-`, `.`, `_`, `~` becomes `%XX`.
pub open spec fn url_encoded(s: Seq<char>) -> Seq<char> {
    encode_bytes(vstd::utf8::encode_utf8(s))
}

/// Percent-encodes `s` with `urlencoding::encode`, which encodes every byte
/// of the UTF-8 form except ASCII letters, digits and `-`, `.`, `_`, `~` as
/// `%` and two upper-case hexadecimal digits.
#[verifier::external_body]
pub(crate) fn url_encode(s: &str) -> (res: String)
    ensures
        res@ == url_encoded(s@),
{
    urlencoding::encode(s).into_owned()
}

} // verus!
