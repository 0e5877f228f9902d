//! The calls into outside crates, each behind a function whose contract says
//! what the library relies on. Nothing here is proved; everything that uses it is.

use crate::text;
use vstd::prelude::*;

verus! {

// ---------------------------------------------------------------------------
// html_escape
// ---------------------------------------------------------------------------
/// What `html_escape::decode_html_entities` makes of a text with an ampersand.
pub uninterp spec fn html_entities_decoded(s: Seq<char>) -> Seq<char>;

/// The text with its HTML character references replaced by what they stand for.
/// A text without an ampersand has none.
pub open spec fn entities_decoded(s: Seq<char>) -> Seq<char> {
    if s.contains('&') {
        html_entities_decoded(s)
    } else {
        s
    }
}

/// `html_escape::decode_html_entities`: a text without an ampersand comes back
/// unchanged; what becomes of any other one has a name.
#[verifier::external_body]
pub(crate) fn decode_html_entities(s: &str) -> (r: String)
    ensures
        r@ == (if s@.contains('&') {
            html_entities_decoded(s@)
        } else {
            s@
        }),
{
    html_escape::decode_html_entities(s).into_owned()
}

// ---------------------------------------------------------------------------
// urlencoding
// ---------------------------------------------------------------------------
/// The bytes that stay as they are in a percent-encoded text.
pub open spec fn unreserved(b: u8) -> bool {
    ||| 0x30 <= b <= 0x39
    ||| 0x41 <= b <= 0x5a
    ||| 0x61 <= b <= 0x7a
    ||| b == 0x2d
    ||| b == 0x2e
    ||| b == 0x5f
    ||| b == 0x7e
}

/// The hexadecimal digit for a value below 16, in capitals.
pub open spec fn upper_hex_digit(n: int) -> char {
    if n < 10 {
        ((0x30 + n) as u32) as char
    } else {
        ((0x41 + n - 10) as u32) as char
    }
}

/// One byte in a percent-encoded text.
pub open spec fn percent_encoded_byte(b: u8) -> Seq<char> {
    if unreserved(b) {
        seq![(b as u32) as char]
    } else {
        seq!['%', upper_hex_digit(b as int / 16), upper_hex_digit(b as int % 16)]
    }
}

/// The percent-encoded form of a byte sequence.
pub open spec fn percent_encoded(bytes: Seq<u8>) -> Seq<char>
    decreases bytes.len(),
{
    if bytes.len() == 0 {
        seq![]
    } else {
        percent_encoded_byte(bytes[0]) + percent_encoded(bytes.drop_first())
    }
}

/// `urlencoding::encode`: every byte of the UTF-8 encoding but ASCII letters,
/// ASCII digits and `-`, `.`, `_`, `~` becomes `%` and two capital hexadecimal
/// digits.
#[verifier::external_body]
pub(crate) fn percent_encode(s: &str) -> (r: String)
    ensures
        r@ == percent_encoded(vstd::utf8::encode_utf8(s@)),
{
    urlencoding::encode(s).into_owned()
}

// ---------------------------------------------------------------------------
// url
// ---------------------------------------------------------------------------
/// The parts of a URL that the library reads.
pub struct UrlParts {
    /// The scheme, in small letters.
    pub scheme: String,
    /// The host, where the URL has one.
    pub host: Option<String>,
    /// The path's segments, where the path starts with `/`.
    pub segments: Option<Vec<String>>,
    /// The port, or the one that the scheme is known for.
    pub port: Option<u16>,
    /// The path.
    pub path: String,
}

/// What the parts of a URL stand for.
pub struct UrlModel {
    pub scheme: Seq<char>,
    pub host: Option<Seq<char>>,
    pub segments: Option<Seq<Seq<char>>>,
    pub port: Option<u16>,
    pub path: Seq<char>,
}

impl View for UrlParts {
    type V = UrlModel;

    open spec fn view(&self) -> UrlModel {
        UrlModel {
            scheme: self.scheme@,
            host: text::string_view(self.host),
            segments: match self.segments {
                Some(v) => Some(text::string_contents(v@)),
                None => None,
            },
            port: self.port,
            path: self.path@,
        }
    }
}

/// The parts of the URL that a text is, as `url::Url::parse` reads it; nothing
/// where the text is no URL.
pub uninterp spec fn parsed_url(s: Seq<char>) -> Option<UrlModel>;

/// `url::Url::parse`, with `scheme`, `host_str`, `path_segments`,
/// `port_or_known_default` and `path` of what it returns. Which texts are URLs,
/// and what their parts are, has a name.
#[verifier::external_body]
pub(crate) fn parse_url(s: &str) -> (r: Option<UrlParts>)
    ensures
        (match r {
            Some(u) => Some(u@),
            None => None,
        }) == parsed_url(s@),
{
    let u = url::Url::parse(s).ok()?;
    Some(UrlParts {
        scheme: u.scheme().to_string(),
        host: u.host_str().map(str::to_string),
        segments: u.path_segments().map(|p| p.map(str::to_string).collect()),
        port: u.port_or_known_default(),
        path: u.path().to_string(),
    })
}

/// The origin of a URL.
pub enum Origin {
    /// It is the same as no other.
    Opaque,
    Tuple { scheme: String, host: String, port: u16 },
}

/// What an origin stands for.
pub enum OriginModel {
    Opaque,
    Tuple { scheme: Seq<char>, host: Seq<char>, port: u16 },
}

impl View for Origin {
    type V = OriginModel;

    open spec fn view(&self) -> OriginModel {
        match self {
            Origin::Opaque => OriginModel::Opaque,
            Origin::Tuple { scheme, host, port } => OriginModel::Tuple {
                scheme: scheme@,
                host: host@,
                port: *port,
            },
        }
    }
}

/// The schemes whose URLs are of one origin where scheme, host and port agree.
pub open spec fn has_tuple_origin(scheme: Seq<char>) -> bool {
    scheme == "ftp"@ || scheme == "http"@ || scheme == "https"@ || scheme == "ws"@ || scheme
        == "wss"@
}

/// The origin that a URL has by itself.
pub open spec fn own_origin(u: UrlModel) -> OriginModel {
    match (u.host, u.port) {
        (Some(host), Some(port)) if has_tuple_origin(u.scheme) => OriginModel::Tuple {
            scheme: u.scheme,
            host,
            port,
        },
        _ => OriginModel::Opaque,
    }
}

/// `url::Url::origin` of the URL that a text is: scheme, host and port for five
/// schemes, and opaque for any other. A URL with the scheme `blob` is left out,
/// since the outside function goes into it once for each URL inside it.
#[verifier::external_body]
pub(crate) fn url_origin(s: &str) -> (r: Origin)
    requires
        parsed_url(s@) matches Some(u) && u.scheme != "blob"@,
    ensures
        r@ == own_origin(parsed_url(s@)->0),
{
    match url::Url::parse(s).map(|u| u.origin()) {
        Ok(url::Origin::Tuple(scheme, host, port)) => {
            Origin::Tuple { scheme, host: host.to_string(), port }
        }
        _ => Origin::Opaque,
    }
}

/// The address that `href` leads to from a page at `base`, as `url::Url::join`
/// gives it; nothing where either is not to be read.
pub uninterp spec fn joined_url(base: Seq<char>, href: Seq<char>) -> Option<Seq<char>>;

/// `url::Url::parse` and `join`: the address that `href` leads to from a page at
/// `base`, under a name.
#[verifier::external_body]
pub(crate) fn join_url(base: &str, href: &str) -> (r: Option<String>)
    ensures
        text::string_view(r) == joined_url(base@, href@),
{
    let page = url::Url::parse(base).ok()?;
    page.join(href).ok().map(|u| u.to_string())
}

// ---------------------------------------------------------------------------
// regex
// ---------------------------------------------------------------------------
/// What a group of a regular expression matched: the byte offset at which it
/// starts, and the text.
pub struct GroupMatch {
    pub start: usize,
    pub text: String,
}

/// What a group's match stands for.
pub struct GroupModel {
    pub start: usize,
    pub text: Seq<char>,
}

/// What an optional group match stands for.
pub open spec fn group_view(g: Option<GroupMatch>) -> Option<GroupModel> {
    match g {
        Some(m) => Some(GroupModel { start: m.start, text: m.text@ }),
        None => None,
    }
}

/// What the groups of one match stand for.
pub open spec fn groups_view(v: Seq<Option<GroupMatch>>) -> Seq<Option<GroupModel>> {
    v.map_values(|g: Option<GroupMatch>| group_view(g))
}

/// What a list of matches stands for.
pub open spec fn matches_view(v: Seq<Vec<Option<GroupMatch>>>) -> Seq<Seq<Option<GroupModel>>> {
    v.map_values(|m: Vec<Option<GroupMatch>>| groups_view(m@))
}

/// The successive matches of a pattern in a text, each with its groups from the
/// whole match on, as `regex::Regex::captures_iter` gives them; nothing where
/// the pattern is not a regular expression.
pub uninterp spec fn regex_matches(pattern: Seq<char>, s: Seq<char>) -> Option<
    Seq<Seq<Option<GroupModel>>>,
>;

/// `regex::Regex::new` and `captures_iter`: the successive matches of the
/// pattern in the text, under a name.
#[verifier::external_body]
pub(crate) fn find_matches(pattern: &str, s: &str) -> (r: Option<Vec<Vec<Option<GroupMatch>>>>)
    ensures
        (match r {
            Some(v) => Some(matches_view(v@)),
            None => None,
        }) == regex_matches(pattern@, s@),
{
    let re = regex::Regex::new(pattern).ok()?;
    Some(
        re.captures_iter(s)
            .map(|c| {
                c.iter()
                    .map(|g| g.map(|m| GroupMatch { start: m.start(), text: m.as_str().to_string() }))
                    .collect()
            })
            .collect(),
    )
}

// ---------------------------------------------------------------------------
// sha2 and hex
// ---------------------------------------------------------------------------
/// The SHA-256 digest of a byte sequence.
pub uninterp spec fn sha256_digest(bytes: Seq<u8>) -> Seq<u8>;

/// `sha2::Sha256::digest`: the digest, which is 32 bytes long.
#[verifier::external_body]
pub(crate) fn sha256(bytes: &[u8]) -> (r: Vec<u8>)
    ensures
        r@ == sha256_digest(bytes@),
        r@.len() == 32,
{
    <sha2::Sha256 as sha2::Digest>::digest(bytes).to_vec()
}

/// The hexadecimal digit for a value below 16, in small letters.
pub open spec fn lower_hex_digit(n: int) -> char {
    if n < 10 {
        ((0x30 + n) as u32) as char
    } else {
        ((0x61 + n - 10) as u32) as char
    }
}

/// The bytes in hexadecimal, two digits each.
pub open spec fn hex_text(bytes: Seq<u8>) -> Seq<char> {
    Seq::new(
        2 * bytes.len(),
        |i: int|
            if i % 2 == 0 {
                lower_hex_digit(bytes[i / 2] as int / 16)
            } else {
                lower_hex_digit(bytes[i / 2] as int % 16)
            },
    )
}

/// `hex::encode`: two small hexadecimal digits for each byte.
#[verifier::external_body]
pub(crate) fn hex_encode(bytes: &[u8]) -> (r: String)
    ensures
        r@ == hex_text(bytes@),
{
    hex::encode(bytes)
}

// ---------------------------------------------------------------------------
// chrono
// ---------------------------------------------------------------------------
/// A point in time: whole seconds since 1970-01-01T00:00:00Z, and nanoseconds.
#[derive(Debug, Clone, Copy, PartialEq, Eq, Structural)]
pub struct Timestamp {
    pub secs: i64,
    pub nanos: u32,
}

/// The point in time that a text denotes, as `chrono::DateTime<chrono::Utc>` is
/// parsed from it; nothing where it denotes none.
pub uninterp spec fn parsed_utc(s: Seq<char>) -> Option<Timestamp>;

/// `chrono::DateTime::<chrono::Utc>::from_str`: which texts denote a point in
/// time, and which one, has a name.
#[verifier::external_body]
pub(crate) fn parse_utc(s: &str) -> (r: Option<Timestamp>)
    ensures
        r == parsed_utc(s@),
{
    let t = s.parse::<chrono::DateTime<chrono::Utc>>().ok()?;
    Some(Timestamp { secs: t.timestamp(), nanos: t.timestamp_subsec_nanos() })
}

/// The point in time that a text denotes by RFC 3339, as
/// `chrono::DateTime::parse_from_rfc3339` reads it; nothing where it denotes
/// none.
pub uninterp spec fn parsed_rfc3339(s: Seq<char>) -> Option<Timestamp>;

/// `chrono::DateTime::parse_from_rfc3339`: which texts denote a point in time,
/// and which one, has a name.
#[verifier::external_body]
pub(crate) fn parse_rfc3339(s: &str) -> (r: Option<Timestamp>)
    ensures
        r == parsed_rfc3339(s@),
{
    let t = chrono::DateTime::parse_from_rfc3339(s).ok()?;
    Some(Timestamp { secs: t.timestamp(), nanos: t.timestamp_subsec_nanos() })
}

/// The text of a point in time by RFC 3339, as `chrono::DateTime::to_rfc3339`
/// gives it; nothing where the calendar has no such point.
pub uninterp spec fn rfc3339_text(t: Timestamp) -> Option<Seq<char>>;

/// `chrono::DateTime::from_timestamp` and `to_rfc3339`: which points in time the
/// calendar has, and how they are written, has a name.
#[verifier::external_body]
pub(crate) fn to_rfc3339(t: Timestamp) -> (r: Option<String>)
    ensures
        text::string_view(r) == rfc3339_text(t),
{
    chrono::DateTime::from_timestamp(t.secs, t.nanos).map(|d| d.to_rfc3339())
}

// ---------------------------------------------------------------------------
// ammonia
// ---------------------------------------------------------------------------
/// What a list of string slices holds.
pub open spec fn strs(v: Seq<&str>) -> Seq<Seq<char>> {
    v.map_values(|t: &str| t@)
}

/// The attributes that are allowed on one element.
pub struct ElementAttributes {
    pub element: &'static str,
    pub attributes: Vec<&'static str>,
}

/// What the attributes that are allowed on one element stand for.
pub struct ElementAttributesModel {
    pub element: Seq<char>,
    pub attributes: Seq<Seq<char>>,
}

/// What a list of allowed attributes stands for.
pub open spec fn attribute_models(v: Seq<ElementAttributes>) -> Seq<ElementAttributesModel> {
    v.map_values(
        |a: ElementAttributes|
            ElementAttributesModel { element: a.element@, attributes: strs(a.attributes@) },
    )
}

/// Which elements, attributes and URL schemes a sanitised document may hold.
pub struct HtmlPolicy {
    pub elements: Vec<&'static str>,
    pub element_attributes: Vec<ElementAttributes>,
    pub generic_attributes: Vec<&'static str>,
    pub url_schemes: Vec<&'static str>,
    /// The `rel` value that every link gets, or none.
    pub link_rel: Option<&'static str>,
}

/// What a policy stands for.
pub struct HtmlPolicyModel {
    pub elements: Seq<Seq<char>>,
    pub element_attributes: Seq<ElementAttributesModel>,
    pub generic_attributes: Seq<Seq<char>>,
    pub url_schemes: Seq<Seq<char>>,
    pub link_rel: Option<Seq<char>>,
}

impl View for HtmlPolicy {
    type V = HtmlPolicyModel;

    open spec fn view(&self) -> HtmlPolicyModel {
        HtmlPolicyModel {
            elements: strs(self.elements@),
            element_attributes: attribute_models(self.element_attributes@),
            generic_attributes: strs(self.generic_attributes@),
            url_schemes: strs(self.url_schemes@),
            link_rel: text::str_view(self.link_rel),
        }
    }
}

impl HtmlPolicyModel {
    /// The sanitiser drops `script` and `style` with what they hold, so neither
    /// may be allowed; and no `rel` may be set for links.
    pub open spec fn consistent(self) -> bool {
        &&& !self.elements.contains("script"@)
        &&& !self.elements.contains("style"@)
        &&& forall|i: int|
            0 <= i < self.element_attributes.len()
                ==> (#[trigger] self.element_attributes[i]).element != "script"@
                && self.element_attributes[i].element != "style"@
        &&& self.link_rel is None
    }
}

/// The document that `ammonia::Builder::clean` makes of a text, where it is set
/// up with the policy and with an attribute filter that answers
/// `content::kept_attribute`.
pub uninterp spec fn sanitized_html(policy: HtmlPolicyModel, html: Seq<char>) -> Seq<char>;

/// `ammonia::Builder::clean`, set up with the policy and the attribute filter.
/// What the cleaned document is has a name. The call fails where the policy
/// allows an element that the sanitiser drops with its content.
#[verifier::external_body]
pub(crate) fn sanitize_html(policy: &HtmlPolicy, html: &str) -> (r: String)
    requires
        policy@.consistent(),
    ensures
        r@ == sanitized_html(policy@, html@),
{
    let of = |a: &ElementAttributes| (a.element, a.attributes.iter().copied().collect());
    ammonia::Builder::new()
        .tags(policy.elements.iter().copied().collect())
        .tag_attributes(policy.element_attributes.iter().map(of).collect())
        .generic_attributes(policy.generic_attributes.iter().copied().collect())
        .url_schemes(policy.url_schemes.iter().copied().collect())
        .link_rel(policy.link_rel)
        .attribute_filter(|_element, attribute, value| {
            crate::jobs::inbound_activity_process::content::filter_attribute(attribute, value)
                .map(std::borrow::Cow::Owned)
        })
        .clean(html)
        .to_string()
}

} // verus!
