//! Mentions, hashtags and URLs in the text of a post, and what they become where
//! the post is delivered to Bluesky or to the Fediverse.
//!
//! A text is cut into tokens, which does not depend on any lookup. Each token
//! says what has to be looked up about it; from the tokens and the answers the
//! delivered text is put together, with the byte range of everything that links.

use crate::ap;
use crate::jobs::inbound_activity_process::note_input;
use crate::json;
use crate::json::{Json, JsonModel};
use crate::text;
use vstd::prelude::*;
use vstd::slice::slice_subrange;

verus! {

// ---------------------------------------------------------------------------
// Scanning.
// ---------------------------------------------------------------------------
/// The characters that end a URL in running text.
pub open spec fn url_stop() -> spec_fn(char) -> bool {
    |c: char|
        text::is_white_space(c) || c == '<' || c == '>' || c == '(' || c == ')' || c == '[' || c
            == ']'
}

/// The length of the scheme of a URL that starts at index `start`.
pub open spec fn scheme_len(s: Seq<char>, start: int) -> Option<int> {
    if text::occurs_at(s, "https://"@, start) {
        Some(8)
    } else if text::occurs_at(s, "http://"@, start) {
        Some(7)
    } else {
        None
    }
}

/// The index behind the URL that starts at index `start`; nothing where none
/// does, or where nothing follows its scheme.
pub open spec fn url_end(s: Seq<char>, start: int) -> Option<int> {
    match scheme_len(s, start) {
        None => None,
        Some(n) => {
            let end: int = text::next_index(s, url_stop(), start + n);
            if end > start + n {
                Some(end)
            } else {
                None
            }
        },
    }
}

/// The index behind the URL that starts at index `start`.
pub fn scan_url(text_chars: &[char], start: usize) -> (r: Option<usize>)
    requires
        start <= text_chars@.len(),
    ensures
        r is Some <==> url_end(text_chars@, start as int) is Some,
        r matches Some(e) ==> url_end(text_chars@, start as int) == Some(e as int) && start < e
            <= text_chars@.len(),
{
    proof {
        reveal_strlit("https://");
        reveal_strlit("http://");
    }
    let len: usize = text_chars.len();
    let n: usize = if text::is_at(text_chars, text::chars_of("https://").as_slice(), start) {
        8
    } else if text::is_at(text_chars, text::chars_of("http://").as_slice(), start) {
        7
    } else {
        return None;
    };
    let mut end: usize = start + n;
    while end < text_chars.len() && !(text_chars[end].is_whitespace() || text_chars[end] == '<'
        || text_chars[end] == '>' || text_chars[end] == '(' || text_chars[end] == ')'
        || text_chars[end] == '[' || text_chars[end] == ']')
        invariant
            start + n <= end <= text_chars@.len(),
            text::next_index(text_chars@, url_stop(), start + n) == text::next_index(
                text_chars@,
                url_stop(),
                end as int,
            ),
        decreases text_chars@.len() - end,
    {
        end += 1;
    }
    if end == start + n {
        return None;
    }
    Some(end)
}

/// The characters behind which neither a mention nor a hashtag starts: the text
/// then is an address, or part of one.
pub open spec fn joins_word(c: char) -> bool {
    text::ascii_alphanumeric(c) || c == '_'
}

/// The characters that a hashtag ends at.
pub open spec fn not_tag_char() -> spec_fn(char) -> bool {
    |c: char| !(text::alphanumeric(c) || c == '_')
}

/// The name of a hashtag holds a letter: a plain number is no hashtag.
pub open spec fn has_letter(s: Seq<char>) -> bool {
    exists|i: int| 0 <= i < s.len() && text::alphabetic(#[trigger] s[i])
}

/// The name of the hashtag whose `#` stands at index `start`, and the index
/// behind it.
pub open spec fn hashtag_at(s: Seq<char>, start: int) -> Option<(Seq<char>, int)> {
    let end: int = text::next_index(s, not_tag_char(), start + 1);
    let name = s.subrange(start + 1, end);
    if start > 0 && (joins_word(s[start - 1]) || s[start - 1] == '/') {
        None
    } else if has_letter(name) {
        Some((name, end))
    } else {
        None
    }
}

/// The name of the hashtag whose `#` stands at index `start`, and the index
/// behind it.
pub fn scan_hashtag(text_chars: &[char], start: usize) -> (r: Option<(String, usize)>)
    requires
        start < text_chars@.len(),
    ensures
        r is Some <==> hashtag_at(text_chars@, start as int) is Some,
        r matches Some(t) ==> hashtag_at(text_chars@, start as int) == Some((t.0@, t.1 as int))
            && start < t.1 <= text_chars@.len(),
{
    if start > 0 {
        let prev: char = text_chars[start - 1];
        if text::is_ascii_alnum(prev) || prev == '_' || prev == '/' {
            return None;
        }
    }
    let mut end: usize = start + 1;
    while end < text_chars.len() && (text_chars[end].is_alphanumeric() || text_chars[end] == '_')
        invariant
            start < end <= text_chars@.len(),
            text::next_index(text_chars@, not_tag_char(), start + 1) == text::next_index(
                text_chars@,
                not_tag_char(),
                end as int,
            ),
        decreases text_chars@.len() - end,
    {
        end += 1;
    }
    let name: &[char] = slice_subrange(text_chars, start + 1, end);
    let mut i: usize = 0;
    while i < name.len()
        invariant
            i <= name@.len(),
            forall|k: int| 0 <= k < i ==> !text::alphabetic(#[trigger] name@[k]),
            start < end <= text_chars@.len(),
            name@ == text_chars@.subrange(start + 1, end as int),
            end == text::next_index(text_chars@, not_tag_char(), start + 1),
            !(start > 0 && (joins_word(text_chars@[start - 1]) || text_chars@[start - 1] == '/')),
        decreases name@.len() - i,
    {
        if name[i].is_alphabetic() {
            assert(text::alphabetic(name@[i as int]));
            return Some((text::string_of(name), end));
        }
        i += 1;
    }
    None
}

/// The characters that a user name or a handle ends at.
pub open spec fn not_ident_char() -> spec_fn(char) -> bool {
    |c: char| !(text::alphanumeric(c) || c == '_' || c == '-' || c == '.')
}

/// The characters that a domain ends at.
pub open spec fn not_domain_char() -> spec_fn(char) -> bool {
    |c: char| !(text::alphanumeric(c) || c == '.' || c == '-')
}

/// A name that is written like an AT Protocol handle: labels set apart by dots,
/// the last of at least two bytes.
pub open spec fn looks_like_handle(s: Seq<char>) -> bool {
    s.contains('.') && text::utf8_len(text::after_last(s, "."@)) >= 2
}

/// A piece of a post's text.
pub enum Token {
    /// A character that starts nothing.
    Char(char),
    /// A text that looks like a mention but is none.
    Bare(String),
    Url(String),
    /// A hashtag, without its `#`.
    Hashtag(String),
    /// `@user@domain`.
    Acct { user: String, domain: String },
    /// `@handle.tld`.
    Handle(String),
    /// `@user`.
    User(String),
}

/// What a piece of a post's text stands for.
pub enum TokenModel {
    Char(char),
    Bare(Seq<char>),
    Url(Seq<char>),
    Hashtag(Seq<char>),
    Acct { user: Seq<char>, domain: Seq<char> },
    Handle(Seq<char>),
    User(Seq<char>),
}

impl View for Token {
    type V = TokenModel;

    open spec fn view(&self) -> TokenModel {
        match self {
            Token::Char(c) => TokenModel::Char(*c),
            Token::Bare(t) => TokenModel::Bare(t@),
            Token::Url(t) => TokenModel::Url(t@),
            Token::Hashtag(t) => TokenModel::Hashtag(t@),
            Token::Acct { user, domain } => TokenModel::Acct { user: user@, domain: domain@ },
            Token::Handle(t) => TokenModel::Handle(t@),
            Token::User(t) => TokenModel::User(t@),
        }
    }
}

/// What a list of tokens stands for.
pub open spec fn token_models(v: Seq<Token>) -> Seq<TokenModel> {
    v.map_values(|t: Token| t@)
}

/// The token whose `@` stands at index `i`, and the index behind it.
pub open spec fn mention_at(s: Seq<char>, i: int) -> (TokenModel, int) {
    let end: int = text::next_index(s, not_ident_char(), i + 1);
    let user = s.subrange(i + 1, end);
    if (i > 0 && joins_word(s[i - 1])) || end == i + 1 {
        (TokenModel::Char('@'), i + 1)
    } else if end < s.len() && s[end] == '@' {
        let stop: int = text::next_index(s, not_domain_char(), end + 1);
        if stop == end + 1 {
            (TokenModel::Bare(s.subrange(i, stop)), stop)
        } else {
            (TokenModel::Acct { user, domain: s.subrange(end + 1, stop) }, stop)
        }
    } else if looks_like_handle(user) {
        (TokenModel::Handle(user), end)
    } else {
        (TokenModel::User(user), end)
    }
}

/// The token that starts at index `i`, and the index behind it.
pub open spec fn token_at(s: Seq<char>, i: int) -> (TokenModel, int) {
    if s[i] == 'h' && url_end(s, i) is Some {
        (TokenModel::Url(s.subrange(i, url_end(s, i)->0)), url_end(s, i)->0)
    } else if s[i] == '#' && hashtag_at(s, i) is Some {
        let (name, end) = hashtag_at(s, i)->0;
        (TokenModel::Hashtag(name), end)
    } else if s[i] == '@' {
        mention_at(s, i)
    } else {
        (TokenModel::Char(s[i]), i + 1)
    }
}

/// A token is not empty and ends inside the text.
pub proof fn lemma_token_bounds(s: Seq<char>, i: int)
    requires
        0 <= i < s.len(),
    ensures
        i < token_at(s, i).1 <= s.len(),
{
    reveal_strlit("https://");
    reveal_strlit("http://");
    if scheme_len(s, i) is Some {
        text::lemma_next_index(s, url_stop(), i + scheme_len(s, i)->0);
    }
    text::lemma_next_index(s, not_tag_char(), i + 1);
    text::lemma_next_index(s, not_ident_char(), i + 1);
    let end: int = text::next_index(s, not_ident_char(), i + 1);
    if end < s.len() {
        text::lemma_next_index(s, not_domain_char(), end + 1);
    }
}

/// The tokens of `s[i..]`.
pub open spec fn tokens_from(s: Seq<char>, i: int) -> Seq<TokenModel>
    decreases s.len() - i,
{
    if i < 0 || i >= s.len() {
        seq![]
    } else {
        proof {
            lemma_token_bounds(s, i);
        }
        seq![token_at(s, i).0] + tokens_from(s, token_at(s, i).1)
    }
}

/// The tokens of a text.
pub open spec fn tokens(s: Seq<char>) -> Seq<TokenModel> {
    tokens_from(s, 0)
}

/// The UTF-8 length of a text that is not empty is at least two exactly where it
/// has two characters, or one outside ASCII.
proof fn lemma_two_bytes(s: Seq<char>)
    ensures
        text::utf8_len(s) >= 2 <==> s.len() >= 2 || (s.len() == 1 && s[0] as u32 >= 0x80),
{
    if s.len() == 1 {
        assert(s.drop_first() =~= seq![]);
        assert(vstd::utf8::encode_utf8(s.drop_first()).len() == 0);
    } else if s.len() >= 2 {
        let t = s.drop_first();
        assert(vstd::utf8::encode_utf8(t).len() == vstd::utf8::encode_scalar(t[0] as u32).len()
            + vstd::utf8::encode_utf8(t.drop_first()).len());
    }
}

/// Whether a name is written like an AT Protocol handle.
fn is_handle(s: &[char]) -> (r: bool)
    ensures
        r == looks_like_handle(s@),
{
    if !text::has_char(s, '.') {
        return false;
    }
    let dot: Vec<char> = text::chars_of(".");
    let last: &[char] = match text::find_last(s, dot.as_slice()) {
        Some(k) => slice_subrange(s, k + dot.len(), s.len()),
        None => s,
    };
    proof {
        lemma_two_bytes(last@);
    }
    last.len() >= 2 || (last.len() == 1 && last[0] as u32 >= 0x80)
}

/// The token whose `@` stands at index `i`, and the index behind it.
fn scan_mention(s: &[char], i: usize) -> (r: (Token, usize))
    requires
        i < s@.len(),
    ensures
        (r.0@, r.1 as int) == mention_at(s@, i as int),
        i < r.1 <= s@.len(),
{
    if i > 0 && (text::is_ascii_alnum(s[i - 1]) || s[i - 1] == '_') {
        return (Token::Char('@'), i + 1);
    }
    let mut end: usize = i + 1;
    while end < s.len() && (s[end].is_alphanumeric() || s[end] == '_' || s[end] == '-' || s[end]
        == '.')
        invariant
            i < end <= s@.len(),
            text::next_index(s@, not_ident_char(), i + 1) == text::next_index(
                s@,
                not_ident_char(),
                end as int,
            ),
        decreases s@.len() - end,
    {
        end += 1;
    }
    if end == i + 1 {
        return (Token::Char('@'), i + 1);
    }
    let user: &[char] = slice_subrange(s, i + 1, end);
    if end < s.len() && s[end] == '@' {
        let mut stop: usize = end + 1;
        while stop < s.len() && (s[stop].is_alphanumeric() || s[stop] == '.' || s[stop] == '-')
            invariant
                end < stop <= s@.len(),
                text::next_index(s@, not_domain_char(), end + 1) == text::next_index(
                    s@,
                    not_domain_char(),
                    stop as int,
                ),
            decreases s@.len() - stop,
        {
            stop += 1;
        }
        if stop == end + 1 {
            return (Token::Bare(text::string_of(slice_subrange(s, i, stop))), stop);
        }
        let domain: &[char] = slice_subrange(s, end + 1, stop);
        return (
            Token::Acct { user: text::string_of(user), domain: text::string_of(domain) },
            stop,
        );
    }
    if is_handle(user) {
        (Token::Handle(text::string_of(user)), end)
    } else {
        (Token::User(text::string_of(user)), end)
    }
}

/// The token that starts at index `i`, and the index behind it.
fn scan_token(s: &[char], i: usize) -> (r: (Token, usize))
    requires
        i < s@.len(),
    ensures
        r.0@ == token_at(s@, i as int).0,
        r.1 == token_at(s@, i as int).1,
        i < r.1 <= s@.len(),
{
    if s[i] == 'h' {
        match scan_url(s, i) {
            Some(end) => {
                return (Token::Url(text::string_of(slice_subrange(s, i, end))), end);
            },
            None => {},
        }
    } else if s[i] == '#' {
        match scan_hashtag(s, i) {
            Some(t) => {
                return (Token::Hashtag(t.0), t.1);
            },
            None => {},
        }
    } else if s[i] == '@' {
        return scan_mention(s, i);
    }
    (Token::Char(s[i]), i + 1)
}

/// The tokens of a text.
pub fn scan_tokens(body: &str) -> (r: Vec<Token>)
    ensures
        token_models(r@) == tokens(body@),
{
    let chars: Vec<char> = text::chars_of(body);
    let s: &[char] = chars.as_slice();
    let mut out: Vec<Token> = Vec::new();
    let mut i: usize = 0;
    assert(token_models(out@) + tokens(body@) =~= tokens(body@));
    while i < s.len()
        invariant
            i <= s@.len(),
            s@ == body@,
            token_models(out@) + tokens_from(s@, i as int) == tokens(body@),
        decreases s@.len() - i,
    {
        let ghost before = token_models(out@);
        let ghost first = token_at(s@, i as int).0;
        let (token, end): (Token, usize) = scan_token(s, i);
        out.push(token);
        i = end;
        proof {
            let rest = tokens_from(s@, i as int);
            assert(token_models(out@) =~= before.push(first));
            assert(before + (seq![first] + rest) =~= token_models(out@) + rest);
        }
    }
    assert(token_models(out@) + Seq::<TokenModel>::empty() =~= token_models(out@));
    out
}

// ---------------------------------------------------------------------------
// Facets.
// ---------------------------------------------------------------------------
/// What a range of a Bluesky post's text is.
pub struct BskyFacet {
    pub index: BskyFacetIndex,
    pub features: Vec<BskyFacetFeature>,
}

/// A range of a text, in bytes of its UTF-8 encoding.
pub struct BskyFacetIndex {
    pub byte_end: usize,
    pub byte_start: usize,
}

pub enum BskyFacetFeature {
    Mention(BskyFacetMention),
    Link(BskyFacetLink),
    Tag(BskyFacetTag),
}

pub struct BskyFacetMention {
    pub did: String,
    pub kind: String,
}

pub struct BskyFacetLink {
    pub uri: String,
    pub kind: String,
}

pub struct BskyFacetTag {
    pub tag: String,
    pub kind: String,
}

/// What a feature stands for.
pub enum FeatureModel {
    Mention { did: Seq<char>, kind: Seq<char> },
    Link { uri: Seq<char>, kind: Seq<char> },
    Tag { tag: Seq<char>, kind: Seq<char> },
}

/// What a facet stands for.
pub struct FacetModel {
    pub start: int,
    pub end: int,
    pub features: Seq<FeatureModel>,
}

impl View for BskyFacetFeature {
    type V = FeatureModel;

    open spec fn view(&self) -> FeatureModel {
        match self {
            BskyFacetFeature::Mention(m) => FeatureModel::Mention { did: m.did@, kind: m.kind@ },
            BskyFacetFeature::Link(l) => FeatureModel::Link { uri: l.uri@, kind: l.kind@ },
            BskyFacetFeature::Tag(t) => FeatureModel::Tag { tag: t.tag@, kind: t.kind@ },
        }
    }
}

impl View for BskyFacet {
    type V = FacetModel;

    open spec fn view(&self) -> FacetModel {
        FacetModel {
            start: self.index.byte_start as int,
            end: self.index.byte_end as int,
            features: self.features@.map_values(|f: BskyFacetFeature| f@),
        }
    }
}

/// What a list of facets stands for.
pub open spec fn facet_models(v: Seq<BskyFacet>) -> Seq<FacetModel> {
    v.map_values(|f: BskyFacet| f@)
}

pub open spec fn tag_feature(tag: Seq<char>) -> FeatureModel {
    FeatureModel::Tag { tag, kind: "app.bsky.richtext.facet#tag"@ }
}

pub open spec fn mention_feature(did: Seq<char>) -> FeatureModel {
    FeatureModel::Mention { did, kind: "app.bsky.richtext.facet#mention"@ }
}

pub open spec fn link_feature(uri: Seq<char>) -> FeatureModel {
    FeatureModel::Link { uri, kind: "app.bsky.richtext.facet#link"@ }
}

/// The facet with one feature.
pub open spec fn facet(start: int, end: int, feature: FeatureModel) -> FacetModel {
    FacetModel { start, end, features: seq![feature] }
}

/// The facet of a hashtag.
pub fn make_tag_facet(byte_start: usize, byte_end: usize, tag: String) -> (r: BskyFacet)
    ensures
        r@ == facet(byte_start as int, byte_end as int, tag_feature(tag@)),
{
    let f: BskyFacetFeature = BskyFacetFeature::Tag(
        BskyFacetTag { tag, kind: "app.bsky.richtext.facet#tag".to_owned() },
    );
    let r: BskyFacet = BskyFacet {
        index: BskyFacetIndex { byte_end, byte_start },
        features: vec![f],
    };
    assert(r@.features =~= seq![tag_feature(tag@)]);
    r
}

/// The facet of a mention.
pub fn make_mention_facet(byte_start: usize, byte_end: usize, did: String) -> (r: BskyFacet)
    ensures
        r@ == facet(byte_start as int, byte_end as int, mention_feature(did@)),
{
    let f: BskyFacetFeature = BskyFacetFeature::Mention(
        BskyFacetMention { did, kind: "app.bsky.richtext.facet#mention".to_owned() },
    );
    let r: BskyFacet = BskyFacet {
        index: BskyFacetIndex { byte_end, byte_start },
        features: vec![f],
    };
    assert(r@.features =~= seq![mention_feature(did@)]);
    r
}

/// The facet of a link.
pub fn make_link_facet(byte_start: usize, byte_end: usize, uri: String) -> (r: BskyFacet)
    ensures
        r@ == facet(byte_start as int, byte_end as int, link_feature(uri@)),
{
    let f: BskyFacetFeature = BskyFacetFeature::Link(
        BskyFacetLink { uri, kind: "app.bsky.richtext.facet#link".to_owned() },
    );
    let r: BskyFacet = BskyFacet {
        index: BskyFacetIndex { byte_end, byte_start },
        features: vec![f],
    };
    assert(r@.features =~= seq![link_feature(uri@)]);
    r
}

// ---------------------------------------------------------------------------
// Delivery to Bluesky.
// ---------------------------------------------------------------------------
/// What has to be looked up about a token before a post goes to Bluesky.
pub enum BskyLookup {
    Nothing,
    /// The DID of a local user.
    LocalDid(String),
    /// Whether there is a local user of the name, and their DID.
    LocalUser(String),
    /// The DID of a Bluesky handle.
    HandleDid(String),
    /// The bridged account of a Fediverse user, or the user's home address.
    Bridge { user: String, domain: String },
}

/// What a lookup stands for.
pub enum BskyLookupModel {
    Nothing,
    LocalDid(Seq<char>),
    LocalUser(Seq<char>),
    HandleDid(Seq<char>),
    Bridge { user: Seq<char>, domain: Seq<char> },
}

impl View for BskyLookup {
    type V = BskyLookupModel;

    open spec fn view(&self) -> BskyLookupModel {
        match self {
            BskyLookup::Nothing => BskyLookupModel::Nothing,
            BskyLookup::LocalDid(t) => BskyLookupModel::LocalDid(t@),
            BskyLookup::LocalUser(t) => BskyLookupModel::LocalUser(t@),
            BskyLookup::HandleDid(t) => BskyLookupModel::HandleDid(t@),
            BskyLookup::Bridge { user, domain } => BskyLookupModel::Bridge {
                user: user@,
                domain: domain@,
            },
        }
    }
}

/// The local user name in a handle under the local domain.
pub open spec fn local_handle(handle: Seq<char>, local_domain: Seq<char>) -> Option<Seq<char>> {
    text::strip_suffix(handle, "."@ + local_domain)
}

/// What has to be looked up about a token.
pub open spec fn bsky_lookup(token: TokenModel, local_domain: Seq<char>) -> BskyLookupModel {
    match token {
        TokenModel::Acct { user, domain } => if text::same_ignoring_ascii_case(
            domain,
            local_domain,
        ) {
            BskyLookupModel::LocalDid(user)
        } else {
            BskyLookupModel::Bridge { user, domain }
        },
        TokenModel::Handle(h) => match local_handle(h, local_domain) {
            Some(user) => BskyLookupModel::LocalDid(user),
            None => BskyLookupModel::HandleDid(h),
        },
        TokenModel::User(user) => BskyLookupModel::LocalUser(user),
        _ => BskyLookupModel::Nothing,
    }
}

/// What was found about a token.
pub enum BskyAnswer {
    /// Nothing: there is no such user, or the lookup failed.
    Unknown,
    /// The user is there, with a DID or without one.
    Known { did: Option<String> },
    /// The Fediverse user has a bridged account of the given handle.
    Bridged { handle: String, did: Option<String> },
    /// The Fediverse user has none, and is known to be at the given address.
    AtHome { url: String },
}

/// What an answer stands for.
pub enum BskyAnswerModel {
    Unknown,
    Known { did: Option<Seq<char>> },
    Bridged { handle: Seq<char>, did: Option<Seq<char>> },
    AtHome { url: Seq<char> },
}

impl View for BskyAnswer {
    type V = BskyAnswerModel;

    open spec fn view(&self) -> BskyAnswerModel {
        match self {
            BskyAnswer::Unknown => BskyAnswerModel::Unknown,
            BskyAnswer::Known { did } => BskyAnswerModel::Known { did: text::string_view(*did) },
            BskyAnswer::Bridged { handle, did } => BskyAnswerModel::Bridged {
                handle: handle@,
                did: text::string_view(*did),
            },
            BskyAnswer::AtHome { url } => BskyAnswerModel::AtHome { url: url@ },
        }
    }
}

/// The answer to the lookup at index `i`; `Unknown` where there is none.
pub open spec fn bsky_answer(answers: Seq<BskyAnswer>, i: int) -> BskyAnswerModel {
    if 0 <= i < answers.len() {
        answers[i]@
    } else {
        BskyAnswerModel::Unknown
    }
}

/// A piece of the delivered text, and what it links to.
pub struct BskyPieceModel {
    pub text: Seq<char>,
    pub feature: Option<FeatureModel>,
}

pub open spec fn did_of(answer: BskyAnswerModel) -> Option<FeatureModel> {
    match answer {
        BskyAnswerModel::Known { did: Some(did) } => Some(mention_feature(did)),
        BskyAnswerModel::Bridged { did: Some(did), .. } => Some(mention_feature(did)),
        _ => None,
    }
}

/// The address of a remote user's profile page on this server.
pub open spec fn remote_profile_url(
    local_domain: Seq<char>,
    user: Seq<char>,
    domain: Seq<char>,
) -> Seq<char> {
    "https://"@ + local_domain + "/@"@ + user + "@"@ + domain
}

/// What a token becomes in a post to Bluesky. A local user becomes
/// `@user.local_domain`; a Fediverse user their bridged handle, or else a link
/// to where they are at home; all else keeps its text.
pub open spec fn bsky_piece(
    token: TokenModel,
    answer: BskyAnswerModel,
    local_domain: Seq<char>,
) -> BskyPieceModel {
    match token {
        TokenModel::Char(c) => BskyPieceModel { text: seq![c], feature: None },
        TokenModel::Bare(t) => BskyPieceModel { text: t, feature: None },
        TokenModel::Url(u) => BskyPieceModel { text: u, feature: Some(link_feature(u)) },
        TokenModel::Hashtag(t) => BskyPieceModel {
            text: seq!['#'] + t,
            feature: Some(tag_feature(t)),
        },
        TokenModel::Acct { user, domain } => if text::same_ignoring_ascii_case(
            domain,
            local_domain,
        ) {
            BskyPieceModel {
                text: seq!['@'] + user + seq!['.'] + local_domain,
                feature: did_of(answer),
            }
        } else {
            match answer {
                BskyAnswerModel::Bridged { handle, did } => BskyPieceModel {
                    text: seq!['@'] + handle,
                    feature: did_of(answer),
                },
                _ => BskyPieceModel {
                    text: seq!['@'] + user + seq!['@'] + domain,
                    feature: Some(
                        link_feature(
                            match answer {
                                BskyAnswerModel::AtHome { url } => url,
                                _ => remote_profile_url(local_domain, user, domain),
                            },
                        ),
                    ),
                },
            }
        },
        TokenModel::Handle(h) => BskyPieceModel { text: seq!['@'] + h, feature: did_of(answer) },
        TokenModel::User(user) => match answer {
            BskyAnswerModel::Known { .. } => BskyPieceModel {
                text: seq!['@'] + user + seq!['.'] + local_domain,
                feature: did_of(answer),
            },
            _ => BskyPieceModel { text: seq!['@'] + user, feature: None },
        },
    }
}

/// The pieces of a post to Bluesky.
pub open spec fn bsky_pieces(
    ts: Seq<TokenModel>,
    answers: Seq<BskyAnswer>,
    local_domain: Seq<char>,
) -> Seq<BskyPieceModel> {
    ts.map(|i: int, t: TokenModel| bsky_piece(t, bsky_answer(answers, i), local_domain))
}

/// The text that pieces make up.
pub open spec fn bsky_text(ps: Seq<BskyPieceModel>) -> Seq<char>
    decreases ps.len(),
{
    if ps.len() == 0 {
        seq![]
    } else {
        bsky_text(ps.drop_last()) + ps.last().text
    }
}

/// The facets of the pieces that link, each with the bytes of its piece.
pub open spec fn bsky_facets(ps: Seq<BskyPieceModel>) -> Seq<FacetModel>
    decreases ps.len(),
{
    if ps.len() == 0 {
        seq![]
    } else {
        match ps.last().feature {
            Some(f) => bsky_facets(ps.drop_last()).push(
                facet(
                    text::utf8_len(bsky_text(ps.drop_last())) as int,
                    text::utf8_len(bsky_text(ps)) as int,
                    f,
                ),
            ),
            None => bsky_facets(ps.drop_last()),
        }
    }
}

/// What has to be looked up about a token.
pub fn lookup_for_bsky(token: &Token, local_domain: &str) -> (r: BskyLookup)
    ensures
        r@ == bsky_lookup(token@, local_domain@),
{
    match token {
        Token::Acct { user, domain } => {
            if text::same_ignoring_case(
                text::chars_of(domain.as_str()).as_slice(),
                text::chars_of(local_domain).as_slice(),
            ) {
                BskyLookup::LocalDid(user.clone())
            } else {
                BskyLookup::Bridge { user: user.clone(), domain: domain.clone() }
            }
        },
        Token::Handle(h) => match read_local_handle(h.as_str(), local_domain) {
            Some(user) => BskyLookup::LocalDid(user),
            None => BskyLookup::HandleDid(h.clone()),
        },
        Token::User(user) => BskyLookup::LocalUser(user.clone()),
        _ => BskyLookup::Nothing,
    }
}

/// The local user name in a handle under the local domain.
fn read_local_handle(handle: &str, local_domain: &str) -> (r: Option<String>)
    ensures
        text::string_view(r) == local_handle(handle@, local_domain@),
{
    let chars: Vec<char> = text::chars_of(handle);
    let mut suffix: String = ".".to_owned();
    suffix.push_str(local_domain);
    if !text::has_suffix(chars.as_slice(), suffix.as_str()) {
        return None;
    }
    let n: usize = text::chars_of(suffix.as_str()).len();
    Some(text::string_of(slice_subrange(chars.as_slice(), 0, chars.len() - n)))
}

/// What a piece of a post to Bluesky links to.
enum BskyLink {
    Nothing,
    Tag(String),
    Mention(String),
    Link(String),
}

/// The feature that a link gives.
spec fn link_view(l: BskyLink) -> Option<FeatureModel> {
    match l {
        BskyLink::Nothing => None,
        BskyLink::Tag(t) => Some(tag_feature(t@)),
        BskyLink::Mention(d) => Some(mention_feature(d@)),
        BskyLink::Link(u) => Some(link_feature(u@)),
    }
}

/// The mention that an answer's DID gives.
fn mention_link(answer: &BskyAnswer) -> (r: BskyLink)
    ensures
        link_view(r) == did_of(answer@),
{
    match answer {
        BskyAnswer::Known { did: Some(did) } => BskyLink::Mention(did.clone()),
        BskyAnswer::Bridged { did: Some(did), .. } => BskyLink::Mention(did.clone()),
        _ => BskyLink::Nothing,
    }
}

/// What a token becomes in a post to Bluesky.
fn make_bsky_piece(token: &Token, answer: &BskyAnswer, local_domain: &str) -> (r: (
    String,
    BskyLink,
))
    ensures
        r.0@ == bsky_piece(token@, answer@, local_domain@).text,
        link_view(r.1) == bsky_piece(token@, answer@, local_domain@).feature,
{
    proof {
        reveal_strlit("@");
        reveal_strlit("#");
        reveal_strlit(".");
        assert("@"@ =~= seq!['@']);
        assert("#"@ =~= seq!['#']);
        assert("."@ =~= seq!['.']);
    }
    match token {
        Token::Char(c) => {
            let mut out: String = String::new();
            out.push(*c);
            assert(out@ =~= seq![*c]);
            (out, BskyLink::Nothing)
        },
        Token::Bare(t) => (t.clone(), BskyLink::Nothing),
        Token::Url(u) => (u.clone(), BskyLink::Link(u.clone())),
        Token::Hashtag(t) => (text::cat("#", t.as_str()), BskyLink::Tag(t.clone())),
        Token::Acct { user, domain } => {
            if text::same_ignoring_case(
                text::chars_of(domain.as_str()).as_slice(),
                text::chars_of(local_domain).as_slice(),
            ) {
                (text::cat4("@", user.as_str(), ".", local_domain), mention_link(answer))
            } else {
                match answer {
                    BskyAnswer::Bridged { handle, .. } => (
                        text::cat("@", handle.as_str()),
                        mention_link(answer),
                    ),
                    BskyAnswer::AtHome { url } => (
                        text::cat4("@", user.as_str(), "@", domain.as_str()),
                        BskyLink::Link(url.clone()),
                    ),
                    _ => (
                        text::cat4("@", user.as_str(), "@", domain.as_str()),
                        BskyLink::Link(
                            text::cat6(
                                "https://",
                                local_domain,
                                "/@",
                                user.as_str(),
                                "@",
                                domain.as_str(),
                            ),
                        ),
                    ),
                }
            }
        },
        Token::Handle(h) => (text::cat("@", h.as_str()), mention_link(answer)),
        Token::User(user) => match answer {
            BskyAnswer::Known { .. } => (
                text::cat4("@", user.as_str(), ".", local_domain),
                mention_link(answer),
            ),
            _ => (text::cat("@", user.as_str()), BskyLink::Nothing),
        },
    }
}

/// The text and the facets of a post to Bluesky, from what was found about each
/// token of its text.
pub fn convert_mentions_for_bsky(body: &str, local_domain: &str, answers: &Vec<BskyAnswer>) -> (r: (
    String,
    Vec<BskyFacet>,
))
    ensures
        r.0@ == bsky_text(bsky_pieces(tokens(body@), answers@, local_domain@)),
        facet_models(r.1@) == bsky_facets(bsky_pieces(tokens(body@), answers@, local_domain@)),
{
    let ts: Vec<Token> = scan_tokens(body);
    let ghost ps = bsky_pieces(tokens(body@), answers@, local_domain@);
    let mut out: String = String::new();
    let mut facets: Vec<BskyFacet> = Vec::new();
    let mut i: usize = 0;
    let unknown: BskyAnswer = BskyAnswer::Unknown;
    assert(facet_models(facets@) =~= seq![]);
    while i < ts.len()
        invariant
            i <= ts@.len(),
            unknown == BskyAnswer::Unknown,
            token_models(ts@) == tokens(body@),
            ps == bsky_pieces(tokens(body@), answers@, local_domain@),
            out@ == bsky_text(ps.take(i as int)),
            facet_models(facets@) == bsky_facets(ps.take(i as int)),
        decreases ts@.len() - i,
    {
        proof {
            assert(token_models(ts@)[i as int] == ts@[i as int]@);
            assert(ps.take(i + 1).drop_last() =~= ps.take(i as int));
            assert(ps.take(i + 1).last() == bsky_piece(
                ts@[i as int]@,
                bsky_answer(answers@, i as int),
                local_domain@,
            ));
        }
        let answer: &BskyAnswer = if i < answers.len() {
            &answers[i]
        } else {
            &unknown
        };
        let (piece, link): (String, BskyLink) = make_bsky_piece(&ts[i], answer, local_domain);
        let start: usize = out.len();
        out.push_str(piece.as_str());
        let end: usize = out.len();
        push_bsky_facet(&mut facets, start, end, link);
        i += 1;
    }
    assert(ps.take(i as int) =~= ps);
    (out, facets)
}

/// Appends the facet of a link, where there is one.
fn push_bsky_facet(facets: &mut Vec<BskyFacet>, start: usize, end: usize, link: BskyLink)
    ensures
        facet_models(final(facets)@) == match link_view(link) {
            Some(f) => facet_models(old(facets)@).push(facet(start as int, end as int, f)),
            None => facet_models(old(facets)@),
        },
{
    let f: BskyFacet = match link {
        BskyLink::Nothing => {
            return ;
        },
        BskyLink::Tag(t) => make_tag_facet(start, end, t),
        BskyLink::Mention(d) => make_mention_facet(start, end, d),
        BskyLink::Link(u) => make_link_facet(start, end, u),
    };
    facets.push(f);
    assert(facet_models(facets@) =~= facet_models(old(facets)@).push(f@));
}

/// The user name of a Fediverse user's bridged account.
pub open spec fn bridge_user(user: Seq<char>, domain: Seq<char>) -> Seq<char> {
    user + "."@ + domain
}

/// The handle of a Fediverse user's bridged account.
pub open spec fn bridge_handle(user: Seq<char>, domain: Seq<char>) -> Seq<char> {
    bridge_user(user, domain) + ".ap.brid.gy"@
}

/// The user name of a Fediverse user's bridged account.
pub fn bridge_user_name(user: &str, domain: &str) -> (r: String)
    ensures
        r@ == bridge_user(user@, domain@),
{
    text::cat3(user, ".", domain)
}

/// The handle of a Fediverse user's bridged account.
pub fn bridge_handle_of(user: &str, domain: &str) -> (r: String)
    ensures
        r@ == bridge_handle(user@, domain@),
{
    text::cat(bridge_user_name(user, domain).as_str(), ".ap.brid.gy")
}

/// What is known about a Fediverse user who is mentioned in a post to Bluesky,
/// from the DID that the bridged handle resolves to, whether the bridged account
/// is on record, and the address at which the user is known to be at home. The
/// handle is used where it resolves, or where it is on record.
pub open spec fn bridge_answer(
    user: Seq<char>,
    domain: Seq<char>,
    did: Option<Seq<char>>,
    on_record: bool,
    home: Option<Seq<char>>,
) -> BskyAnswerModel {
    if did is Some || on_record {
        BskyAnswerModel::Bridged { handle: bridge_handle(user, domain), did }
    } else {
        match home {
            Some(url) => BskyAnswerModel::AtHome { url },
            None => BskyAnswerModel::Unknown,
        }
    }
}

/// What is known about a Fediverse user who is mentioned in a post to Bluesky.
pub fn resolve_fedi_for_bsky(
    user: &str,
    domain: &str,
    did: Option<String>,
    on_record: bool,
    home: Option<String>,
) -> (r: BskyAnswer)
    ensures
        r@ == bridge_answer(
            user@,
            domain@,
            text::string_view(did),
            on_record,
            text::string_view(home),
        ),
{
    if did.is_some() || on_record {
        BskyAnswer::Bridged { handle: bridge_handle_of(user, domain), did }
    } else {
        match home {
            Some(url) => BskyAnswer::AtHome { url },
            None => BskyAnswer::Unknown,
        }
    }
}

// ---------------------------------------------------------------------------
// Delivery to the Fediverse.
// ---------------------------------------------------------------------------
/// What a span of a delivered text is.
#[derive(Debug, Clone, Copy, PartialEq, Eq, Structural)]
pub enum ApInlineSpanKind {
    /// A mention, which notifies the actor.
    Mention,
    /// A hashtag.
    Hashtag,
    /// A plain link, which is no tag of the note.
    Link,
}

/// A span of a delivered text, in bytes of its UTF-8 encoding.
pub struct ApInlineMention {
    pub byte_start: usize,
    pub byte_end: usize,
    /// The address that the span links to.
    pub href: String,
    /// The text of the span.
    pub name: String,
    pub kind: ApInlineSpanKind,
}

/// What a span stands for.
pub struct SpanModel {
    pub start: int,
    pub end: int,
    pub href: Seq<char>,
    pub name: Seq<char>,
    pub kind: ApInlineSpanKind,
}

impl View for ApInlineMention {
    type V = SpanModel;

    open spec fn view(&self) -> SpanModel {
        SpanModel {
            start: self.byte_start as int,
            end: self.byte_end as int,
            href: self.href@,
            name: self.name@,
            kind: self.kind,
        }
    }
}

/// What a list of spans stands for.
pub open spec fn span_models(v: Seq<ApInlineMention>) -> Seq<SpanModel> {
    v.map_values(|m: ApInlineMention| m@)
}

/// What has to be looked up about a token before a post goes to the Fediverse.
pub enum ApLookup {
    Nothing,
    /// Whether there is a local user of the name.
    LocalUser(String),
    /// The address of the actor of a Fediverse user.
    Href { user: String, domain: String },
}

/// What a lookup stands for.
pub enum ApLookupModel {
    Nothing,
    LocalUser(Seq<char>),
    Href { user: Seq<char>, domain: Seq<char> },
}

impl View for ApLookup {
    type V = ApLookupModel;

    open spec fn view(&self) -> ApLookupModel {
        match self {
            ApLookup::Nothing => ApLookupModel::Nothing,
            ApLookup::LocalUser(t) => ApLookupModel::LocalUser(t@),
            ApLookup::Href { user, domain } => ApLookupModel::Href {
                user: user@,
                domain: domain@,
            },
        }
    }
}

/// What has to be looked up about a token. A handle is looked up as a user of
/// the bridge.
pub open spec fn ap_lookup(token: TokenModel, local_domain: Seq<char>) -> ApLookupModel {
    match token {
        TokenModel::Acct { user, domain } => ApLookupModel::Href { user, domain },
        TokenModel::Handle(h) => match local_handle(h, local_domain) {
            Some(user) => ApLookupModel::LocalUser(user),
            None => ApLookupModel::Href { user: h, domain: "bsky.brid.gy"@ },
        },
        TokenModel::User(user) => ApLookupModel::LocalUser(user),
        _ => ApLookupModel::Nothing,
    }
}

/// What has to be looked up about a token.
pub fn lookup_for_ap(token: &Token, local_domain: &str) -> (r: ApLookup)
    ensures
        r@ == ap_lookup(token@, local_domain@),
{
    match token {
        Token::Acct { user, domain } => ApLookup::Href {
            user: user.clone(),
            domain: domain.clone(),
        },
        Token::Handle(h) => match read_local_handle(h.as_str(), local_domain) {
            Some(user) => ApLookup::LocalUser(user),
            None => ApLookup::Href { user: h.clone(), domain: "bsky.brid.gy".to_owned() },
        },
        Token::User(user) => ApLookup::LocalUser(user.clone()),
        _ => ApLookup::Nothing,
    }
}

/// What was found about a token.
pub enum ApAnswer {
    /// Nothing: there is no such user, or the lookup failed.
    Unknown,
    /// There is such a local user.
    Local,
    /// The actor's address.
    Href(String),
}

/// What an answer stands for.
pub enum ApAnswerModel {
    Unknown,
    Local,
    Href(Seq<char>),
}

impl View for ApAnswer {
    type V = ApAnswerModel;

    open spec fn view(&self) -> ApAnswerModel {
        match self {
            ApAnswer::Unknown => ApAnswerModel::Unknown,
            ApAnswer::Local => ApAnswerModel::Local,
            ApAnswer::Href(h) => ApAnswerModel::Href(h@),
        }
    }
}

/// The answer to the lookup at index `i`; `Unknown` where there is none.
pub open spec fn ap_answer(answers: Seq<ApAnswer>, i: int) -> ApAnswerModel {
    if 0 <= i < answers.len() {
        answers[i]@
    } else {
        ApAnswerModel::Unknown
    }
}

/// What a piece of a delivered text links to.
pub struct ApLinkModel {
    pub href: Seq<char>,
    pub kind: ApInlineSpanKind,
}

/// A piece of the delivered text, and what it links to.
pub struct ApPieceModel {
    pub text: Seq<char>,
    pub link: Option<ApLinkModel>,
}

pub open spec fn linked(t: Seq<char>, href: Seq<char>, kind: ApInlineSpanKind) -> ApPieceModel {
    ApPieceModel { text: t, link: Some(ApLinkModel { href, kind }) }
}

pub open spec fn unlinked(t: Seq<char>) -> ApPieceModel {
    ApPieceModel { text: t, link: None }
}

/// `@user@domain`.
pub open spec fn acct(user: Seq<char>, domain: Seq<char>) -> Seq<char> {
    seq!['@'] + user + seq!['@'] + domain
}

/// The address of a local user's actor.
pub open spec fn local_actor_url(local_domain: Seq<char>, user: Seq<char>) -> Seq<char> {
    "https://"@ + local_domain + "/users/"@ + user
}

/// What a token becomes in a post to the Fediverse. A local user becomes
/// `@user@local_domain`; a handle the bridge's user, or else a plain link to the
/// profile on Bluesky; all else keeps its text.
pub open spec fn ap_piece(token: TokenModel, answer: ApAnswerModel, local_domain: Seq<char>) -> ApPieceModel {
    match token {
        TokenModel::Char(c) => unlinked(seq![c]),
        TokenModel::Bare(t) => unlinked(t),
        TokenModel::Url(u) => linked(u, u, ApInlineSpanKind::Link),
        TokenModel::Hashtag(t) => linked(
            seq!['#'] + t,
            "https://"@ + local_domain + "/tags/"@ + text::lowercase(t),
            ApInlineSpanKind::Hashtag,
        ),
        TokenModel::Acct { user, domain } => match answer {
            ApAnswerModel::Href(href) => linked(
                acct(user, domain),
                href,
                ApInlineSpanKind::Mention,
            ),
            _ => unlinked(acct(user, domain)),
        },
        TokenModel::Handle(h) => match local_handle(h, local_domain) {
            Some(user) => match answer {
                ApAnswerModel::Local => linked(
                    acct(user, local_domain),
                    local_actor_url(local_domain, user),
                    ApInlineSpanKind::Mention,
                ),
                _ => unlinked(seq!['@'] + h),
            },
            None => match answer {
                ApAnswerModel::Href(href) => linked(
                    acct(h, "bsky.brid.gy"@),
                    href,
                    ApInlineSpanKind::Mention,
                ),
                _ => linked(h, "https://bsky.app/profile/"@ + h, ApInlineSpanKind::Link),
            },
        },
        TokenModel::User(user) => match answer {
            ApAnswerModel::Local => linked(
                acct(user, local_domain),
                local_actor_url(local_domain, user),
                ApInlineSpanKind::Mention,
            ),
            _ => unlinked(seq!['@'] + user),
        },
    }
}

/// The pieces of a post to the Fediverse.
pub open spec fn ap_pieces(
    ts: Seq<TokenModel>,
    answers: Seq<ApAnswer>,
    local_domain: Seq<char>,
) -> Seq<ApPieceModel> {
    ts.map(|i: int, t: TokenModel| ap_piece(t, ap_answer(answers, i), local_domain))
}

/// The text that pieces make up.
pub open spec fn ap_text(ps: Seq<ApPieceModel>) -> Seq<char>
    decreases ps.len(),
{
    if ps.len() == 0 {
        seq![]
    } else {
        ap_text(ps.drop_last()) + ps.last().text
    }
}

/// The spans of the pieces that link, each with the bytes of its piece.
pub open spec fn ap_spans(ps: Seq<ApPieceModel>) -> Seq<SpanModel>
    decreases ps.len(),
{
    if ps.len() == 0 {
        seq![]
    } else {
        match ps.last().link {
            Some(l) => ap_spans(ps.drop_last()).push(
                SpanModel {
                    start: text::utf8_len(ap_text(ps.drop_last())) as int,
                    end: text::utf8_len(ap_text(ps)) as int,
                    href: l.href,
                    name: ps.last().text,
                    kind: l.kind,
                },
            ),
            None => ap_spans(ps.drop_last()),
        }
    }
}

/// What a token becomes in a post to the Fediverse.
fn make_ap_piece(token: &Token, answer: &ApAnswer, local_domain: &str) -> (r: (
    String,
    Option<(String, ApInlineSpanKind)>,
))
    ensures
        r.0@ == ap_piece(token@, answer@, local_domain@).text,
        (match r.1 {
            Some(l) => Some(ApLinkModel { href: l.0@, kind: l.1 }),
            None => None,
        }) == ap_piece(token@, answer@, local_domain@).link,
{
    proof {
        reveal_strlit("@");
        reveal_strlit("#");
        assert("@"@ =~= seq!['@']);
        assert("#"@ =~= seq!['#']);
    }
    match token {
        Token::Char(c) => {
            let mut out: String = String::new();
            out.push(*c);
            assert(out@ =~= seq![*c]);
            (out, None)
        },
        Token::Bare(t) => (t.clone(), None),
        Token::Url(u) => (u.clone(), Some((u.clone(), ApInlineSpanKind::Link))),
        Token::Hashtag(t) => {
            let low: String = text::to_lowercase(t.as_str());
            (
                text::cat("#", t.as_str()),
                Some(
                    (
                        text::cat4("https://", local_domain, "/tags/", low.as_str()),
                        ApInlineSpanKind::Hashtag,
                    ),
                ),
            )
        },
        Token::Acct { user, domain } => {
            let name: String = text::cat4("@", user.as_str(), "@", domain.as_str());
            match answer {
                ApAnswer::Href(href) => (name, Some((href.clone(), ApInlineSpanKind::Mention))),
                _ => (name, None),
            }
        },
        Token::Handle(h) => match read_local_handle(h.as_str(), local_domain) {
            Some(user) => match answer {
                ApAnswer::Local => local_mention(user.as_str(), local_domain),
                _ => (text::cat("@", h.as_str()), None),
            },
            None => match answer {
                ApAnswer::Href(href) => (
                    text::cat4("@", h.as_str(), "@", "bsky.brid.gy"),
                    Some((href.clone(), ApInlineSpanKind::Mention)),
                ),
                _ => (
                    h.clone(),
                    Some(
                        (
                            text::cat("https://bsky.app/profile/", h.as_str()),
                            ApInlineSpanKind::Link,
                        ),
                    ),
                ),
            },
        },
        Token::User(user) => match answer {
            ApAnswer::Local => local_mention(user.as_str(), local_domain),
            _ => (text::cat("@", user.as_str()), None),
        },
    }
}

/// The mention of a local user.
fn local_mention(user: &str, local_domain: &str) -> (r: (
    String,
    Option<(String, ApInlineSpanKind)>,
))
    ensures
        r.0@ == acct(user@, local_domain@),
        r.1 matches Some(l) && l.0@ == local_actor_url(local_domain@, user@) && l.1
            == ApInlineSpanKind::Mention,
{
    proof {
        reveal_strlit("@");
        assert("@"@ =~= seq!['@']);
    }
    (
        text::cat4("@", user, "@", local_domain),
        Some(
            (
                text::cat4("https://", local_domain, "/users/", user),
                ApInlineSpanKind::Mention,
            ),
        ),
    )
}

/// The text and the spans of a post to the Fediverse, from what was found about
/// each token of its text.
pub fn convert_mentions_for_ap(body: &str, local_domain: &str, answers: &Vec<ApAnswer>) -> (r: (
    String,
    Vec<ApInlineMention>,
))
    ensures
        r.0@ == ap_text(ap_pieces(tokens(body@), answers@, local_domain@)),
        span_models(r.1@) == ap_spans(ap_pieces(tokens(body@), answers@, local_domain@)),
{
    let ts: Vec<Token> = scan_tokens(body);
    let ghost ps = ap_pieces(tokens(body@), answers@, local_domain@);
    let mut out: String = String::new();
    let mut spans: Vec<ApInlineMention> = Vec::new();
    let mut i: usize = 0;
    let unknown: ApAnswer = ApAnswer::Unknown;
    assert(span_models(spans@) =~= seq![]);
    while i < ts.len()
        invariant
            i <= ts@.len(),
            unknown == ApAnswer::Unknown,
            token_models(ts@) == tokens(body@),
            ps == ap_pieces(tokens(body@), answers@, local_domain@),
            out@ == ap_text(ps.take(i as int)),
            span_models(spans@) == ap_spans(ps.take(i as int)),
        decreases ts@.len() - i,
    {
        proof {
            assert(token_models(ts@)[i as int] == ts@[i as int]@);
            assert(ps.take(i + 1).drop_last() =~= ps.take(i as int));
            assert(ps.take(i + 1).last() == ap_piece(
                ts@[i as int]@,
                ap_answer(answers@, i as int),
                local_domain@,
            ));
        }
        let answer: &ApAnswer = if i < answers.len() {
            &answers[i]
        } else {
            &unknown
        };
        let (piece, link): (String, Option<(String, ApInlineSpanKind)>) = make_ap_piece(
            &ts[i],
            answer,
            local_domain,
        );
        let start: usize = out.len();
        out.push_str(piece.as_str());
        let end: usize = out.len();
        push_span(&mut spans, start, end, piece, link);
        i += 1;
    }
    assert(ps.take(i as int) =~= ps);
    (out, spans)
}

/// Appends the span of a piece, where it links.
fn push_span(
    spans: &mut Vec<ApInlineMention>,
    start: usize,
    end: usize,
    name: String,
    link: Option<(String, ApInlineSpanKind)>,
)
    ensures
        span_models(final(spans)@) == match link {
            Some(l) => span_models(old(spans)@).push(
                SpanModel {
                    start: start as int,
                    end: end as int,
                    href: l.0@,
                    name: name@,
                    kind: l.1,
                },
            ),
            None => span_models(old(spans)@),
        },
{
    match link {
        Some((href, kind)) => {
            let m: ApInlineMention = ApInlineMention {
                byte_start: start,
                byte_end: end,
                href,
                name,
                kind,
            };
            spans.push(m);
            assert(span_models(spans@) =~= span_models(old(spans)@).push(m@));
        },
        None => {},
    }
}

/// The tag of a note that a span gives.
pub open spec fn span_tag(m: SpanModel) -> Option<JsonModel> {
    match m.kind {
        ApInlineSpanKind::Mention => Some(tag_object("Mention"@, m.href, m.name)),
        ApInlineSpanKind::Hashtag => Some(tag_object("Hashtag"@, m.href, m.name)),
        ApInlineSpanKind::Link => None,
    }
}

pub open spec fn tag_object(kind: Seq<char>, href: Seq<char>, name: Seq<char>) -> JsonModel {
    JsonModel::Obj(
        seq![
            json::member_of("type"@, JsonModel::Str(kind)),
            json::member_of("href"@, JsonModel::Str(href)),
            json::member_of("name"@, JsonModel::Str(name)),
        ],
    )
}

/// The tags of a note: one for each mention and each hashtag, none for links.
pub open spec fn span_tags(ms: Seq<SpanModel>) -> Seq<JsonModel>
    decreases ms.len(),
{
    if ms.len() == 0 {
        seq![]
    } else {
        match span_tag(ms.last()) {
            Some(t) => span_tags(ms.drop_last()).push(t),
            None => span_tags(ms.drop_last()),
        }
    }
}

/// The tag of a note with the given type, address and name.
fn make_tag_object(kind: &str, href: &str, name: &str) -> (r: Json)
    ensures
        r@ == tag_object(kind@, href@, name@),
{
    let ms: Vec<json::Member> = vec![
        json::member("type", json::text_json(kind)),
        json::member("href", json::text_json(href)),
        json::member("name", json::text_json(name)),
    ];
    assert(json::member_models(ms@) =~= tag_object(kind@, href@, name@)->Obj_0);
    json::object(ms)
}

/// The tags of a note.
pub fn ap_inline_mentions_to_tag_json(mentions: &[ApInlineMention]) -> (r: Vec<Json>)
    ensures
        json::models(r@) == span_tags(span_models(mentions@)),
{
    let ghost ms = span_models(mentions@);
    let mut out: Vec<Json> = Vec::new();
    let mut i: usize = 0;
    assert(json::models(out@) =~= seq![]);
    while i < mentions.len()
        invariant
            i <= mentions@.len(),
            ms == span_models(mentions@),
            json::models(out@) == span_tags(ms.take(i as int)),
        decreases mentions@.len() - i,
    {
        let m: &ApInlineMention = &mentions[i];
        proof {
            assert(ms.take(i + 1).drop_last() =~= ms.take(i as int));
            assert(ms.take(i + 1).last() == m@);
        }
        let ghost before = json::models(out@);
        match m.kind {
            ApInlineSpanKind::Mention => {
                out.push(make_tag_object("Mention", m.href.as_str(), m.name.as_str()));
                assert(json::models(out@) =~= before.push(tag_object("Mention"@, m.href@, m.name@)));
            },
            ApInlineSpanKind::Hashtag => {
                out.push(make_tag_object("Hashtag", m.href.as_str(), m.name.as_str()));
                assert(json::models(out@) =~= before.push(tag_object("Hashtag"@, m.href@, m.name@)));
            },
            ApInlineSpanKind::Link => {},
        }
        i += 1;
    }
    assert(ms.take(i as int) =~= ms);
    out
}

// ---------------------------------------------------------------------------
// WebFinger.
// ---------------------------------------------------------------------------
/// The address at which a domain says what it knows about a user.
pub open spec fn webfinger_url(user: Seq<char>, domain: Seq<char>) -> Seq<char> {
    "https://"@ + domain + "/.well-known/webfinger?resource=acct:"@ + user + "@"@ + domain
}

/// The address at which a domain says what it knows about a user.
pub fn webfinger_url_of(user: &str, domain: &str) -> (r: String)
    ensures
        r@ == webfinger_url(user@, domain@),
{
    text::cat6("https://", domain, "/.well-known/webfinger?resource=acct:", user, "@", domain)
}

/// The address of the actor that a link of a WebFinger answer gives: it must be
/// the user itself, in a JSON form where a form is named.
pub open spec fn self_link(l: JsonModel) -> Option<Seq<char>> {
    let type_ok = match l.text_at("type"@) {
        Some(t) => text::contains_text(t, "json"@),
        None => true,
    };
    if l.text_at("rel"@) == Some("self"@) && type_ok {
        l.text_at("href"@)
    } else {
        None
    }
}

/// The first address that the links from index `i` on give.
pub open spec fn first_self_link(ls: Seq<JsonModel>, i: int) -> Option<Seq<char>>
    decreases ls.len() - i,
{
    if i < 0 || i >= ls.len() {
        None
    } else if self_link(ls[i]) is Some {
        self_link(ls[i])
    } else {
        first_self_link(ls, i + 1)
    }
}

/// The address of the actor that a WebFinger answer gives.
pub fn webfinger_actor_href(body: &Json) -> (r: Option<String>)
    ensures
        text::string_view(r) == first_self_link(body@.at("links"@).items(), 0),
{
    let links: &Vec<Json> = match body.arr_at("links") {
        Some(v) => v,
        None => {
            return None;
        },
    };
    let ghost ls = json::models(links@);
    let mut i: usize = 0;
    while i < links.len()
        invariant
            i <= links@.len(),
            ls == json::models(links@),
            body@.at("links"@) == JsonModel::Arr(ls),
            first_self_link(ls, 0) == first_self_link(ls, i as int),
        decreases links@.len() - i,
    {
        let l: &Json = &links[i];
        assert(ls[i as int] == l@);
        let type_ok: bool = match l.text_at("type") {
            Some(t) => text::has_text(
                text::chars_of(t).as_slice(),
                text::chars_of("json").as_slice(),
            ),
            None => true,
        };
        if l.text_is("rel", "self") && type_ok {
            match l.text_at("href") {
                Some(h) => {
                    return Some(h.to_owned());
                },
                None => {},
            }
        }
        i += 1;
    }
    None
}

/// The address of an actor: the one on record, else the one that WebFinger gave.
pub fn resolve_fedi_mention_href(on_record: Option<String>, found: Option<String>) -> (r: Option<
    String,
>)
    ensures
        r == (if on_record is Some {
            on_record
        } else {
            found
        }),
{
    if on_record.is_some() {
        on_record
    } else {
        found
    }
}

// ---------------------------------------------------------------------------
// Laws.
// ---------------------------------------------------------------------------
/// The text that a token was read from.
pub open spec fn source(t: TokenModel) -> Seq<char> {
    match t {
        TokenModel::Char(c) => seq![c],
        TokenModel::Bare(b) => b,
        TokenModel::Url(u) => u,
        TokenModel::Hashtag(h) => seq!['#'] + h,
        TokenModel::Acct { user, domain } => acct(user, domain),
        TokenModel::Handle(h) => seq!['@'] + h,
        TokenModel::User(u) => seq!['@'] + u,
    }
}

/// The text that tokens were read from.
pub open spec fn sources(ts: Seq<TokenModel>) -> Seq<char>
    decreases ts.len(),
{
    if ts.len() == 0 {
        seq![]
    } else {
        source(ts[0]) + sources(ts.drop_first())
    }
}

proof fn lemma_token_source(s: Seq<char>, i: int)
    requires
        0 <= i < s.len(),
    ensures
        source(token_at(s, i).0) == s.subrange(i, token_at(s, i).1),
{
    lemma_token_bounds(s, i);
    let (t, next) = token_at(s, i);
    text::lemma_next_index(s, not_tag_char(), i + 1);
    text::lemma_next_index(s, not_ident_char(), i + 1);
    let end: int = text::next_index(s, not_ident_char(), i + 1);
    if end < s.len() {
        text::lemma_next_index(s, not_domain_char(), end + 1);
    }
    assert(source(t) =~= s.subrange(i, next));
}

proof fn lemma_sources(s: Seq<char>, i: int)
    requires
        0 <= i <= s.len(),
    ensures
        sources(tokens_from(s, i)) == s.subrange(i, s.len() as int),
    decreases s.len() - i,
{
    if i < s.len() {
        lemma_token_bounds(s, i);
        lemma_token_source(s, i);
        let (t, next) = token_at(s, i);
        lemma_sources(s, next);
        let ts = tokens_from(s, i);
        assert(ts.drop_first() =~= tokens_from(s, next));
        assert(s.subrange(i, next) + s.subrange(next, s.len() as int) =~= s.subrange(
            i,
            s.len() as int,
        ));
    }
}

/// Cutting a text into tokens loses nothing: the tokens make up the text.
pub proof fn law_scan_is_lossless(s: Seq<char>)
    ensures
        sources(tokens(s)) == s,
{
    lemma_sources(s, 0);
    assert(s.subrange(0, s.len() as int) =~= s);
}

proof fn lemma_encode_add(a: Seq<char>, b: Seq<char>)
    ensures
        vstd::utf8::encode_utf8(a + b) == vstd::utf8::encode_utf8(a) + vstd::utf8::encode_utf8(b),
    decreases a.len(),
{
    if a.len() == 0 {
        assert(a + b =~= b);
        assert(vstd::utf8::encode_utf8(a) + vstd::utf8::encode_utf8(b) =~= vstd::utf8::encode_utf8(
            b,
        ));
    } else {
        assert((a + b).drop_first() =~= a.drop_first() + b);
        lemma_encode_add(a.drop_first(), b);
        let x = vstd::utf8::encode_scalar(a[0] as u32);
        let y = vstd::utf8::encode_utf8(a.drop_first());
        let z = vstd::utf8::encode_utf8(b);
        assert(x + (y + z) =~= (x + y) + z);
    }
}

/// The facet covers the bytes of a piece that links to the facet's feature.
pub open spec fn covers_piece(ps: Seq<BskyPieceModel>, f: FacetModel) -> bool {
    exists|j: int| #[trigger] covers(ps, f, j)
}

pub open spec fn covers(ps: Seq<BskyPieceModel>, f: FacetModel, j: int) -> bool {
    let bytes = vstd::utf8::encode_utf8(bsky_text(ps));
    &&& 0 <= j < ps.len()
    &&& ps[j].feature matches Some(feature) && f.features == seq![feature]
    &&& f.start == vstd::utf8::encode_utf8(bsky_text(ps.take(j))).len()
    &&& 0 <= f.start <= f.end <= bytes.len()
    &&& bytes.subrange(f.start, f.end) == vstd::utf8::encode_utf8(ps[j].text)
}

/// The facets of a post to Bluesky stand in the order of the text, do not
/// overlap, and each covers exactly the bytes of the piece that it is about.
pub proof fn law_facets_delimit_their_pieces(ps: Seq<BskyPieceModel>)
    ensures
        forall|k: int|
            0 <= k < bsky_facets(ps).len() ==> covers_piece(ps, #[trigger] bsky_facets(ps)[k]),
        forall|k: int, m: int|
            0 <= k < m < bsky_facets(ps).len() ==> (#[trigger] bsky_facets(ps)[k]).end <= (
            #[trigger] bsky_facets(ps)[m]).start,
    decreases ps.len(),
{
    if ps.len() > 0 {
        let front = ps.drop_last();
        law_facets_delimit_their_pieces(front);
        let fs = bsky_facets(ps);
        let old_fs = bsky_facets(front);
        let a = bsky_text(front);
        let b = ps.last().text;
        lemma_encode_add(a, b);
        let bytes = vstd::utf8::encode_utf8(bsky_text(ps));
        let old_bytes = vstd::utf8::encode_utf8(a);
        assert forall|k: int| 0 <= k < old_fs.len() implies covers_piece(ps, #[trigger] old_fs[k])
            && old_fs[k].end <= old_bytes.len() by {
            let f = old_fs[k];
            assert(covers_piece(front, f));
            let j: int = choose|j: int| covers(front, f, j);
            assert(covers(front, f, j));
            assert(bytes.subrange(f.start, f.end) =~= old_bytes.subrange(f.start, f.end));
            assert(ps.take(j) =~= front.take(j));
            assert(covers(ps, f, j));
        }
        if ps.last().feature is Some {
            let f = fs.last();
            assert(ps.take(ps.len() - 1) =~= front);
            assert(bytes.subrange(f.start, f.end) =~= vstd::utf8::encode_utf8(b));
            assert(covers(ps, f, ps.len() - 1));
        }
        assert forall|k: int| 0 <= k < fs.len() implies covers_piece(ps, #[trigger] fs[k]) by {
            if k < old_fs.len() {
                assert(fs[k] == old_fs[k]);
            }
        }
        assert forall|k: int, m: int| 0 <= k < m < fs.len() implies (#[trigger] fs[k]).end <= (
        #[trigger] fs[m]).start by {
            assert(fs[k] == old_fs[k]);
            if m < old_fs.len() {
                assert(fs[m] == old_fs[m]);
            }
        }
    }
}

/// A text can stand under a feature: a hashtag under its tag, something that
/// begins with `@` under a mention, and anything but nothing under a link.
pub open spec fn suits(t: Seq<char>, feature: FeatureModel) -> bool {
    match feature {
        FeatureModel::Tag { tag, .. } => t == seq!['#'] + tag,
        FeatureModel::Mention { .. } => t.len() > 0 && t[0] == '@',
        FeatureModel::Link { .. } => t.len() > 0,
    }
}

/// The facet covers a piece, which is not empty and suits the facet's feature.
pub open spec fn names_piece(ps: Seq<BskyPieceModel>, f: FacetModel, j: int) -> bool {
    covers(ps, f, j) && f.start < f.end && suits(ps[j].text, f.features[0])
}

pub open spec fn names_some_piece(ps: Seq<BskyPieceModel>, f: FacetModel) -> bool {
    exists|j: int| #[trigger] names_piece(ps, f, j)
}

proof fn lemma_tokens_not_empty(s: Seq<char>, i: int)
    requires
        0 <= i <= s.len(),
    ensures
        forall|k: int|
            0 <= k < tokens_from(s, i).len() ==> source(#[trigger] tokens_from(s, i)[k]).len() > 0,
    decreases s.len() - i,
{
    if i < s.len() {
        lemma_token_bounds(s, i);
        lemma_token_source(s, i);
        let (t, next) = token_at(s, i);
        lemma_tokens_not_empty(s, next);
        let ts = tokens_from(s, i);
        let rest = tokens_from(s, next);
        assert forall|k: int| 0 <= k < ts.len() implies source(#[trigger] ts[k]).len() > 0 by {
            if k > 0 {
                assert(ts[k] == rest[k - 1]);
            }
        }
    }
}

proof fn lemma_handles_not_empty(s: Seq<char>, i: int)
    requires
        0 <= i <= s.len(),
    ensures
        forall|k: int|
            0 <= k < tokens_from(s, i).len() ==> (#[trigger] tokens_from(s, i)[k] matches TokenModel::Handle(
                h,
            ) ==> h.len() > 0),
    decreases s.len() - i,
{
    if i < s.len() {
        lemma_token_bounds(s, i);
        let (t, next) = token_at(s, i);
        lemma_handles_not_empty(s, next);
        text::lemma_next_index(s, not_ident_char(), i + 1);
        let ts = tokens_from(s, i);
        let rest = tokens_from(s, next);
        assert forall|k: int| 0 <= k < ts.len() implies (#[trigger] ts[k] matches TokenModel::Handle(
            h,
        ) ==> h.len() > 0) by {
            if k > 0 {
                assert(ts[k] == rest[k - 1]);
            }
        }
    }
}

/// The facets of a post to Bluesky each begin and end between characters, cover
/// at least one, and have one feature: a tag covers `#` and the tag, a mention
/// something that begins with `@`.
pub proof fn law_facets_name_what_they_cover(
    s: Seq<char>,
    answers: Seq<BskyAnswer>,
    local_domain: Seq<char>,
)
    ensures
        ({
            let ps = bsky_pieces(tokens(s), answers, local_domain);
            forall|k: int|
                0 <= k < bsky_facets(ps).len() ==> names_some_piece(
                    ps,
                    #[trigger] bsky_facets(ps)[k],
                )
        }),
{
    let ts = tokens(s);
    let ps = bsky_pieces(ts, answers, local_domain);
    let fs = bsky_facets(ps);
    law_facets_delimit_their_pieces(ps);
    lemma_tokens_not_empty(s, 0);
    assert forall|k: int| 0 <= k < fs.len() implies names_some_piece(ps, #[trigger] fs[k]) by {
        let f = fs[k];
        assert(covers_piece(ps, f));
        let j: int = choose|j: int| covers(ps, f, j);
        assert(covers(ps, f, j));
        let t = ps[j].text;
        assert(ps[j] == bsky_piece(ts[j], bsky_answer(answers, j), local_domain));
        assert(source(ts[j]).len() > 0);
        assert(suits(t, ps[j].feature->0));
        assert(t.len() > 0);
        assert(vstd::utf8::encode_utf8(t).len() == vstd::utf8::encode_scalar(t[0] as u32).len()
            + vstd::utf8::encode_utf8(t.drop_first()).len());
        assert(f.end - f.start == vstd::utf8::encode_utf8(t).len());
        assert(names_piece(ps, f, j));
    }
}

/// A local user is the same under all three spellings: by the bare name, with the
/// local domain, and by the handle. The same name is looked up, and the text and
/// the feature are the same.
pub proof fn law_spellings_of_a_local_user_agree(
    user: Seq<char>,
    did: Option<Seq<char>>,
    local_domain: Seq<char>,
)
    ensures
        ({
            let answer = BskyAnswerModel::Known { did };
            let plain = TokenModel::User(user);
            let whole = TokenModel::Acct { user, domain: local_domain };
            let handle = TokenModel::Handle(user + "."@ + local_domain);
            &&& bsky_lookup(plain, local_domain) == BskyLookupModel::LocalUser(user)
            &&& bsky_lookup(whole, local_domain) == BskyLookupModel::LocalDid(user)
            &&& bsky_lookup(handle, local_domain) == BskyLookupModel::LocalDid(user)
            &&& bsky_piece(whole, answer, local_domain) == bsky_piece(plain, answer, local_domain)
            &&& bsky_piece(handle, answer, local_domain) == bsky_piece(plain, answer, local_domain)
            &&& bsky_piece(plain, answer, local_domain) == (BskyPieceModel {
                text: seq!['@'] + user + seq!['.'] + local_domain,
                feature: match did {
                    Some(d) => Some(mention_feature(d)),
                    None => None,
                },
            })
        }),
{
    reveal_strlit(".");
    assert("."@ =~= seq!['.']);
    let h = user + "."@ + local_domain;
    let suffix = "."@ + local_domain;
    assert(h =~= user + suffix);
    assert(h.subrange(h.len() - suffix.len(), h.len() as int) =~= suffix);
    assert(h.subrange(0, h.len() - suffix.len()) =~= user);
    assert(seq!['@'] + h =~= seq!['@'] + user + seq!['.'] + local_domain);
}

/// The spans of a post to the Fediverse stand in the order of the text, do not
/// overlap, and the name of each is the text at its bytes.
pub proof fn law_spans_delimit_their_names(ps: Seq<ApPieceModel>)
    ensures
        forall|k: int|
            #![trigger ap_spans(ps)[k]]
            0 <= k < ap_spans(ps).len() ==> {
                let m = ap_spans(ps)[k];
                let bytes = vstd::utf8::encode_utf8(ap_text(ps));
                0 <= m.start <= m.end <= bytes.len() && bytes.subrange(m.start, m.end)
                    == vstd::utf8::encode_utf8(m.name)
            },
        forall|k: int, n: int|
            0 <= k < n < ap_spans(ps).len() ==> (#[trigger] ap_spans(ps)[k]).end <= (
            #[trigger] ap_spans(ps)[n]).start,
    decreases ps.len(),
{
    if ps.len() > 0 {
        let front = ps.drop_last();
        law_spans_delimit_their_names(front);
        let ms = ap_spans(ps);
        let old_ms = ap_spans(front);
        let a = ap_text(front);
        let b = ps.last().text;
        lemma_encode_add(a, b);
        let bytes = vstd::utf8::encode_utf8(ap_text(ps));
        let old_bytes = vstd::utf8::encode_utf8(a);
        assert forall|k: int| 0 <= k < ms.len() implies 0 <= (#[trigger] ms[k]).start <= ms[k].end
            <= bytes.len() && bytes.subrange(ms[k].start, ms[k].end) == vstd::utf8::encode_utf8(
            ms[k].name,
        ) by {
            if k < old_ms.len() {
                assert(ms[k] == old_ms[k]);
                assert(bytes.subrange(ms[k].start, ms[k].end) =~= old_bytes.subrange(
                    ms[k].start,
                    ms[k].end,
                ));
            } else {
                assert(bytes.subrange(ms[k].start, ms[k].end) =~= vstd::utf8::encode_utf8(b));
            }
        }
        assert forall|k: int, n: int| 0 <= k < n < ms.len() implies (#[trigger] ms[k]).end <= (
        #[trigger] ms[n]).start by {
            assert(ms[k] == old_ms[k]);
            if n < old_ms.len() {
                assert(ms[n] == old_ms[n]);
            }
        }
    }
}

/// The text is `@user@domain` for some user and domain.
pub open spec fn is_acct(t: Seq<char>) -> bool {
    exists|user: Seq<char>, domain: Seq<char>| t == #[trigger] acct(user, domain)
}

/// A text can be the name of a span: `#` and the tag for a hashtag,
/// `@user@domain` for a mention, and anything but nothing for a link.
pub open spec fn reads_as(t: Seq<char>, kind: ApInlineSpanKind) -> bool {
    match kind {
        ApInlineSpanKind::Hashtag => t.len() > 0 && t[0] == '#',
        ApInlineSpanKind::Mention => is_acct(t),
        ApInlineSpanKind::Link => t.len() > 0,
    }
}

proof fn lemma_spans_read(ps: Seq<ApPieceModel>)
    requires
        forall|j: int|
            0 <= j < ps.len() ==> ((#[trigger] ps[j]).link matches Some(l) ==> reads_as(
                ps[j].text,
                l.kind,
            )),
    ensures
        forall|k: int|
            0 <= k < ap_spans(ps).len() ==> reads_as(
                (#[trigger] ap_spans(ps)[k]).name,
                ap_spans(ps)[k].kind,
            ),
    decreases ps.len(),
{
    if ps.len() > 0 {
        let front = ps.drop_last();
        assert forall|j: int| 0 <= j < front.len() implies ((#[trigger] front[j]).link matches Some(
            l,
        ) ==> reads_as(front[j].text, l.kind)) by {
            assert(front[j] == ps[j]);
        }
        lemma_spans_read(front);
        assert(ps.last() == ps[ps.len() - 1]);
        let ms = ap_spans(ps);
        let old_ms = ap_spans(front);
        assert forall|k: int| 0 <= k < ms.len() implies reads_as((#[trigger] ms[k]).name, ms[k].kind) by {
            if k < old_ms.len() {
                assert(ms[k] == old_ms[k]);
            }
        }
    }
}

/// The spans of a post to the Fediverse each cover at least one byte, and the name
/// of each is not empty: a hashtag's starts with `#`, and a mention's reads
/// `@user@domain`.
pub proof fn law_spans_read_as_what_they_are(
    s: Seq<char>,
    answers: Seq<ApAnswer>,
    local_domain: Seq<char>,
)
    ensures
        ({
            let ps = ap_pieces(tokens(s), answers, local_domain);
            forall|k: int|
                #![trigger ap_spans(ps)[k]]
                0 <= k < ap_spans(ps).len() ==> {
                    let m = ap_spans(ps)[k];
                    m.start < m.end && m.name.len() > 0 && reads_as(m.name, m.kind)
                }
        }),
{
    let ts = tokens(s);
    let ps = ap_pieces(ts, answers, local_domain);
    let ms = ap_spans(ps);
    lemma_tokens_not_empty(s, 0);
    lemma_handles_not_empty(s, 0);
    assert forall|j: int| 0 <= j < ps.len() implies ((#[trigger] ps[j]).link matches Some(l)
        ==> reads_as(ps[j].text, l.kind)) by {
        assert(ps[j] == ap_piece(ts[j], ap_answer(answers, j), local_domain));
        assert(source(ts[j]).len() > 0);
        assert(ts[j] matches TokenModel::Handle(h) ==> h.len() > 0);
        match ts[j] {
            TokenModel::Acct { user, domain } => {
                assert(is_acct(acct(user, domain)));
            },
            TokenModel::Handle(h) => {
                assert(is_acct(acct(h, "bsky.brid.gy"@)));
                if let Some(user) = local_handle(h, local_domain) {
                    assert(is_acct(acct(user, local_domain)));
                }
            },
            TokenModel::User(user) => {
                assert(is_acct(acct(user, local_domain)));
            },
            _ => {},
        }
    }
    lemma_spans_read(ps);
    law_spans_delimit_their_names(ps);
    assert forall|k: int| #![trigger ms[k]] 0 <= k < ms.len() implies ms[k].start < ms[k].end
        && ms[k].name.len() > 0 && reads_as(ms[k].name, ms[k].kind) by {
        let t = ms[k].name;
        assert(reads_as(t, ms[k].kind));
        if ms[k].kind is Mention {
            let (u, d) = choose|u: Seq<char>, d: Seq<char>| t == #[trigger] acct(u, d);
            assert(t[0] == '@');
        }
        assert(vstd::utf8::encode_utf8(t).len() == vstd::utf8::encode_scalar(t[0] as u32).len()
            + vstd::utf8::encode_utf8(t.drop_first()).len());
    }
}

/// No token is a local user written with the local domain.
pub open spec fn no_local_acct(ts: Seq<TokenModel>, local_domain: Seq<char>) -> bool {
    forall|i: int|
        0 <= i < ts.len() ==> !(#[trigger] ts[i] matches TokenModel::Acct { domain, .. }
            && text::same_ignoring_ascii_case(domain, local_domain))
}

proof fn lemma_unanswered(ts: Seq<TokenModel>, local_domain: Seq<char>)
    requires
        no_local_acct(ts, local_domain),
    ensures
        bsky_text(bsky_pieces(ts, seq![], local_domain)) == backward_sources(ts),
    decreases ts.len(),
{
    let ps = bsky_pieces(ts, seq![], local_domain);
    if ts.len() > 0 {
        let front = ts.drop_last();
        assert forall|i: int| 0 <= i < front.len() implies !(#[trigger] front[i] matches TokenModel::Acct {
            domain,
            ..
        } && text::same_ignoring_ascii_case(domain, local_domain)) by {
            assert(front[i] == ts[i]);
        }
        lemma_unanswered(front, local_domain);
        assert(ps.drop_last() =~= bsky_pieces(front, seq![], local_domain));
        assert(ts[ts.len() - 1] == ts.last());
        assert(ps.last().text =~= source(ts.last()));
    }
}

/// The text that tokens were read from, put together from its end.
spec fn backward_sources(ts: Seq<TokenModel>) -> Seq<char>
    decreases ts.len(),
{
    if ts.len() == 0 {
        seq![]
    } else {
        backward_sources(ts.drop_last()) + source(ts.last())
    }
}

proof fn lemma_backward_sources(ts: Seq<TokenModel>)
    ensures
        backward_sources(ts) == sources(ts),
    decreases ts.len(),
{
    if ts.len() == 1 {
        assert(ts.drop_last() =~= seq![]);
        assert(ts.drop_first() =~= seq![]);
        assert(backward_sources(seq![]) + source(ts[0]) =~= source(ts[0]));
        assert(source(ts[0]) + sources(seq![]) =~= source(ts[0]));
    } else if ts.len() > 1 {
        let mid = ts.drop_first().drop_last();
        lemma_backward_sources(ts.drop_last());
        lemma_backward_sources(ts.drop_first());
        lemma_backward_sources(mid);
        assert(ts.drop_last().drop_first() =~= mid);
        assert(ts.drop_first().last() == ts.last());
        assert(ts.drop_last()[0] == ts[0]);
        assert(source(ts[0]) + sources(mid) + source(ts.last()) =~= source(ts[0]) + (sources(mid)
            + source(ts.last())));
    }
}

/// Where nothing at all was found about the tokens of a text, its text reaches
/// Bluesky unchanged. A user written with the local domain is the exception:
/// their handle is used whatever was found.
pub proof fn law_unanswered_text_is_kept(s: Seq<char>, local_domain: Seq<char>)
    requires
        no_local_acct(tokens(s), local_domain),
    ensures
        bsky_text(bsky_pieces(tokens(s), seq![], local_domain)) == s,
{
    lemma_unanswered(tokens(s), local_domain);
    lemma_backward_sources(tokens(s));
    law_scan_is_lossless(s);
}

proof fn lemma_next_is(s: Seq<char>, f: spec_fn(char) -> bool, i: int, end: int)
    requires
        0 <= i <= end <= s.len(),
        forall|k: int| i <= k < end ==> !f(#[trigger] s[k]),
        end < s.len() ==> f(s[end]),
    ensures
        text::next_index(s, f, i) == end,
{
    text::lemma_next_index(s, f, i);
}

/// A character that a name can hold, in a mention.
pub open spec fn in_name(c: char) -> bool {
    text::alphanumeric(c) || c == '_' || c == '-' || c == '.'
}

/// A character that a domain can hold, in a mention.
pub open spec fn in_domain(c: char) -> bool {
    text::alphanumeric(c) || c == '-' || c == '.'
}

/// A mention or a hashtag can begin behind the text: no ASCII letter, digit or
/// underscore stands at its end.
pub open spec fn ends_apart(pre: Seq<char>) -> bool {
    pre.len() > 0 ==> !text::ascii_alphanumeric(pre.last()) && pre.last() != '_'
}

proof fn lemma_name_end(pre: Seq<char>, user: Seq<char>, rest: Seq<char>)
    requires
        forall|k: int| 0 <= k < user.len() ==> in_name(#[trigger] user[k]),
        rest.len() > 0 ==> !in_name(rest[0]),
    ensures
        ({
            let s = pre + seq!['@'] + user + rest;
            let i: int = pre.len() as int;
            &&& s[i] == '@'
            &&& i > 0 ==> s[i - 1] == pre.last()
            &&& text::next_index(s, not_ident_char(), i + 1) == i + 1 + user.len()
            &&& s.subrange(i + 1, i + 1 + user.len()) == user
        }),
{
    let s = pre + seq!['@'] + user + rest;
    let i: int = pre.len() as int;
    let end: int = i + 1 + user.len();
    assert forall|k: int| i + 1 <= k < end implies !not_ident_char()(#[trigger] s[k]) by {
        assert(s[k] == user[k - i - 1]);
        assert(in_name(user[k - i - 1]));
    }
    if end < s.len() {
        assert(s[end] == rest[0]);
    }
    lemma_next_is(s, not_ident_char(), i + 1, end);
    assert(s.subrange(i + 1, end) =~= user);
}

/// A name behind `@` that stands apart is a mention of a user of this server, where
/// it has no dot and no domain behind it.
pub proof fn law_plain_mention_is_read(pre: Seq<char>, user: Seq<char>, rest: Seq<char>)
    requires
        ends_apart(pre),
        user.len() > 0,
        forall|k: int| 0 <= k < user.len() ==> in_name(#[trigger] user[k]),
        !user.contains('.'),
        rest.len() > 0 ==> !in_name(rest[0]) && rest[0] != '@',
    ensures
        token_at(pre + seq!['@'] + user + rest, pre.len() as int) == (
            TokenModel::User(user),
            (pre.len() + 1 + user.len()) as int,
        ),
{
    lemma_name_end(pre, user, rest);
}

proof fn lemma_dotted_name(name: Seq<char>, tld: Seq<char>)
    requires
        !tld.contains('.'),
        tld.len() >= 2,
    ensures
        looks_like_handle(name + seq!['.'] + tld),
{
    reveal_strlit(".");
    let handle = name + seq!['.'] + tld;
    assert("."@ =~= seq!['.']);
    assert(handle[name.len() as int] == '.');
    text::lemma_after_last(name, '.', tld, "."@);
    lemma_two_bytes(tld);
}

/// A name behind `@` that stands apart, with a dot in it and at least two characters
/// behind the last one, is a handle of the AT network.
pub proof fn law_handle_is_read(pre: Seq<char>, name: Seq<char>, tld: Seq<char>, rest: Seq<char>)
    requires
        ends_apart(pre),
        forall|k: int| 0 <= k < name.len() ==> in_name(#[trigger] name[k]),
        forall|k: int| 0 <= k < tld.len() ==> in_name(#[trigger] tld[k]),
        !tld.contains('.'),
        tld.len() >= 2,
        rest.len() > 0 ==> !in_name(rest[0]) && rest[0] != '@',
    ensures
        ({
            let handle = name + seq!['.'] + tld;
            token_at(pre + seq!['@'] + handle + rest, pre.len() as int) == (
                TokenModel::Handle(handle),
                (pre.len() + 1 + handle.len()) as int,
            )
        }),
{
    let handle = name + seq!['.'] + tld;
    assert forall|k: int| 0 <= k < handle.len() implies in_name(#[trigger] handle[k]) by {
        if k < name.len() {
            assert(handle[k] == name[k]);
        } else if k > name.len() {
            assert(handle[k] == tld[k - name.len() - 1]);
        }
    }
    lemma_name_end(pre, handle, rest);
    lemma_dotted_name(name, tld);
}

/// `@user@domain` that stands apart is an account of the Fediverse.
pub proof fn law_account_is_read(
    pre: Seq<char>,
    user: Seq<char>,
    domain: Seq<char>,
    rest: Seq<char>,
)
    requires
        ends_apart(pre),
        user.len() > 0,
        domain.len() > 0,
        forall|k: int| 0 <= k < user.len() ==> in_name(#[trigger] user[k]),
        forall|k: int| 0 <= k < domain.len() ==> in_domain(#[trigger] domain[k]),
        rest.len() > 0 ==> !in_domain(rest[0]),
    ensures
        token_at(pre + seq!['@'] + user + (seq!['@'] + domain + rest), pre.len() as int) == (
            TokenModel::Acct { user, domain },
            (pre.len() + 2 + user.len() + domain.len()) as int,
        ),
{
    let more = seq!['@'] + domain + rest;
    let s = pre + seq!['@'] + user + more;
    let i: int = pre.len() as int;
    lemma_name_end(pre, user, more);
    let end: int = i + 1 + user.len();
    let stop: int = end + 1 + domain.len();
    assert(s[end] == '@');
    assert forall|k: int| end + 1 <= k < stop implies !not_domain_char()(#[trigger] s[k]) by {
        assert(s[k] == domain[k - end - 1]);
        assert(in_domain(domain[k - end - 1]));
    }
    if stop < s.len() {
        assert(s[stop] == rest[0]);
    }
    lemma_next_is(s, not_domain_char(), end + 1, stop);
    assert(s.subrange(end + 1, stop) =~= domain);
}

/// An `@` inside a word, as in an address of a mail, starts no mention.
pub proof fn law_mail_is_no_mention(s: Seq<char>, i: int)
    requires
        0 < i < s.len(),
        s[i] == '@',
        text::ascii_alphanumeric(s[i - 1]) || s[i - 1] == '_',
    ensures
        token_at(s, i) == (TokenModel::Char('@'), i + 1),
{
}

/// A word behind `#` that has a letter is a hashtag, where it stands apart and not in
/// the path of an address.
pub proof fn law_hashtag_is_read(pre: Seq<char>, tag: Seq<char>, rest: Seq<char>)
    requires
        ends_apart(pre),
        pre.len() > 0 ==> pre.last() != '/',
        forall|k: int|
            0 <= k < tag.len() ==> text::alphanumeric(#[trigger] tag[k]) || tag[k] == '_',
        exists|k: int| 0 <= k < tag.len() && text::alphabetic(#[trigger] tag[k]),
        rest.len() > 0 ==> !text::alphanumeric(rest[0]) && rest[0] != '_',
    ensures
        token_at(pre + seq!['#'] + tag + rest, pre.len() as int) == (
            TokenModel::Hashtag(tag),
            (pre.len() + 1 + tag.len()) as int,
        ),
{
    let s = pre + seq!['#'] + tag + rest;
    let i: int = pre.len() as int;
    let end: int = i + 1 + tag.len();
    assert forall|k: int| i + 1 <= k < end implies !not_tag_char()(#[trigger] s[k]) by {
        assert(s[k] == tag[k - i - 1]);
    }
    if end < s.len() {
        assert(s[end] == rest[0]);
    }
    lemma_next_is(s, not_tag_char(), i + 1, end);
    assert(s.subrange(i + 1, end) =~= tag);
    if i > 0 {
        assert(s[i - 1] == pre.last());
    }
    assert(has_letter(tag));
}

/// A number behind `#` is no hashtag, nor is anything behind one that is inside a
/// word or a path.
pub proof fn law_hashtag_needs_a_letter(s: Seq<char>, i: int)
    requires
        0 <= i < s.len(),
        s[i] == '#',
        ({
            ||| i > 0 && (text::ascii_alphanumeric(s[i - 1]) || s[i - 1] == '_' || s[i - 1] == '/')
            ||| i + 1 < s.len() && !text::alphanumeric(s[i + 1]) && s[i + 1] != '_'
            ||| forall|k: int| i < k < s.len() ==> text::ascii_digit(#[trigger] s[k])
        }),
    ensures
        token_at(s, i) == (TokenModel::Char('#'), i + 1),
{
    text::lemma_next_index(s, not_tag_char(), i + 1);
    let end: int = text::next_index(s, not_tag_char(), i + 1);
    let name = s.subrange(i + 1, end);
    if has_letter(name) {
        let k: int = choose|k: int| 0 <= k < name.len() && text::alphabetic(#[trigger] name[k]);
        assert(name[k] == s[i + 1 + k]);
        assert(text::is_ascii_char(s[i + 1 + k]) || !text::ascii_digit(s[i + 1 + k]));
        if i + 1 < s.len() && not_tag_char()(s[i + 1]) {
            assert(end == i + 1);
        }
    }
}

/// A web address reaches from its scheme to the next white space or bracket, and
/// needs something behind the scheme.
pub proof fn law_address_is_read(pre: Seq<char>, tail: Seq<char>, rest: Seq<char>, secure: bool)
    requires
        tail.len() > 0,
        forall|k: int|
            0 <= k < tail.len() ==> !text::is_white_space(#[trigger] tail[k]) && tail[k] != '<'
                && tail[k] != '>' && tail[k] != '(' && tail[k] != ')' && tail[k] != '[' && tail[k]
                != ']',
        rest.len() > 0 ==> text::is_white_space(rest[0]) || rest[0] == '<' || rest[0] == '>'
            || rest[0] == '(' || rest[0] == ')' || rest[0] == '[' || rest[0] == ']',
    ensures
        ({
            let url = (if secure {
                "https://"@
            } else {
                "http://"@
            }) + tail;
            token_at(pre + url + rest, pre.len() as int) == (
                TokenModel::Url(url),
                (pre.len() + url.len()) as int,
            )
        }),
{
    reveal_strlit("https://");
    reveal_strlit("http://");
    assert("https://"@.len() == 8);
    assert("http://"@.len() == 7);
    let p = if secure {
        "https://"@
    } else {
        "http://"@
    };
    let url = p + tail;
    let s = pre + url + rest;
    let i: int = pre.len() as int;
    let n: int = p.len() as int;
    let end: int = i + url.len();
    assert(s.subrange(i, i + n) =~= p);
    assert(s[i] == 'h') by {
        assert(s[i] == p[0]);
    }
    if !secure && text::occurs_at(s, "https://"@, i) {
        assert(s.subrange(i, i + 8)[4] == 's');
        assert(s[i + 4] == p[4]);
    }
    assert forall|k: int| i + n <= k < end implies !url_stop()(#[trigger] s[k]) by {
        assert(s[k] == tail[k - i - n]);
    }
    if end < s.len() {
        assert(s[end] == rest[0]);
    }
    lemma_next_is(s, url_stop(), i + n, end);
    assert(s.subrange(i, end) =~= url);
}

/// A mention of a local user leads to the address of that user's actor, by which the
/// user is found again; the name is that of the account, under either spelling.
pub proof fn law_local_mention_leads_to_the_actor(user: Seq<char>, local_domain: Seq<char>)
    ensures
        ({
            let plain = ap_piece(TokenModel::User(user), ApAnswerModel::Local, local_domain);
            let handle = ap_piece(
                TokenModel::Handle(user + "."@ + local_domain),
                ApAnswerModel::Local,
                local_domain,
            );
            &&& plain.text == acct(user, local_domain)
            &&& plain.link matches Some(l) && l.kind == ApInlineSpanKind::Mention && l.href
                == ap::local_actor_uri(local_domain, user) && ap::local_username(
                l.href,
                local_domain,
            ) == Some(user)
            &&& handle == plain
            &&& ap_lookup(TokenModel::User(user), local_domain) == ApLookupModel::LocalUser(user)
            &&& ap_lookup(TokenModel::Handle(user + "."@ + local_domain), local_domain)
                == ApLookupModel::LocalUser(user)
        }),
{
    reveal_strlit(".");
    let h = user + "."@ + local_domain;
    let suffix = "."@ + local_domain;
    assert(h =~= user + suffix);
    assert(h.subrange(h.len() - suffix.len(), h.len() as int) =~= suffix);
    assert(h.subrange(0, h.len() - suffix.len()) =~= user);
    ap::law_local_actor_uri_names_its_user(local_domain, user);
    assert(local_actor_url(local_domain, user) =~= ap::local_actor_uri(local_domain, user));
}

/// An account elsewhere is linked to the address that was found for it, as a mention,
/// and asked for under its own name; where none was found it stays plain text.
pub proof fn law_account_leads_to_what_was_found(
    user: Seq<char>,
    domain: Seq<char>,
    href: Seq<char>,
    local_domain: Seq<char>,
)
    ensures
        ({
            let t = TokenModel::Acct { user, domain };
            let found = ap_piece(t, ApAnswerModel::Href(href), local_domain);
            let unknown = ap_piece(t, ApAnswerModel::Unknown, local_domain);
            &&& ap_lookup(t, local_domain) == (ApLookupModel::Href { user, domain })
            &&& found.text == source(t) && unknown.text == source(t)
            &&& found.link == Some(ApLinkModel { href, kind: ApInlineSpanKind::Mention })
            &&& unknown.link is None
        }),
{
}

/// A handle of the AT network is written as the account of the bridge under which it
/// is asked for, where there is one; else it is a plain link to the profile, which
/// leads to the posts of that handle.
pub proof fn law_handle_leads_to_the_bridge_or_the_profile(
    h: Seq<char>,
    href: Seq<char>,
    local_domain: Seq<char>,
    rkey: Seq<char>,
)
    requires
        local_handle(h, local_domain) is None,
        !h.contains('/'),
    ensures
        ({
            let t = TokenModel::Handle(h);
            let found = ap_piece(t, ApAnswerModel::Href(href), local_domain);
            let unknown = ap_piece(t, ApAnswerModel::Unknown, local_domain);
            &&& ap_lookup(t, local_domain) matches ApLookupModel::Href { user, domain } && user == h
                && domain == "bsky.brid.gy"@ && found.text == acct(user, domain)
            &&& found.link == Some(ApLinkModel { href, kind: ApInlineSpanKind::Mention })
            &&& unknown.text == h
            &&& unknown.link matches Some(l) && l.kind == ApInlineSpanKind::Link
                && note_input::at_uri_of_bsky_url(l.href + "/post/"@ + rkey) == Some(
                "at://"@ + h + "/app.bsky.feed.post/"@ + rkey,
            )
        }),
{
    note_input::law_bsky_url_gives_at_uri(h, rkey);
}

/// A hashtag leads to a page of this server, which is the same for all spellings that
/// differ in the case of letters only.
pub proof fn law_hashtag_leads_to_its_page(
    tag: Seq<char>,
    other: Seq<char>,
    answer: ApAnswerModel,
    local_domain: Seq<char>,
)
    ensures
        ({
            let p = ap_piece(TokenModel::Hashtag(tag), answer, local_domain);
            let q = ap_piece(TokenModel::Hashtag(other), answer, local_domain);
            &&& p.text == seq!['#'] + tag
            &&& p.link matches Some(l) && l.kind == ApInlineSpanKind::Hashtag
                && text::strip_prefix(l.href, "https://"@ + local_domain + "/tags/"@) == Some(
                text::lowercase(tag),
            )
            &&& text::lowercase(tag) == text::lowercase(other) ==> p.link == q.link
        }),
{
    let prefix = "https://"@ + local_domain + "/tags/"@;
    let href = prefix + text::lowercase(tag);
    assert(href.subrange(0, prefix.len() as int) =~= prefix);
    assert(href.subrange(prefix.len() as int, href.len() as int) =~= text::lowercase(tag));
}

/// A web address leads to itself, on either network, and other text to nothing.
pub proof fn law_addresses_lead_to_themselves(
    u: Seq<char>,
    c: char,
    ap_found: ApAnswerModel,
    bsky_found: BskyAnswerModel,
    local_domain: Seq<char>,
)
    ensures
        ({
            let p = ap_piece(TokenModel::Url(u), ap_found, local_domain);
            let b = bsky_piece(TokenModel::Url(u), bsky_found, local_domain);
            &&& p.text == u && p.link == Some(ApLinkModel { href: u, kind: ApInlineSpanKind::Link })
            &&& b.text == u
            &&& b.feature matches Some(FeatureModel::Link { uri, .. }) && uri == u
            &&& ap_piece(TokenModel::Char(c), ap_found, local_domain) == (ApPieceModel {
                text: seq![c],
                link: None,
            })
            &&& bsky_piece(TokenModel::Char(c), bsky_found, local_domain) == (BskyPieceModel {
                text: seq![c],
                feature: None,
            })
            &&& ap_piece(TokenModel::Bare(u), ap_found, local_domain) == (ApPieceModel {
                text: u,
                link: None,
            })
            &&& bsky_piece(TokenModel::Bare(u), bsky_found, local_domain) == (BskyPieceModel {
                text: u,
                feature: None,
            })
        }),
{
}

/// A span becomes a tag of the note that says what it is, where it leads and how it
/// reads. A plain link becomes none. A tag that mentions a local user is read as a
/// mention of that user.
pub proof fn law_tags_say_what_the_spans_say(m: SpanModel, local_domain: Seq<char>)
    ensures
        m.kind == ApInlineSpanKind::Link ==> span_tag(m) is None,
        m.kind != ApInlineSpanKind::Link ==> (span_tag(m) matches Some(t) && t.text_at("href"@)
            == Some(m.href) && t.text_at("name"@) == Some(m.name)),
        m.kind == ApInlineSpanKind::Mention ==> span_tag(m)->0.text_at("type"@) == Some("Mention"@)
            && note_input::mentioned_local_user(span_tag(m)->0, local_domain) == ap::local_username(
            m.href,
            local_domain,
        ),
        m.kind == ApInlineSpanKind::Hashtag ==> span_tag(m)->0.text_at("type"@) == Some("Hashtag"@)
            && note_input::mentioned_local_user(span_tag(m)->0, local_domain) is None,
{
    reveal_strlit("type");
    reveal_strlit("href");
    reveal_strlit("name");
    reveal_strlit("Mention");
    reveal_strlit("Hashtag");
    assert("type"@.len() == 4);
    assert("href"@.len() == 4);
    assert("name"@.len() == 4);
    assert("Mention"@.len() == 7);
    assert("Hashtag"@.len() == 7);
    assert("type"@[0] != "href"@[0]);
    assert("type"@[0] != "name"@[0]);
    assert("href"@[0] != "name"@[0]);
    assert("Mention"@[0] != "Hashtag"@[0]);
    assert("type"@[0] == 't' && "href"@[0] == 'h' && "name"@[0] == 'n');
    reveal_with_fuel(json::first_member, 4);
    if let Some(t) = span_tag(m) {
        assert(json::first_member(t->Obj_0, "href"@, 0) == Some(JsonModel::Str(m.href)));
        assert(json::first_member(t->Obj_0, "name"@, 0) == Some(JsonModel::Str(m.name)));
    }
}

/// The tags of a note are those of its spans: none is left out and none is added.
pub proof fn law_every_span_has_its_tag(ms: Seq<SpanModel>)
    ensures
        forall|k: int|
            0 <= k < ms.len() ==> (span_tag(#[trigger] ms[k]) matches Some(t) ==> span_tags(
                ms,
            ).contains(t)),
        forall|t: JsonModel| #[trigger]
            span_tags(ms).contains(t) ==> exists|k: int|
                0 <= k < ms.len() && span_tag(#[trigger] ms[k]) == Some(t),
    decreases ms.len(),
{
    if ms.len() > 0 {
        let front = ms.drop_last();
        law_every_span_has_its_tag(front);
        let all = span_tags(ms);
        let old_all = span_tags(front);
        assert forall|k: int| 0 <= k < ms.len() implies (span_tag(#[trigger] ms[k]) matches Some(t)
            ==> all.contains(t)) by {
            if let Some(t) = span_tag(ms[k]) {
                if k < front.len() {
                    assert(front[k] == ms[k]);
                    let j: int = choose|j: int| 0 <= j < old_all.len() && old_all[j] == t;
                    assert(all[j] == t);
                } else {
                    assert(all[all.len() - 1] == t);
                }
            }
        }
        assert forall|t: JsonModel| #[trigger] all.contains(t) implies exists|k: int|
            0 <= k < ms.len() && span_tag(#[trigger] ms[k]) == Some(t) by {
            let j: int = choose|j: int| 0 <= j < all.len() && all[j] == t;
            if j < old_all.len() {
                assert(old_all[j] == t);
                assert(old_all.contains(t));
                let k: int = choose|k: int|
                    0 <= k < front.len() && span_tag(#[trigger] front[k]) == Some(t);
                assert(ms[k] == front[k]);
            } else {
                assert(ms[ms.len() - 1] == ms.last());
            }
        }
    }
}

proof fn lemma_ap_unanswered(ts: Seq<TokenModel>, local_domain: Seq<char>)
    requires
        forall|i: int|
            0 <= i < ts.len() ==> (#[trigger] ts[i] matches TokenModel::Handle(h) ==> local_handle(
                h,
                local_domain,
            ) is Some),
    ensures
        ap_text(ap_pieces(ts, seq![], local_domain)) == backward_sources(ts),
    decreases ts.len(),
{
    let ps = ap_pieces(ts, seq![], local_domain);
    if ts.len() > 0 {
        let front = ts.drop_last();
        assert forall|i: int| 0 <= i < front.len() implies (#[trigger] front[i] matches TokenModel::Handle(
            h,
        ) ==> local_handle(h, local_domain) is Some) by {
            assert(front[i] == ts[i]);
        }
        lemma_ap_unanswered(front, local_domain);
        assert(ps.drop_last() =~= ap_pieces(front, seq![], local_domain));
        assert(ts[ts.len() - 1] == ts.last());
        assert(ps.last().text =~= source(ts.last()));
    }
}

/// Where nothing was found out about the mentions of a post, its text goes to the
/// Fediverse as it is, but for the `@` of a handle of the AT network, which becomes a
/// plain link.
pub proof fn law_unanswered_text_is_kept_in_the_fediverse(s: Seq<char>, local_domain: Seq<char>)
    requires
        forall|i: int|
            0 <= i < tokens(s).len() ==> (#[trigger] tokens(s)[i] matches TokenModel::Handle(h)
                ==> local_handle(h, local_domain) is Some),
    ensures
        ap_text(ap_pieces(tokens(s), seq![], local_domain)) == s,
{
    lemma_ap_unanswered(tokens(s), local_domain);
    lemma_backward_sources(tokens(s));
    law_scan_is_lossless(s);
}

/// On Bluesky, a mention notifies the account with the DID that was found, and only
/// that; the features are of the kinds that Bluesky knows.
pub proof fn law_mentions_notify_whom_was_found(
    token: TokenModel,
    answer: BskyAnswerModel,
    local_domain: Seq<char>,
)
    ensures
        bsky_piece(token, answer, local_domain).feature matches Some(FeatureModel::Mention {
            did,
            kind,
        }) ==> kind == "app.bsky.richtext.facet#mention"@ && (answer == (BskyAnswerModel::Known {
            did: Some(did),
        }) || (answer matches BskyAnswerModel::Bridged { did: d, .. } && d == Some(did))),
        bsky_piece(token, answer, local_domain).feature matches Some(FeatureModel::Link {
            kind,
            ..
        }) ==> kind == "app.bsky.richtext.facet#link"@,
        bsky_piece(token, answer, local_domain).feature matches Some(FeatureModel::Tag {
            tag,
            kind,
        }) ==> kind == "app.bsky.richtext.facet#tag"@ && token == TokenModel::Hashtag(tag),
        token matches TokenModel::Hashtag(t) ==> (bsky_piece(token, answer, local_domain).feature matches Some(
            FeatureModel::Tag { tag, .. },
        ) && tag == t),
{
}

/// A handle and a local user of whom the DID is known are mentioned by it; a name of
/// which nothing is known stays as it is and leads nowhere.
pub proof fn law_known_names_are_mentioned(
    token: TokenModel,
    did: Seq<char>,
    local_domain: Seq<char>,
)
    requires
        token is Handle || token is User || (token matches TokenModel::Acct { domain, .. } && domain
            == local_domain),
    ensures
        bsky_piece(
            token,
            BskyAnswerModel::Known { did: Some(did) },
            local_domain,
        ).feature matches Some(FeatureModel::Mention { did: d, .. }) && d == did,
        bsky_piece(token, BskyAnswerModel::Unknown, local_domain).feature is None,
        !(token is Acct) ==> bsky_piece(token, BskyAnswerModel::Unknown, local_domain).text
            == source(token),
        token matches TokenModel::Handle(h) ==> bsky_piece(
            token,
            BskyAnswerModel::Known { did: Some(did) },
            local_domain,
        ).text == source(token) && (local_handle(h, local_domain) is None ==> bsky_lookup(
            token,
            local_domain,
        ) == BskyLookupModel::HandleDid(h)),
{
}

/// A user of the Fediverse is mentioned on Bluesky by the account of the bridge, where
/// there is one; else the text stays and links to the user's home, or to the profile
/// that this server shows.
pub proof fn law_fediverse_users_go_over_the_bridge(
    user: Seq<char>,
    domain: Seq<char>,
    did: Seq<char>,
    home: Seq<char>,
    local_domain: Seq<char>,
)
    requires
        !text::same_ignoring_ascii_case(domain, local_domain),
    ensures
        ({
            let t = TokenModel::Acct { user, domain };
            let handle = user + seq!['.'] + domain + ".ap.brid.gy"@;
            let on_bridge = bridge_answer(user, domain, Some(did), false, Some(home));
            let on_record = bridge_answer(user, domain, None, true, Some(home));
            let at_home = bridge_answer(user, domain, None, false, Some(home));
            let nowhere = bridge_answer(user, domain, None, false, None);
            &&& bsky_lookup(t, local_domain) == (BskyLookupModel::Bridge { user, domain })
            &&& bsky_piece(t, on_bridge, local_domain).text == seq!['@'] + handle
            &&& bsky_piece(t, on_bridge, local_domain).feature matches Some(FeatureModel::Mention {
                did: d,
                ..
            }) && d == did
            &&& bsky_piece(t, on_record, local_domain) == (BskyPieceModel {
                text: seq!['@'] + handle,
                feature: None,
            })
            &&& bsky_piece(t, at_home, local_domain).text == source(t)
            &&& bsky_piece(t, at_home, local_domain).feature matches Some(FeatureModel::Link {
                uri,
                ..
            }) && uri == home
            &&& bsky_piece(t, nowhere, local_domain).text == source(t)
            &&& bsky_piece(t, nowhere, local_domain).feature matches Some(FeatureModel::Link {
                uri,
                ..
            }) && uri == "https://"@ + local_domain + "/"@ + source(t)
        }),
{
    reveal_strlit(".");
    reveal_strlit("@");
    reveal_strlit("/@");
    reveal_strlit("/");
    assert("."@ =~= seq!['.']);
    assert(remote_profile_url(local_domain, user, domain) =~= "https://"@ + local_domain + "/"@
        + acct(user, domain));
}

/// A user's own server is asked who they are, by the account that is meant.
pub proof fn law_webfinger_asks_the_users_server(user: Seq<char>, domain: Seq<char>)
    ensures
        text::starts_with(webfinger_url(user, domain), "https://"@ + domain + "/.well-known/webfinger?"@),
        text::strip_suffix(webfinger_url(user, domain), "resource=acct:"@ + user + seq!['@'] + domain)
            == Some("https://"@ + domain + "/.well-known/webfinger?"@),
{
    reveal_strlit("@");
    reveal_strlit("/.well-known/webfinger?resource=acct:");
    reveal_strlit("/.well-known/webfinger?");
    reveal_strlit("resource=acct:");
    assert("@"@.len() == 1);
    assert("/.well-known/webfinger?resource=acct:"@.len() == 37);
    assert("/.well-known/webfinger?"@.len() == 23);
    assert("resource=acct:"@.len() == 14);
    let u = webfinger_url(user, domain);
    let a = "https://"@ + domain + "/.well-known/webfinger?"@;
    let b = "resource=acct:"@ + user + seq!['@'] + domain;
    assert("/.well-known/webfinger?resource=acct:"@ =~= "/.well-known/webfinger?"@ + "resource=acct:"@);
    assert(u =~= a + b);
    assert(u.subrange(0, a.len() as int) =~= a);
    assert(u.subrange(a.len() as int, u.len() as int) =~= b);
}

/// The actor is the first link that a server gives as the user's own and as JSON, or
/// without a type; where there is none, there is no actor.
pub proof fn law_actor_is_the_own_link(ls: Seq<JsonModel>, i: int)
    requires
        0 <= i <= ls.len(),
    ensures
        first_self_link(ls, i) matches Some(href) ==> exists|k: int|
            i <= k < ls.len() && (#[trigger] ls[k]).text_at("rel"@) == Some("self"@)
                && ls[k].text_at("href"@) == Some(href) && (ls[k].text_at("type"@) matches Some(t)
                ==> text::contains_text(t, "json"@)) && forall|j: int|
                i <= j < k ==> self_link(#[trigger] ls[j]) is None,
        first_self_link(ls, i) is None ==> forall|k: int|
            i <= k < ls.len() && (#[trigger] ls[k]).text_at("rel"@) == Some("self"@)
                && ls[k].text_at("href"@) is Some ==> (ls[k].text_at("type"@) matches Some(t)
                && !text::contains_text(t, "json"@)),
    decreases ls.len() - i,
{
    if i < ls.len() {
        if self_link(ls[i]) is None {
            law_actor_is_the_own_link(ls, i + 1);
        } else {
            assert(ls[i].text_at("rel"@) == Some("self"@));
        }
    }
}

/// A feature of a text on Bluesky is named by its kind, and says what it is about.
pub proof fn law_features_are_of_their_kind(t: Seq<char>)
    ensures
        tag_feature(t) matches FeatureModel::Tag { tag, kind } && tag == t && kind
            == "app.bsky.richtext.facet#tag"@,
        mention_feature(t) matches FeatureModel::Mention { did, kind } && did == t && kind
            == "app.bsky.richtext.facet#mention"@,
        link_feature(t) matches FeatureModel::Link { uri, kind } && uri == t && kind
            == "app.bsky.richtext.facet#link"@,
{
}

spec fn has_facet(ps: Seq<BskyPieceModel>, fs: Seq<FacetModel>, j: int) -> bool {
    exists|k: int|
        0 <= k < fs.len() && (#[trigger] fs[k]).features == seq![ps[j].feature->0] && fs[k].start
            == text::utf8_len(bsky_text(ps.take(j))) && fs[k].end == text::utf8_len(
            bsky_text(ps.take(j + 1)),
        )
}

proof fn lemma_facet_of_piece(ps: Seq<BskyPieceModel>, j: int)
    requires
        0 <= j < ps.len(),
        ps[j].feature is Some,
    ensures
        has_facet(ps, bsky_facets(ps), j),
    decreases ps.len(),
{
    let front = ps.drop_last();
    let n = ps.len() - 1;
    let fs = bsky_facets(ps);
    let gs = bsky_facets(front);
    if j == n {
        assert(ps.take(j) =~= front);
        assert(ps.take(j + 1) =~= ps);
        assert(fs[gs.len() as int].features == seq![ps[j].feature->0]);
    } else {
        assert(front[j] == ps[j]);
        lemma_facet_of_piece(front, j);
        let k = choose|k: int|
            0 <= k < gs.len() && (#[trigger] gs[k]).features == seq![front[j].feature->0]
                && gs[k].start == text::utf8_len(bsky_text(front.take(j))) && gs[k].end
                == text::utf8_len(bsky_text(front.take(j + 1)));
        assert(front.take(j) =~= ps.take(j));
        assert(front.take(j + 1) =~= ps.take(j + 1));
        assert(fs[k] == gs[k]);
    }
}

/// Every address and every hashtag of a text has its facet on Bluesky, at the bytes
/// where the text is shown; so does every mention whose account was found.
pub proof fn law_every_feature_has_its_facet(ps: Seq<BskyPieceModel>, j: int)
    requires
        0 <= j < ps.len(),
        ps[j].feature is Some,
    ensures
        exists|k: int|
            0 <= k < bsky_facets(ps).len() && (#[trigger] bsky_facets(ps)[k]).features == seq![
                ps[j].feature->0,
            ] && bsky_facets(ps)[k].start == text::utf8_len(bsky_text(ps.take(j))) && bsky_facets(
                ps,
            )[k].end == text::utf8_len(bsky_text(ps.take(j + 1))),
{
    lemma_facet_of_piece(ps, j);
    let fs = bsky_facets(ps);
    let k = choose|k: int|
        0 <= k < fs.len() && (#[trigger] fs[k]).features == seq![ps[j].feature->0] && fs[k].start
            == text::utf8_len(bsky_text(ps.take(j))) && fs[k].end == text::utf8_len(
            bsky_text(ps.take(j + 1)),
        );
    assert(bsky_facets(ps)[k] == fs[k]);
}

/// Addresses and hashtags are linked on Bluesky whatever is found: an address to
/// itself, a hashtag to its tag. A mention is linked to the account whose DID was found.
pub proof fn law_bluesky_links_what_is_written(
    t: Seq<char>,
    did: Seq<char>,
    answer: BskyAnswerModel,
    local_domain: Seq<char>,
)
    ensures
        bsky_piece(TokenModel::Url(t), answer, local_domain) == (BskyPieceModel {
            text: t,
            feature: Some(link_feature(t)),
        }),
        bsky_piece(TokenModel::Hashtag(t), answer, local_domain) == (BskyPieceModel {
            text: "#"@ + t,
            feature: Some(tag_feature(t)),
        }),
        bsky_piece(
            TokenModel::Handle(t),
            BskyAnswerModel::Known { did: Some(did) },
            local_domain,
        ) == (BskyPieceModel { text: "@"@ + t, feature: Some(mention_feature(did)) }),
        bsky_piece(TokenModel::Handle(t), BskyAnswerModel::Unknown, local_domain)
            == (BskyPieceModel { text: "@"@ + t, feature: None }),
        bsky_piece(TokenModel::User(t), BskyAnswerModel::Unknown, local_domain)
            == (BskyPieceModel { text: "@"@ + t, feature: None }),
{
    reveal_strlit("#");
    reveal_strlit("@");
    assert("#"@.len() == 1);
    assert("@"@.len() == 1);
    assert("#"@[0] != "@"@[0]);
    assert("#"@ + t =~= seq!['#'] + t);
    assert("@"@ + t =~= seq!['@'] + t);
}

/// Every linked piece of a text has its span in the fediverse, with its address, its
/// kind and its text.
pub proof fn law_every_link_has_its_span(ps: Seq<ApPieceModel>, j: int)
    requires
        0 <= j < ps.len(),
        ps[j].link is Some,
    ensures
        exists|k: int|
            0 <= k < ap_spans(ps).len() && (#[trigger] ap_spans(ps)[k]).href == ps[j].link->0.href
                && ap_spans(ps)[k].kind == ps[j].link->0.kind && ap_spans(ps)[k].name
                == ps[j].text && ap_spans(ps)[k].start == text::utf8_len(ap_text(ps.take(j))),
    decreases ps.len(),
{
    let front = ps.drop_last();
    let n = ps.len() - 1;
    let fs = ap_spans(ps);
    let gs = ap_spans(front);
    if j == n {
        assert(ps.take(j) =~= front);
        let k = gs.len() as int;
        assert(fs[k].href == ps[j].link->0.href && fs[k].name == ps[j].text);
    } else {
        assert(front[j] == ps[j]);
        law_every_link_has_its_span(front, j);
        let k = choose|k: int|
            0 <= k < gs.len() && (#[trigger] gs[k]).href == front[j].link->0.href && gs[k].kind
                == front[j].link->0.kind && gs[k].name == front[j].text && gs[k].start
                == text::utf8_len(ap_text(front.take(j)));
        assert(front.take(j) =~= ps.take(j));
        assert(fs[k] == gs[k]);
    }
}

} // verus!
