//! What is shown of the server that a post comes from: its name, its colour and
//! its icon.

use crate::ip_literal;
use crate::jobs::ogp_fetch::FetchFailure;
use crate::link_target;
use crate::outside;
use crate::outside::{GroupMatch, GroupModel};
use crate::text;
use vstd::prelude::*;

verus! {

/// The colour of servers that state none.
pub const DEFAULT_THEME_COLOR: &'static str = "#e4e4e7";

// ---------------------------------------------------------------------------
// The colour.
// ---------------------------------------------------------------------------
/// The colour that a software is known by.
pub open spec fn software_color(software: Seq<char>) -> Option<Seq<char>> {
    let name = text::ascii_lower(software);
    if name == "fedibird"@ {
        Some("#f4dced"@)
    } else if name == "kmyblue"@ {
        Some("#d9ecfa"@)
    } else if name == "mitra"@ {
        Some("#e8d9a6"@)
    } else if name == "akkoma"@ {
        Some("#ddd9f5"@)
    } else {
        None
    }
}

/// The colour that a software is known by.
pub fn fallback_color_for_software(software_name: &str) -> (r: Option<&'static str>)
    ensures
        text::str_view(r) == software_color(software_name@),
{
    let chars: Vec<char> = text::chars_of(software_name);
    let name: Vec<char> = text::lower(chars.as_slice());
    if text::is_text(name.as_slice(), "fedibird") {
        Some("#f4dced")
    } else if text::is_text(name.as_slice(), "kmyblue") {
        Some("#d9ecfa")
    } else if text::is_text(name.as_slice(), "mitra") {
        Some("#e8d9a6")
    } else if text::is_text(name.as_slice(), "akkoma") {
        Some("#ddd9f5")
    } else {
        None
    }
}

/// A colour: `#` and three or six hexadecimal digits.
pub open spec fn hex_color(s: Seq<char>) -> bool {
    &&& s.len() == 4 || s.len() == 7
    &&& s[0] == '#'
    &&& forall|i: int| 1 <= i < s.len() ==> ip_literal::hex_digit(#[trigger] s[i])
}

/// Whether the text is a colour.
pub fn is_valid_hex_color(s: &str) -> (r: bool)
    ensures
        r == hex_color(s@),
{
    let chars: Vec<char> = text::chars_of(s);
    if (chars.len() != 4 && chars.len() != 7) || chars[0] != '#' {
        return false;
    }
    let mut i: usize = 1;
    while i < chars.len()
        invariant
            1 <= i <= chars@.len(),
            chars@ == s@,
            forall|j: int| 1 <= j < i ==> ip_literal::hex_digit(#[trigger] s@[j]),
        decreases chars@.len() - i,
    {
        if !ip_literal::is_hex_digit(chars[i]) {
            return false;
        }
        i += 1;
    }
    true
}

/// The colour that is shown: the stated one where it is a colour, else the one
/// that the software is known by, else the default.
pub open spec fn theme_color(declared: Option<Seq<char>>, software: Option<Seq<char>>) -> Seq<char> {
    let known = match software {
        Some(name) => software_color(name),
        None => None,
    };
    match (declared, known) {
        (Some(c), _) if hex_color(c) => c,
        (_, Some(c)) => c,
        _ => DEFAULT_THEME_COLOR@,
    }
}

/// The colour that is shown.
pub fn choose_theme_color(declared: &Option<String>, software: &Option<String>) -> (r: String)
    ensures
        r@ == theme_color(text::string_view(*declared), text::string_view(*software)),
{
    match declared {
        Some(c) => {
            if is_valid_hex_color(c.as_str()) {
                return c.clone();
            }
        },
        None => {},
    }
    match software {
        Some(name) => match fallback_color_for_software(name.as_str()) {
            Some(c) => {
                return c.to_owned();
            },
            None => {},
        },
        None => {},
    }
    DEFAULT_THEME_COLOR.to_owned()
}

// ---------------------------------------------------------------------------
// The description.
// ---------------------------------------------------------------------------
/// A link to a description of a server.
#[derive(Debug)]
pub struct NodeinfoLink {
    pub rel: String,
    pub href: String,
}

/// What a link stands for.
pub struct LinkModel {
    pub rel: Seq<char>,
    pub href: Seq<char>,
}

/// What links stand for.
pub open spec fn link_models(v: Seq<NodeinfoLink>) -> Seq<LinkModel> {
    v.map_values(|l: NodeinfoLink| LinkModel { rel: l.rel@, href: l.href@ })
}

/// Which links are looked for.
pub enum LinkWish {
    Ends(Seq<char>),
    Contains(Seq<char>),
}

impl LinkWish {
    /// The link is of the kind that is looked for.
    pub open spec fn meets(self, rel: Seq<char>) -> bool {
        match self {
            LinkWish::Ends(p) => text::ends_with(rel, p),
            LinkWish::Contains(p) => text::contains_text(rel, p),
        }
    }
}

/// The first link from index `i` on that is looked for.
pub open spec fn first_link(ls: Seq<LinkModel>, wish: LinkWish, i: int) -> Option<Seq<char>>
    decreases ls.len() - i,
{
    if i < 0 || i >= ls.len() {
        None
    } else if wish.meets(ls[i].rel) {
        Some(ls[i].href)
    } else {
        first_link(ls, wish, i + 1)
    }
}

/// The link that is followed: the first one of the newest version that there is.
pub open spec fn nodeinfo_link(ls: Seq<LinkModel>) -> Option<Seq<char>> {
    let newest = first_link(ls, LinkWish::Ends("schema/2.1"@), 0);
    let older = first_link(ls, LinkWish::Ends("schema/2.0"@), 0);
    if newest is Some {
        newest
    } else if older is Some {
        older
    } else {
        first_link(ls, LinkWish::Contains("nodeinfo"@), 0)
    }
}

/// The first link whose kind ends with a text.
fn find_ending<'a>(links: &'a [NodeinfoLink], end: &str) -> (r: Option<&'a str>)
    ensures
        text::str_view(r) == first_link(link_models(links@), LinkWish::Ends(end@), 0),
{
    let ghost all = link_models(links@);
    let mut i: usize = 0;
    while i < links.len()
        invariant
            i <= links@.len(),
            all == link_models(links@),
            first_link(all, LinkWish::Ends(end@), 0) == first_link(
                all,
                LinkWish::Ends(end@),
                i as int,
            ),
        decreases links@.len() - i,
    {
        assert(all[i as int].rel == links@[i as int].rel@);
        assert(all[i as int].href == links@[i as int].href@);
        let rel: Vec<char> = text::chars_of(links[i].rel.as_str());
        if text::has_suffix(rel.as_slice(), end) {
            return Some(links[i].href.as_str());
        }
        i += 1;
    }
    None
}

/// The first link whose kind contains a text.
fn find_containing<'a>(links: &'a [NodeinfoLink], part: &str) -> (r: Option<&'a str>)
    ensures
        text::str_view(r) == first_link(link_models(links@), LinkWish::Contains(part@), 0),
{
    let ghost all = link_models(links@);
    let mark: Vec<char> = text::chars_of(part);
    let mut i: usize = 0;
    while i < links.len()
        invariant
            i <= links@.len(),
            mark@ == part@,
            all == link_models(links@),
            first_link(all, LinkWish::Contains(part@), 0) == first_link(
                all,
                LinkWish::Contains(part@),
                i as int,
            ),
        decreases links@.len() - i,
    {
        assert(all[i as int].rel == links@[i as int].rel@);
        assert(all[i as int].href == links@[i as int].href@);
        let rel: Vec<char> = text::chars_of(links[i].rel.as_str());
        if text::has_text(rel.as_slice(), mark.as_slice()) {
            return Some(links[i].href.as_str());
        }
        i += 1;
    }
    None
}

/// The link that is followed.
pub fn pick_nodeinfo_link<'a>(links: &'a [NodeinfoLink]) -> (r: Option<&'a str>)
    ensures
        text::str_view(r) == nodeinfo_link(link_models(links@)),
{
    match find_ending(links, "schema/2.1") {
        Some(h) => Some(h),
        None => match find_ending(links, "schema/2.0") {
            Some(h) => Some(h),
            None => find_containing(links, "nodeinfo"),
        },
    }
}

/// The address of a server's list of descriptions.
pub fn discovery_url(domain: &str) -> (r: String)
    ensures
        r@ == "https://"@ + domain@ + "/.well-known/nodeinfo"@,
{
    text::cat3("https://", domain, "/.well-known/nodeinfo")
}

/// What a server says of itself.
#[derive(Debug)]
pub struct InstanceInfo {
    pub software_name: Option<String>,
    pub node_name: Option<String>,
    pub theme_color: Option<String>,
}

/// What goes on record of a server.
#[derive(Debug)]
pub struct InstanceRow {
    pub software_name: Option<String>,
    pub node_name: Option<String>,
    /// The colour that is shown.
    pub theme_color: String,
}

/// What goes on record of a server that was asked about itself, and why it is to
/// be asked again. A row goes on record whatever came back: without names, and
/// with the default colour, where nothing came that can be read. The server is
/// asked again where it may answer another time.
pub fn settle_instance_info(domain: &str, fetched: Result<InstanceInfo, FetchFailure>) -> (r: (
    InstanceRow,
    Option<String>,
))
    ensures
        match fetched {
            Ok(info) => {
                &&& r.0.software_name == info.software_name
                &&& r.0.node_name == info.node_name
                &&& r.0.theme_color@ == theme_color(
                    text::string_view(info.theme_color),
                    text::string_view(info.software_name),
                )
                &&& r.1 is None
            },
            Err(f) => {
                &&& r.0.software_name is None
                &&& r.0.node_name is None
                &&& r.0.theme_color@ == DEFAULT_THEME_COLOR@
                &&& text::string_view(r.1) == (if f.transient() {
                    Some("nodeinfo取得失敗（リトライ対象）: domain="@ + domain@)
                } else {
                    None
                })
            },
        },
{
    let (info, again): (InstanceInfo, Option<String>) = match fetched {
        Ok(info) => (info, None),
        Err(f) => (
            InstanceInfo { software_name: None, node_name: None, theme_color: None },
            if f.is_transient() {
                Some(text::cat("nodeinfo取得失敗（リトライ対象）: domain=", domain))
            } else {
                None
            },
        ),
    };
    let color: String = choose_theme_color(&info.theme_color, &info.software_name);
    let row: InstanceRow = InstanceRow {
        software_name: info.software_name,
        node_name: info.node_name,
        theme_color: color,
    };
    (row, again)
}

// ---------------------------------------------------------------------------
// The icon.
// ---------------------------------------------------------------------------
/// A link to an icon, with `rel` in front of `href`.
pub open spec fn rel_first_pattern() -> Seq<char> {
    "(?i)<link[^>]*?rel=[\"'](?:shortcut icon|icon)[\"'][^>]*?href=[\"']([^\"']+)[\"']"@
}

/// A link to an icon, with `href` in front of `rel`.
pub open spec fn href_first_pattern() -> Seq<char> {
    "(?i)<link[^>]*?href=[\"']([^\"']+)[\"'][^>]*?rel=[\"'](?:shortcut icon|icon)[\"']"@
}

/// The first match of each pattern that has one.
pub open spec fn first_match(ms: Option<Seq<Seq<Option<GroupModel>>>>) -> Option<
    Seq<Option<GroupModel>>,
> {
    match ms {
        Some(v) if v.len() > 0 => Some(v[0]),
        _ => None,
    }
}

/// The address of the icon as it stands in the page: what the first match of the
/// first pattern that has one holds.
pub open spec fn icon_href(
    rel_first: Option<Seq<Seq<Option<GroupModel>>>>,
    href_first: Option<Seq<Seq<Option<GroupModel>>>>,
) -> Option<Seq<char>> {
    if first_match(rel_first) is Some {
        link_target::group_text(first_match(rel_first)->0, 1)
    } else if first_match(href_first) is Some {
        link_target::group_text(first_match(href_first)->0, 1)
    } else {
        None
    }
}

/// What optional matches stand for.
pub open spec fn opt_matches(v: Option<Vec<Vec<Option<GroupMatch>>>>) -> Option<
    Seq<Seq<Option<GroupModel>>>,
> {
    match v {
        Some(m) => Some(outside::matches_view(m@)),
        None => None,
    }
}

/// The address of the icon, from the matches of the two patterns in the page.
pub fn select_icon_href(
    rel_first: &Option<Vec<Vec<Option<GroupMatch>>>>,
    href_first: &Option<Vec<Vec<Option<GroupMatch>>>>,
) -> (r: Option<String>)
    ensures
        text::string_view(r) == icon_href(opt_matches(*rel_first), opt_matches(*href_first)),
{
    match rel_first {
        Some(v) => {
            if v.len() > 0 {
                assert(outside::matches_view(v@)[0] == outside::groups_view(v@[0]@));
                return match link_target::read_group(&v[0], 1) {
                    Some(t) => Some(t.to_owned()),
                    None => None,
                };
            }
        },
        None => {},
    }
    match href_first {
        Some(v) => {
            if v.len() > 0 {
                assert(outside::matches_view(v@)[0] == outside::groups_view(v@[0]@));
                return match link_target::read_group(&v[0], 1) {
                    Some(t) => Some(t.to_owned()),
                    None => None,
                };
            }
        },
        None => {},
    }
    None
}

/// The address of the icon that a page states, with entities decoded.
pub open spec fn favicon_link(html: Seq<char>) -> Option<Seq<char>> {
    match icon_href(
        outside::regex_matches(rel_first_pattern(), html),
        outside::regex_matches(href_first_pattern(), html),
    ) {
        Some(raw) => Some(outside::entities_decoded(raw)),
        None => None,
    }
}

/// The address of the icon that a page states.
pub fn extract_favicon_link(html: &str) -> (r: Option<String>)
    ensures
        text::string_view(r) == favicon_link(html@),
{
    let rel_first: Option<Vec<Vec<Option<GroupMatch>>>> = outside::find_matches(
        "(?i)<link[^>]*?rel=[\"'](?:shortcut icon|icon)[\"'][^>]*?href=[\"']([^\"']+)[\"']",
        html,
    );
    let href_first: Option<Vec<Vec<Option<GroupMatch>>>> = outside::find_matches(
        "(?i)<link[^>]*?href=[\"']([^\"']+)[\"'][^>]*?rel=[\"'](?:shortcut icon|icon)[\"']",
        html,
    );
    match select_icon_href(&rel_first, &href_first) {
        Some(raw) => Some(outside::decode_html_entities(raw.as_str())),
        None => None,
    }
}

/// The address of a server's front page.
pub open spec fn home_url(domain: Seq<char>) -> Seq<char> {
    "https://"@ + domain + "/"@
}

/// The address of a server's front page.
pub fn home_url_of(domain: &str) -> (r: String)
    ensures
        r@ == home_url(domain@),
{
    text::cat3("https://", domain, "/")
}

/// The icon that the front page of a server states, as a full address.
pub fn stated_icon_url(domain: &str, html: &str) -> (r: Option<String>)
    ensures
        text::string_view(r) == (match favicon_link(html@) {
            Some(href) => outside::joined_url(home_url(domain@), href),
            None => None,
        }),
{
    match extract_favicon_link(html) {
        Some(href) => outside::join_url(home_url_of(domain).as_str(), href.as_str()),
        None => None,
    }
}

/// Where the icon of a server is looked for that states none.
pub fn fallback_icon_url(domain: &str) -> (r: String)
    ensures
        r@ == "https://"@ + domain@ + "/favicon.ico"@,
{
    text::cat3("https://", domain, "/favicon.ico")
}

// ---------------------------------------------------------------------------
// Laws.
// ---------------------------------------------------------------------------
/// The colour that is shown is always a colour, whatever a server states.
pub proof fn law_theme_color_is_a_color(declared: Option<Seq<char>>, software: Option<Seq<char>>)
    ensures
        hex_color(theme_color(declared, software)),
{
    reveal_strlit("#f4dced");
    reveal_strlit("#d9ecfa");
    reveal_strlit("#e8d9a6");
    reveal_strlit("#ddd9f5");
    reveal_strlit("#e4e4e7");
}

/// The colour of a server is the one it declares, else the one of its software, else
/// the default; a declaration that is no colour does not count.
pub proof fn law_declared_color_comes_first(
    declared: Seq<char>,
    software: Option<Seq<char>>,
    name: Seq<char>,
)
    ensures
        hex_color(declared) ==> theme_color(Some(declared), software) == declared,
        !hex_color(declared) ==> theme_color(Some(declared), software) == theme_color(
            None,
            software,
        ),
        software_color(name) is Some ==> theme_color(None, Some(name)) == software_color(name)->0,
        software_color(name) is None ==> theme_color(None, Some(name)) == "#e4e4e7"@,
        theme_color(None, None) == "#e4e4e7"@,
{
}

/// The software is known whatever case its name is written in, and only the four that
/// have a colour of their own are.
pub proof fn law_software_is_known_in_any_case(a: Seq<char>, b: Seq<char>)
    requires
        text::ascii_lower(a) == text::ascii_lower(b),
    ensures
        software_color(a) == software_color(b),
        software_color(a) == Some("#f4dced"@) <==> text::ascii_lower(a) == "fedibird"@,
        software_color(a) == Some("#d9ecfa"@) <==> text::ascii_lower(a) == "kmyblue"@,
        software_color(a) == Some("#e8d9a6"@) <==> text::ascii_lower(a) == "mitra"@,
        software_color(a) == Some("#ddd9f5"@) <==> text::ascii_lower(a) == "akkoma"@,
        software_color(a) is None <==> text::ascii_lower(a) != "fedibird"@ && text::ascii_lower(a)
            != "kmyblue"@ && text::ascii_lower(a) != "mitra"@ && text::ascii_lower(a)
            != "akkoma"@,
{
    reveal_strlit("#f4dced");
    reveal_strlit("#d9ecfa");
    reveal_strlit("#e8d9a6");
    reveal_strlit("#ddd9f5");
    assert("#f4dced"@.len() == 7);
    assert("#d9ecfa"@.len() == 7);
    assert("#e8d9a6"@.len() == 7);
    assert("#ddd9f5"@.len() == 7);
    assert("#f4dced"@[1] != "#d9ecfa"@[1]);
    assert("#f4dced"@[1] != "#e8d9a6"@[1]);
    assert("#f4dced"@[1] != "#ddd9f5"@[1]);
    assert("#d9ecfa"@[1] != "#e8d9a6"@[1]);
    assert("#d9ecfa"@[2] != "#ddd9f5"@[2]);
    assert("#e8d9a6"@[1] != "#ddd9f5"@[1]);
    reveal_strlit("fedibird");
    reveal_strlit("kmyblue");
    reveal_strlit("mitra");
    reveal_strlit("akkoma");
    assert("fedibird"@.len() == 8);
    assert("kmyblue"@.len() == 7);
    assert("mitra"@.len() == 5);
    assert("akkoma"@.len() == 6);
}

proof fn lemma_first_link(ls: Seq<LinkModel>, wish: LinkWish, i: int)
    requires
        0 <= i,
    ensures
        first_link(ls, wish, i) is None <==> forall|j: int|
            i <= j < ls.len() ==> !wish.meets((#[trigger] ls[j]).rel),
        forall|k: int|
            i <= k < ls.len() && wish.meets((#[trigger] ls[k]).rel) && (forall|j: int|
                i <= j < k ==> !wish.meets((#[trigger] ls[j]).rel)) ==> first_link(ls, wish, i)
                == Some(ls[k].href),
    decreases ls.len() - i,
{
    if i < ls.len() {
        lemma_first_link(ls, wish, i + 1);
        if wish.meets(ls[i].rel) {
            assert forall|k: int|
                i <= k < ls.len() && wish.meets((#[trigger] ls[k]).rel) && (forall|j: int|
                    i <= j < k ==> !wish.meets((#[trigger] ls[j]).rel)) implies first_link(
                ls,
                wish,
                i,
            ) == Some(ls[k].href) by {
                assert(k == i || !wish.meets(ls[i].rel));
            }
        }
    }
}

/// Of the descriptions that a server offers the newest is taken, the first of its
/// kind; an older one only where there is no newer.
pub proof fn law_newest_description_is_taken(ls: Seq<LinkModel>, k: int)
    requires
        0 <= k < ls.len(),
    ensures
        text::ends_with(ls[k].rel, "schema/2.1"@) && (forall|j: int|
            0 <= j < k ==> !text::ends_with((#[trigger] ls[j]).rel, "schema/2.1"@))
            ==> nodeinfo_link(ls) == Some(ls[k].href),
        text::ends_with(ls[k].rel, "schema/2.0"@) && (forall|j: int|
            0 <= j < k ==> !text::ends_with((#[trigger] ls[j]).rel, "schema/2.0"@)) && (forall|
            j: int,
        |
            0 <= j < ls.len() ==> !text::ends_with((#[trigger] ls[j]).rel, "schema/2.1"@))
            ==> nodeinfo_link(ls) == Some(ls[k].href),
        text::contains_text(ls[k].rel, "nodeinfo"@) && (forall|j: int|
            0 <= j < k ==> !text::contains_text((#[trigger] ls[j]).rel, "nodeinfo"@)) && (forall|
            j: int,
        |
            0 <= j < ls.len() ==> !text::ends_with((#[trigger] ls[j]).rel, "schema/2.1"@)
                && !text::ends_with(ls[j].rel, "schema/2.0"@)) ==> nodeinfo_link(ls) == Some(
            ls[k].href,
        ),
{
    let newest = LinkWish::Ends("schema/2.1"@);
    let older = LinkWish::Ends("schema/2.0"@);
    let any = LinkWish::Contains("nodeinfo"@);
    lemma_first_link(ls, newest, 0);
    lemma_first_link(ls, older, 0);
    lemma_first_link(ls, any, 0);
    assert(forall|j: int|
        0 <= j < ls.len() ==> newest.meets((#[trigger] ls[j]).rel) == text::ends_with(
            ls[j].rel,
            "schema/2.1"@,
        ));
    assert(forall|j: int|
        0 <= j < ls.len() ==> older.meets((#[trigger] ls[j]).rel) == text::ends_with(
            ls[j].rel,
            "schema/2.0"@,
        ));
    assert(forall|j: int|
        0 <= j < ls.len() ==> any.meets((#[trigger] ls[j]).rel) == text::contains_text(
            ls[j].rel,
            "nodeinfo"@,
        ));
}

/// The icon of a page is that of the first link that states its relation before its
/// address, else of the first that states it behind.
pub proof fn law_icon_is_the_first_link(
    rel_first: Seq<Seq<Option<GroupModel>>>,
    href_first: Seq<Seq<Option<GroupModel>>>,
)
    ensures
        rel_first.len() > 0 ==> icon_href(Some(rel_first), Some(href_first))
            == link_target::group_text(rel_first[0], 1),
        rel_first.len() == 0 && href_first.len() > 0 ==> icon_href(
            Some(rel_first),
            Some(href_first),
        ) == link_target::group_text(href_first[0], 1),
        rel_first.len() == 0 && href_first.len() == 0 ==> icon_href(
            Some(rel_first),
            Some(href_first),
        ) is None,
        icon_href(None, None) is None,
{
}

/// The icon of a page is the address in the first of its links, with its entities
/// decoded.
pub proof fn law_icon_address_is_decoded(
    html: Seq<char>,
    ms: Seq<Seq<Option<GroupModel>>>,
    raw: Seq<char>,
)
    requires
        outside::regex_matches(rel_first_pattern(), html) == Some(ms),
        ms.len() > 0,
        link_target::group_text(ms[0], 1) == Some(raw),
    ensures
        favicon_link(html) == Some(outside::entities_decoded(raw)),
{
}

} // verus!
