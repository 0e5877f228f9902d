//! Looking up remote actors that are not known yet.

use crate::ap;
use crate::cooldown;
use crate::cooldown::RecentNames;
use crate::jobs::inbound_activity_process::actor::{ActorDocument, RemoteProfile};
use crate::jobs::inbound_activity_process::content;
use crate::text;
use vstd::prelude::*;

verus! {

/// How long the same address is not looked up again: an hour.
pub const REMOTE_ACTOR_RESOLVE_COOLDOWN: u64 = 3_600_000_000_000;

/// Whether the address is looked up now.
pub fn should_enqueue(recent: &mut RecentNames, uri: &str, now: u64) -> (r: bool)
    ensures
        r == cooldown::admits(old(recent)@, uri@, now, REMOTE_ACTOR_RESOLVE_COOLDOWN),
        final(recent)@ == cooldown::after_asking(
            old(recent)@,
            uri@,
            now,
            REMOTE_ACTOR_RESOLVE_COOLDOWN,
        ),
{
    recent.ask(uri, now, REMOTE_ACTOR_RESOLVE_COOLDOWN)
}

/// What stands behind the scheme of a web address.
pub open spec fn behind_scheme(uri: Seq<char>) -> Option<Seq<char>> {
    if text::starts_with(uri, "https://"@) {
        text::strip_prefix(uri, "https://"@)
    } else {
        text::strip_prefix(uri, "http://"@)
    }
}

/// The domain of a web address; a text that is none is taken whole.
pub open spec fn domain_of(uri: Seq<char>) -> Seq<char> {
    match behind_scheme(uri) {
        Some(rest) => text::before_any(rest, text::just('/')),
        None => uri,
    }
}

/// What stands behind the scheme of a web address.
pub(crate) fn strip_scheme<'a>(uri: &'a str) -> (r: Option<&'a str>)
    ensures
        text::str_view(r) == behind_scheme(uri@),
{
    match ap::strip_prefix_str(uri, "https://") {
        Some(rest) => Some(rest),
        None => ap::strip_prefix_str(uri, "http://"),
    }
}

/// What stands before the first character `d`.
pub(crate) fn first_segment(s: &str, d: char) -> (r: String)
    ensures
        r@ == text::before_any(s@, text::just(d)),
{
    let chars: Vec<char> = text::chars_of(s);
    let k: usize = text::next_char(chars.as_slice(), d, 0);
    text::string_of(vstd::slice::slice_subrange(chars.as_slice(), 0, k))
}

/// The domain of a web address, by which requests to one server are held apart.
pub fn extract_domain(uri: &str) -> (r: String)
    ensures
        r@ == domain_of(uri@),
{
    match strip_scheme(uri) {
        Some(rest) => first_segment(rest, '/'),
        None => uri.to_owned(),
    }
}

/// Whether an address is looked up: not where the actor is known already, nor
/// where the address is one of this server.
pub fn needs_lookup(uri: &str, known: bool, local_domain: Option<&str>) -> (r: bool)
    ensures
        r == (!known && (match text::str_view(local_domain) {
            Some(d) => ap::local_username(uri@, d) is None,
            None => true,
        })),
{
    if known {
        return false;
    }
    match local_domain {
        Some(d) => ap::extract_local_username(uri, d).is_none(),
        None => true,
    }
}

/// The name that an address suggests: its last part.
pub open spec fn name_of_address(uri: Seq<char>) -> Seq<char> {
    text::split(uri, '/').last()
}

/// The name that an address suggests.
pub(crate) fn last_segment(uri: &str) -> (r: String)
    ensures
        r@ == name_of_address(uri@),
{
    let chars: Vec<char> = text::chars_of(uri);
    let parts: Vec<Vec<char>> = text::split_at_char(chars.as_slice(), '/');
    proof {
        assert(text::contents(parts@).len() == parts@.len());
        text::lemma_pieces_step(uri@, text::just('/'), 0, seq![]);
    }
    assert(text::contents(parts@).last() == parts@[parts@.len() - 1]@);
    text::string_of(parts[parts.len() - 1].as_slice())
}

/// The profile is what the document says: the name that it states, else the one
/// that the address suggests; the display name, else the name; the text of the
/// description.
pub open spec fn profile_matches(
    p: RemoteProfile,
    uri: Seq<char>,
    domain: Seq<char>,
    inbox: String,
    doc: ActorDocument,
) -> bool {
    let username = match doc.preferred_username {
        Some(u) => u@,
        None => name_of_address(uri),
    };
    &&& p.username@ == username
    &&& p.display_name@ == (match doc.name {
        Some(n) => n@,
        None => username,
    })
    &&& p.domain@ == domain
    &&& p.inbox == inbox
    &&& p.avatar_url == doc.avatar_url
    &&& text::string_view(p.bio) == (match doc.summary {
        Some(s) => Some(content::stripped_html(s@)),
        None => None,
    })
}

/// What is kept of an actor's document; nothing where it names no inbox.
pub fn profile_of_document(uri: &str, domain: String, doc: ActorDocument) -> (r: Option<
    RemoteProfile,
>)
    ensures
        match doc.inbox {
            None => r is None,
            Some(inbox) => r matches Some(p) && profile_matches(p, uri@, domain@, inbox, doc),
        },
{
    let inbox: String = match doc.inbox {
        Some(i) => i,
        None => {
            return None;
        },
    };
    let username: String = match doc.preferred_username {
        Some(u) => u,
        None => last_segment(uri),
    };
    let display_name: String = match doc.name {
        Some(n) => n,
        None => username.clone(),
    };
    let bio: Option<String> = match doc.summary {
        Some(s) => Some(content::strip_html(s.as_str())),
        None => None,
    };
    Some(
        RemoteProfile { username, display_name, domain, inbox, avatar_url: doc.avatar_url, bio },
    )
}

// ---------------------------------------------------------------------------
// Laws.
// ---------------------------------------------------------------------------

/// The domain of an address is what stands between its scheme and the next slash; the
/// name is what stands behind the last one.
pub proof fn law_address_names_domain_and_user(host: Seq<char>, path: Seq<char>, name: Seq<char>)
    requires
        !host.contains('/'),
        !name.contains('/'),
    ensures
        domain_of("https://"@ + host) == host,
        domain_of("http://"@ + host) == host,
        domain_of("https://"@ + host + "/"@ + path) == host,
        domain_of("http://"@ + host + "/"@ + path) == host,
        name_of_address(path + "/"@ + name) == name,
        name_of_address(name) == name,
{
    reveal_strlit("https://");
    reveal_strlit("http://");
    reveal_strlit("/");
    assert("https://"@.len() == 8);
    assert("http://"@.len() == 7);
    assert("/"@.len() == 1);
    lemma_domain(host, host);
    lemma_domain(host, host + "/"@ + path);
    assert("https://"@ + (host + "/"@ + path) =~= "https://"@ + host + "/"@ + path);
    assert("http://"@ + (host + "/"@ + path) =~= "http://"@ + host + "/"@ + path);
    assert(path + "/"@ + name =~= path + seq!['/'] + name);
    lemma_last_piece(path, name);
    text::lemma_split_none(name, '/');
}

proof fn lemma_domain(host: Seq<char>, rest: Seq<char>)
    requires
        !host.contains('/'),
        host.is_prefix_of(rest),
        rest.len() > host.len() ==> rest[host.len() as int] == '/',
    ensures
        domain_of("https://"@ + rest) == host,
        domain_of("http://"@ + rest) == host,
{
    reveal_strlit("https://");
    reveal_strlit("http://");
    assert("https://"@.len() == 8);
    assert("http://"@.len() == 7);
    let f = text::just('/');
    let s = "https://"@ + rest;
    let p = "http://"@ + rest;
    assert(s.subrange(0, 8) =~= "https://"@);
    assert(s.subrange(8, s.len() as int) =~= rest);
    assert(p.subrange(0, 7) =~= "http://"@);
    assert(p.subrange(7, p.len() as int) =~= rest);
    assert(!text::starts_with(p, "https://"@)) by {
        if text::starts_with(p, "https://"@) {
            assert(p.subrange(0, 8)[4] == 's');
            assert(p[4] == ':');
        }
    }
    text::lemma_next_index(rest, f, 0);
    let n = text::next_index(rest, f, 0);
    assert forall|j: int| 0 <= j < host.len() implies rest[j] == host[j] by {
        assert(host =~= rest.subrange(0, host.len() as int));
    }
    if n < host.len() {
        assert(host.contains(host[n]));
    }
    assert(rest.subrange(0, host.len() as int) =~= host);
}

proof fn lemma_last_piece(path: Seq<char>, name: Seq<char>)
    requires
        !name.contains('/'),
    ensures
        text::split(path + seq!['/'] + name, '/').last() == name,
    decreases path.len(),
{
    let f = text::just('/');
    text::lemma_next_index(path, f, 0);
    let n = text::next_index(path, f, 0);
    text::lemma_split_none(name, '/');
    if n < path.len() {
        let head = path.subrange(0, n);
        let tail = path.subrange(n + 1, path.len() as int);
        if head.contains('/') {
            let k = choose|k: int| 0 <= k < head.len() && head[k] == '/';
            assert(path[k] == '/');
        }
        assert(path + seq!['/'] + name =~= head + seq!['/'] + (tail + seq!['/'] + name));
        text::lemma_split_cons(head, '/', tail + seq!['/'] + name);
        lemma_last_piece(tail, name);
        let more = text::split(tail + seq!['/'] + name, '/');
        lemma_split_some(tail + seq!['/'] + name);
        assert((seq![head] + more).last() == more.last());
    } else {
        if path.contains('/') {
            let k = choose|k: int| 0 <= k < path.len() && path[k] == '/';
            assert(!f(path[k]));
        }
        text::lemma_split_cons(path, '/', name);
    }
}

proof fn lemma_split_some(s: Seq<char>)
    ensures
        text::split(s, '/').len() > 0,
{
    text::lemma_pieces_step(s, text::just('/'), 0, seq![]);
}

/// A profile is that of its document: the name that it states, else the one that its
/// address ends in, shown as what it calls itself, else as its name; with its inbox,
/// its picture, and what it says of itself without tags.
pub proof fn law_profile_is_that_of_the_document(
    p: RemoteProfile,
    uri: Seq<char>,
    domain: Seq<char>,
    inbox: String,
    doc: ActorDocument,
)
    requires
        profile_matches(p, uri, domain, inbox, doc),
    ensures
        doc.preferred_username is Some ==> p.username@ == doc.preferred_username->0@,
        doc.preferred_username is None ==> p.username@ == text::split(uri, '/').last(),
        doc.name is Some ==> p.display_name@ == doc.name->0@,
        doc.name is None ==> p.display_name@ == p.username@,
        p.domain@ == domain,
        p.inbox == inbox,
        p.avatar_url == doc.avatar_url,
        doc.summary is None ==> p.bio is None,
        doc.summary is Some ==> p.bio is Some && p.bio->0@ == content::stripped_html(
            doc.summary->0@,
        ),
{
}

} // verus!
