//! Actors: those of this server, and those that its activities come from.

use crate::jobs::inbound_activity_process::content;
use crate::text;
use vstd::prelude::*;

verus! {

/// An actor as the database knows it.
pub struct Actor {
    pub id: i64,
    pub username: String,
    pub domain: String,
    pub display_name: Option<String>,
    pub actor_type: String,
    /// The account of the actor; system actors have none.
    pub user_id: Option<i64>,
}

impl Actor {
    /// The actor is one of this server.
    pub open spec fn local(self) -> bool {
        self.actor_type@ == "local"@
    }

    /// Whether the actor is one of this server.
    pub fn is_local(&self) -> (r: bool)
        ensures
            r == self.local(),
    {
        text::same_str(self.actor_type.as_str(), "local")
    }
}

/// An actor that an activity comes from.
pub struct RemoteActorInfo {
    pub actor_id: i64,
    pub username: String,
    pub display_name: String,
    pub domain: String,
    pub avatar_url: Option<String>,
    pub inbox: String,
}

/// The identifier of a local actor that was looked up by name, or why there is
/// none.
pub open spec fn admitted_local(found: Option<Actor>, username: Seq<char>) -> Result<i64, Seq<char>> {
    match found {
        None => Err("ローカルアクター '"@ + username + "' が存在しません"@),
        Some(a) => if a.local() {
            Ok(a.id)
        } else {
            Err("'"@ + username + "' はローカルアクターではありません"@)
        },
    }
}

/// What a result stands for whose error is a text.
pub open spec fn result_view<T>(r: Result<T, String>) -> Result<T, Seq<char>> {
    match r {
        Ok(v) => Ok(v),
        Err(e) => Err(e@),
    }
}

/// The identifier of a local actor that was looked up by name.
pub fn admit_local_actor(found: &Option<Actor>, username: &str) -> (r: Result<i64, String>)
    ensures
        result_view(r) == admitted_local(*found, username@),
{
    match found {
        None => Err(text::cat3("ローカルアクター '", username, "' が存在しません")),
        Some(a) => {
            if a.is_local() {
                Ok(a.id)
            } else {
                Err(text::cat3("'", username, "' はローカルアクターではありません"))
            }
        },
    }
}

/// The actor of this server that an activity claims to come from, from what was
/// found under the name in the claim: a claim that does not hold is refused.
pub fn claimed_local_actor(actor_uri: &str, found: Option<Actor>) -> (r: Result<
    RemoteActorInfo,
    String,
>)
    ensures
        match found {
            Some(a) if a.local() => {
                &&& r matches Ok(info)
                &&& info.actor_id == a.id
                &&& info.username == a.username
                &&& info.domain == a.domain
                &&& info.display_name@ == (match a.display_name {
                    Some(d) => d@,
                    None => Seq::<char>::empty(),
                })
                &&& info.avatar_url is None
                &&& info.inbox@ == Seq::<char>::empty()
            },
            _ => r matches Err(e) && e@ == "自ドメインを名乗るアクター '"@ + actor_uri@
                + "' はローカルに存在しません"@,
        },
{
    match found {
        Some(a) => {
            if a.is_local() {
                let display_name: String = match a.display_name {
                    Some(d) => d,
                    None => String::new(),
                };
                return Ok(
                    RemoteActorInfo {
                        actor_id: a.id,
                        username: a.username,
                        display_name,
                        domain: a.domain,
                        avatar_url: None,
                        inbox: String::new(),
                    },
                );
            }
        },
        None => {},
    }
    Err(text::cat3("自ドメインを名乗るアクター '", actor_uri, "' はローカルに存在しません"))
}

/// What an actor's document says of the actor.
pub struct ActorDocument {
    pub preferred_username: Option<String>,
    pub name: Option<String>,
    pub summary: Option<String>,
    pub inbox: Option<String>,
    pub avatar_url: Option<String>,
    /// The DID of the same person, as the actor states it.
    pub seiran_at_did: Option<String>,
}

/// What is kept of a remote actor.
pub struct RemoteProfile {
    pub username: String,
    pub display_name: String,
    pub domain: String,
    pub inbox: String,
    pub avatar_url: Option<String>,
    pub bio: Option<String>,
}

/// The domain of an actor's address: what stands between its second and third
/// `/`.
pub open spec fn actor_domain(actor_uri: Seq<char>) -> Seq<char> {
    let parts = text::split(actor_uri, '/');
    if parts.len() > 2 {
        parts[2]
    } else {
        seq![]
    }
}

/// The domain of an actor's address.
pub fn actor_domain_of(actor_uri: &str) -> (r: String)
    ensures
        r@ == actor_domain(actor_uri@),
{
    let chars: Vec<char> = text::chars_of(actor_uri);
    let parts: Vec<Vec<char>> = text::split_at_char(chars.as_slice(), '/');
    assert(text::contents(parts@).len() == parts@.len());
    if parts.len() > 2 {
        assert(text::contents(parts@)[2] == parts@[2]@);
        text::string_of(parts[2].as_slice())
    } else {
        let out: String = String::new();
        assert(out@ =~= seq![]);
        out
    }
}

/// What is kept of a remote actor. An actor without `preferredUsername` is
/// refused: no name is guessed from the address.
pub fn remote_profile(actor_uri: &str, doc: ActorDocument) -> (r: Result<RemoteProfile, String>)
    ensures
        match doc.preferred_username {
            None => r matches Err(e) && e@ == "リモートアクター '"@ + actor_uri@
                + "' に preferredUsername がありません"@,
            Some(username) => {
                &&& r matches Ok(p)
                &&& p.username@ == username@
                &&& p.display_name@ == (match doc.name {
                    Some(n) => n@,
                    None => username@,
                })
                &&& p.domain@ == actor_domain(actor_uri@)
                &&& p.inbox@ == (match doc.inbox {
                    Some(i) => i@,
                    None => Seq::<char>::empty(),
                })
                &&& p.avatar_url == doc.avatar_url
                &&& text::string_view(p.bio) == (match doc.summary {
                    Some(s) => Some(content::stripped_html(s@)),
                    None => None,
                })
            },
        },
{
    let username: String = match doc.preferred_username {
        Some(u) => u,
        None => {
            return Err(
                text::cat3("リモートアクター '", actor_uri, "' に preferredUsername がありません"),
            );
        },
    };
    let display_name: String = match doc.name {
        Some(n) => n,
        None => username.clone(),
    };
    let inbox: String = match doc.inbox {
        Some(i) => i,
        None => String::new(),
    };
    let bio: Option<String> = match doc.summary {
        Some(s) => Some(content::strip_html(s.as_str())),
        None => None,
    };
    Ok(
        RemoteProfile {
            username,
            display_name,
            domain: actor_domain_of(actor_uri),
            inbox,
            avatar_url: doc.avatar_url,
            bio,
        },
    )
}

/// Whether the other account that an actor states is to be looked for: it is
/// where one is stated and the two are not yet known to be one person.
pub fn needs_metadata_resolve(married: bool, stated_did: &Option<String>) -> (r: bool)
    ensures
        r == (!married && *stated_did is Some),
{
    !married && stated_did.is_some()
}

// ---------------------------------------------------------------------------
// Laws.
// ---------------------------------------------------------------------------

/// A local user is admitted where the actor that was found under their name is local:
/// as that actor. Nobody else is.
pub proof fn law_only_local_actors_are_admitted(found: Option<Actor>, username: Seq<char>)
    ensures
        admitted_local(found, username) is Ok <==> found is Some && found->0.actor_type@
            == "local"@,
        admitted_local(found, username) matches Ok(id) ==> id == found->0.id,
{
}

/// The domain of an actor is that of its address: what stands between `https://` and
/// the next slash.
pub proof fn law_domain_is_that_of_the_address(scheme: Seq<char>, host: Seq<char>, path: Seq<char>)
    requires
        !scheme.contains('/'),
        !host.contains('/'),
    ensures
        actor_domain(scheme + seq!['/', '/'] + host + seq!['/'] + path) == host,
        actor_domain(scheme + seq!['/', '/'] + host) == host,
{
    let e = Seq::<char>::empty();
    let rest = host + seq!['/'] + path;
    text::lemma_split_cons(host, '/', path);
    text::lemma_split_cons(e, '/', rest);
    text::lemma_split_cons(scheme, '/', e + seq!['/'] + rest);
    assert(scheme + seq!['/'] + (e + seq!['/'] + rest) =~= scheme + seq!['/', '/'] + host + seq![
        '/',
    ] + path);
    text::lemma_split_none(host, '/');
    text::lemma_split_cons(e, '/', host);
    text::lemma_split_cons(scheme, '/', e + seq!['/'] + host);
    assert(scheme + seq!['/'] + (e + seq!['/'] + host) =~= scheme + seq!['/', '/'] + host);
}

/// Whoever is not admitted is told why: nobody of the name is there, or they are not
/// of this server.
pub proof fn law_refusal_names_the_user(a: Actor, username: Seq<char>)
    ensures
        admitted_local(None, username) == Err::<i64, Seq<char>>(
            "ローカルアクター '"@ + username + "' が存在しません"@,
        ),
        a.actor_type@ != "local"@ ==> admitted_local(Some(a), username) == Err::<i64, Seq<char>>(
            "'"@ + username + "' はローカルアクターではありません"@,
        ),
{
}

} // verus!
