//! Looking up what the links in profiles lead to.

use crate::cooldown;
use crate::cooldown::RecentNames;
use crate::decimal;
use crate::json;
use crate::json::{Json, JsonModel};
use crate::link_target::{ResolveError, ResolvedTarget};
use crate::text;
use vstd::prelude::*;

verus! {

/// How long the same link is not looked up again: ten minutes.
pub const LINK_RESOLVE_COOLDOWN: u64 = 600_000_000_000;

/// Whether the link is looked up now.
pub fn should_enqueue(recent: &mut RecentNames, url: &str, now: u64) -> (r: bool)
    ensures
        r == cooldown::admits(old(recent)@, url@, now, LINK_RESOLVE_COOLDOWN),
        final(recent)@ == cooldown::after_asking(old(recent)@, url@, now, LINK_RESOLVE_COOLDOWN),
{
    recent.ask(url, now, LINK_RESOLVE_COOLDOWN)
}

/// What a link leads to.
#[derive(Debug, Clone, Copy, PartialEq, Eq, Structural)]
pub enum LinkResolution {
    /// Nothing that can be opened here.
    Nothing,
    Actor(i64),
    Post(i64),
}

impl LinkResolution {
    /// The word under which the resolution is kept.
    pub open spec fn word(self) -> Seq<char> {
        match self {
            LinkResolution::Nothing => "none"@,
            LinkResolution::Actor(_) => "actor"@,
            LinkResolution::Post(_) => "post"@,
        }
    }

    /// The word under which the resolution is kept.
    pub fn kind(self) -> (r: &'static str)
        ensures
            r@ == self.word(),
    {
        match self {
            LinkResolution::Nothing => "none",
            LinkResolution::Actor(_) => "actor",
            LinkResolution::Post(_) => "post",
        }
    }
}

/// What a link leads to, where `result` is what came of resolving it; a link that
/// is no target has none. While the target is still being brought in nothing is
/// settled.
pub open spec fn link_resolution(result: Option<Result<ResolvedTarget, ResolveError>>) -> Option<
    LinkResolution,
> {
    match result {
        Some(Ok(ResolvedTarget::Actor(a))) => Some(LinkResolution::Actor(a.id)),
        Some(Ok(ResolvedTarget::Post(id))) => Some(LinkResolution::Post(id)),
        Some(Err(ResolveError::ImportPending)) => None,
        _ => Some(LinkResolution::Nothing),
    }
}

/// What a link leads to.
pub fn decide_resolution(result: &Option<Result<ResolvedTarget, ResolveError>>) -> (r: Option<
    LinkResolution,
>)
    ensures
        r == link_resolution(*result),
{
    match result {
        Some(Ok(ResolvedTarget::Actor(a))) => Some(LinkResolution::Actor(a.id)),
        Some(Ok(ResolvedTarget::Post(id))) => Some(LinkResolution::Post(*id)),
        Some(Err(ResolveError::ImportPending)) => None,
        _ => Some(LinkResolution::Nothing),
    }
}

/// What readers are shown of an actor that a link leads to.
pub struct LinkedActor {
    pub actor_id: i64,
    pub username: String,
    pub domain: String,
    pub actor_type: String,
    pub avatar_url: Option<String>,
}

/// What readers are shown of an actor.
pub open spec fn actor_members(a: LinkedActor) -> Seq<json::MemberModel> {
    seq![
        json::member_of("username"@, JsonModel::Str(a.username@)),
        json::member_of("domain"@, JsonModel::Str(a.domain@)),
        json::member_of("actorType"@, JsonModel::Str(a.actor_type@)),
        json::member_of("actorId"@, JsonModel::Str(decimal::int_text(a.actor_id as int))),
        json::member_of("avatarUrl"@, json::text_or_null(text::string_view(a.avatar_url))),
    ]
}

/// The event that tells readers what a link leads to.
pub open spec fn link_event(
    url: Seq<char>,
    resolution: LinkResolution,
    actor: Option<LinkedActor>,
) -> JsonModel {
    JsonModel::Obj(
        seq![
            json::member_of("url"@, JsonModel::Str(url)),
            json::member_of("kind"@, JsonModel::Str(resolution.word())),
        ] + (match resolution {
            LinkResolution::Nothing => seq![],
            LinkResolution::Actor(_) => match actor {
                Some(a) => actor_members(a),
                None => seq![],
            },
            LinkResolution::Post(id) => seq![
                json::member_of("postId"@, JsonModel::Str(decimal::int_text(id as int))),
            ],
        }),
    )
}

/// The event that tells readers what a link leads to; none where it leads to
/// nothing. `actor` is the actor as it is found in the database.
pub fn make_link_event(url: &str, resolution: LinkResolution, actor: &Option<LinkedActor>) -> (r:
    Option<Json>)
    ensures
        json::opt_model(r) == (if resolution is Nothing {
            None
        } else {
            Some(link_event(url@, resolution, *actor))
        }),
{
    let mut ms: Vec<json::Member> = vec![
        json::member("url", json::text_json(url)),
        json::member("kind", json::text_json(resolution.kind())),
    ];
    match resolution {
        LinkResolution::Nothing => {
            return None;
        },
        LinkResolution::Post(id) => {
            ms.push(json::member("postId", json::text_json(decimal::format_i64(id).as_str())));
        },
        LinkResolution::Actor(_) => match actor {
            None => {},
            Some(a) => {
                let avatar: Option<&str> = match &a.avatar_url {
                    Some(u) => Some(u.as_str()),
                    None => None,
                };
                ms.push(json::member("username", json::text_json(a.username.as_str())));
                ms.push(json::member("domain", json::text_json(a.domain.as_str())));
                ms.push(json::member("actorType", json::text_json(a.actor_type.as_str())));
                ms.push(
                    json::member(
                        "actorId",
                        json::text_json(decimal::format_i64(a.actor_id).as_str()),
                    ),
                );
                ms.push(json::member("avatarUrl", json::opt_text_json(avatar)));
            },
        },
    }
    assert(json::member_models(ms@) =~= link_event(url@, resolution, *actor)->Obj_0);
    Some(json::object(ms))
}

// ---------------------------------------------------------------------------
// Laws.
// ---------------------------------------------------------------------------

/// A link leads to the actor or the post that was found; an import that is still
/// going on leaves it open, and anything else settles it as leading nowhere.
pub proof fn law_link_leads_to_what_was_found(result: Result<ResolvedTarget, ResolveError>)
    ensures
        (match result {
            Ok(ResolvedTarget::Actor(a)) => link_resolution(Some(result)) == Some(
                LinkResolution::Actor(a.id),
            ),
            Ok(ResolvedTarget::Post(id)) => link_resolution(Some(result)) == Some(
                LinkResolution::Post(id),
            ),
            Err(e) => (link_resolution(Some(result)) is None <==> e is ImportPending) && (
            link_resolution(Some(result)) is Some ==> link_resolution(Some(result))->0
                is Nothing),
        }),
        link_resolution(None) == Some(LinkResolution::Nothing),
{
}

/// The event names the link and what it leads to, by a word of its own: a post by its
/// number, an actor by what is known of them.
pub proof fn law_event_tells_where_the_link_leads(
    url: Seq<char>,
    id: i64,
    a: LinkedActor,
    resolution: LinkResolution,
)
    ensures
        link_event(url, resolution, Some(a)).text_at("url"@) == Some(url),
        resolution is Nothing ==> link_event(url, resolution, Some(a)).text_at("kind"@) == Some(
            "none"@,
        ),
        ({
            let e = link_event(url, LinkResolution::Post(id), Some(a));
            &&& e.text_at("kind"@) == Some("post"@)
            &&& e.text_at("postId"@) is Some
            &&& decimal::denoted_i64(e.text_at("postId"@)->0) == Some(id)
            &&& e.member("actorId"@) is None
        }),
        ({
            let e = link_event(url, LinkResolution::Actor(id), Some(a));
            &&& e.text_at("kind"@) == Some("actor"@)
            &&& e.text_at("username"@) == Some(a.username@)
            &&& e.text_at("domain"@) == Some(a.domain@)
            &&& e.text_at("actorType"@) == Some(a.actor_type@)
            &&& e.text_at("avatarUrl"@) == text::string_view(a.avatar_url)
            &&& e.text_at("actorId"@) is Some
            &&& decimal::denoted_i64(e.text_at("actorId"@)->0) == Some(a.actor_id)
            &&& e.member("postId"@) is None
        }),
{
    reveal_strlit("url");
    reveal_strlit("kind");
    reveal_strlit("postId");
    reveal_strlit("username");
    reveal_strlit("domain");
    reveal_strlit("actorType");
    reveal_strlit("actorId");
    reveal_strlit("avatarUrl");
    assert("url"@.len() == 3);
    assert("kind"@.len() == 4);
    assert("postId"@.len() == 6);
    assert("username"@.len() == 8);
    assert("domain"@.len() == 6);
    assert("actorType"@.len() == 9);
    assert("actorId"@.len() == 7);
    assert("avatarUrl"@.len() == 9);
    assert("postId"@[0] != "domain"@[0]);
    assert("actorType"@[1] != "avatarUrl"@[1]);
    decimal::law_notation_denotes(id as int);
    decimal::law_notation_denotes(a.actor_id as int);
    reveal_with_fuel(json::first_member, 9);
}

} // verus!
