use seiran_common::jobs::inbound_activity_process::actor::{
    actor_domain_of, admit_local_actor, claimed_local_actor, needs_metadata_resolve,
    remote_profile, Actor, ActorDocument, RemoteActorInfo,
};
use seiran_common::jobs::inbound_activity_process::announce::{
    decide_announce, read_announce, repost_columns, repost_notice, AnnounceDecision,
};
use seiran_common::jobs::inbound_activity_process::block::{block_effects, read_block};
use seiran_common::jobs::inbound_activity_process::create::{
    broadcast_created_note, creator, decide_notice, dedup_ids, home_recipients, mention_targets,
    notices_for_note, Broadcast, CreatedNoteContext, NoticeKind,
};
use seiran_common::jobs::inbound_activity_process::delete::{
    decide_delete, is_from_author, read_delete,
};
use seiran_common::jobs::inbound_activity_process::flag::{
    cut_reason, decide_flag_subject, read_flag, subject_type, FlagAnswer,
};
use seiran_common::jobs::inbound_activity_process::follow::{
    check_accepting_actor, check_asking_actor, check_follower, decide_follow,
    make_accept_activity, make_follow_activity_id, make_follow_event,
    parse_local_follow_activity_id, read_accept, read_follow, tells_of_acceptance, AcceptSubject,
    FollowDecision,
};
use seiran_common::jobs::inbound_activity_process::move_actor::{
    check_move, confirm_move, migrate_one_follow, moving_followers, read_move, MigrationKind,
    MoveStep,
};
use seiran_common::jobs::inbound_activity_process::note_save::{DeliveryMeta, SeiranPost, Visibility};
use seiran_common::jobs::inbound_activity_process::poll_vote::{
    count_vote, find_option, make_vote_event, read_poll_vote,
};
use seiran_common::jobs::inbound_activity_process::reaction::{
    make_reaction_event, make_reaction_tag, reaction_type, read_reaction,
};
use seiran_common::jobs::inbound_activity_process::reference::{
    extract_attributed_to, resolve_pending_reference_with_timeout, resolve_ref, resolve_reference,
    resolve_reference_db_only, FetchedReference, RefStatus, ReferenceOutcome,
    ReferenceResolutionMode, ReferenceStep, ReferenceUpdate,
};
use seiran_common::jobs::inbound_activity_process::relay::{
    decide_reply, follow_object_id_of, relay_id_for_follow_object, Relay, ReplyAction,
};
use seiran_common::jobs::inbound_activity_process::undo::{
    decide_dropped_pair, read_undo, UndoSubject,
};
use seiran_common::jobs::inbound_activity_process::update::{
    decide_claim, decide_merge, decide_poll_update, read_update, ClaimingPost, MergeCandidate,
    UpdateSubject,
};
use seiran_common::jobs::inbound_activity_process::{as_string_list, route_activity, Route};
use seiran_common::json::{Json, Member};
use seiran_common::outside::Timestamp;

fn txt(s: &str) -> Json {
    Json::Str(s.to_string())
}

fn arr(v: Vec<Json>) -> Json {
    Json::Arr(v)
}

fn obj(v: Vec<(&str, Json)>) -> Json {
    Json::Obj(
        v.into_iter()
            .map(|(k, value)| Member { key: k.to_string(), value })
            .collect(),
    )
}

fn actor(id: i64, username: &str, kind: &str) -> Actor {
    Actor {
        id,
        username: username.to_string(),
        domain: "seiran.example".to_string(),
        display_name: None,
        actor_type: kind.to_string(),
        user_id: Some(id),
    }
}

fn remote(id: i64, inbox: &str) -> RemoteActorInfo {
    RemoteActorInfo {
        actor_id: id,
        username: "bob".to_string(),
        display_name: "Bob".to_string(),
        domain: "remote.example".to_string(),
        avatar_url: None,
        inbox: inbox.to_string(),
    }
}

fn meta(actor_id: i64, kind: &str) -> DeliveryMeta {
    DeliveryMeta {
        actor_id,
        actor_type: kind.to_string(),
        visibility: "public".to_string(),
        thread_root_post_id: None,
    }
}

#[test]
fn activities_are_routed_by_their_type() {
    let route = |kind: &str| route_activity(&obj(vec![("type", txt(kind))]));
    assert_eq!(route("Follow"), Route::Follow);
    assert_eq!(route("Block"), Route::Block);
    assert_eq!(route("Accept"), Route::Accept);
    assert_eq!(route("Reject"), Route::Reject);
    assert_eq!(route("Undo"), Route::Undo);
    assert_eq!(route("Delete"), Route::Delete);
    assert_eq!(route("Update"), Route::Update);
    assert_eq!(route("Move"), Route::Move);
    assert_eq!(route("Announce"), Route::Announce);
    assert_eq!(route("Flag"), Route::Flag);
    assert_eq!(route("Like"), Route::Reaction);
    assert_eq!(route("EmojiReact"), Route::Reaction);
    assert_eq!(route("Travel"), Route::Ignore);
    assert_eq!(route("Create"), Route::Ignore);
    assert_eq!(route_activity(&Json::Null), Route::Ignore);
}

#[test]
fn created_objects_are_told_apart() {
    let create = |object: Json| route_activity(&obj(vec![("type", txt("Create")), ("object", object)]));
    assert_eq!(create(obj(vec![("type", txt("Note"))])), Route::CreateNote);
    assert_eq!(create(obj(vec![("type", txt("Question"))])), Route::CreateNote);
    assert_eq!(
        create(obj(vec![
            ("type", txt("Note")),
            ("name", txt("tea")),
            ("inReplyTo", txt("https://seiran.example/notes/1")),
        ])),
        Route::PollVote
    );
    assert_eq!(create(obj(vec![("type", txt("Video"))])), Route::Ignore);
}

#[test]
fn string_lists_are_read_in_both_forms() {
    assert_eq!(as_string_list(&txt("a")), vec!["a"]);
    assert_eq!(as_string_list(&arr(vec![txt("a"), Json::Int(1), txt("b")])), vec!["a", "b"]);
    assert!(as_string_list(&Json::Null).is_empty());
}

#[test]
fn local_actors_are_admitted() {
    assert_eq!(admit_local_actor(&Some(actor(7, "alice", "local")), "alice"), Ok(7));
    assert_eq!(
        admit_local_actor(&None, "alice"),
        Err("ローカルアクター 'alice' が存在しません".to_string())
    );
    assert_eq!(
        admit_local_actor(&Some(actor(7, "alice", "fedi")), "alice"),
        Err("'alice' はローカルアクターではありません".to_string())
    );
}

#[test]
fn false_claims_to_be_local_are_refused() {
    let uri = "https://seiran.example/users/alice";
    let info = claimed_local_actor(uri, Some(actor(7, "alice", "local")));
    assert!(matches!(info, Ok(i) if i.actor_id == 7 && i.inbox.is_empty() && i.display_name.is_empty()));
    let refused = claimed_local_actor(uri, None);
    assert!(matches!(
        refused,
        Err(e) if e == "自ドメインを名乗るアクター 'https://seiran.example/users/alice' はローカルに存在しません"
    ));
}

#[test]
fn remote_profiles_need_a_user_name() {
    let doc = |name: Option<&str>| ActorDocument {
        preferred_username: name.map(str::to_string),
        name: None,
        summary: Some("<p>Hi &amp; bye</p>".to_string()),
        inbox: None,
        avatar_url: None,
        seiran_at_did: None,
    };
    let uri = "https://remote.example/users/1";
    let p = remote_profile(uri, doc(Some("bob")));
    assert!(matches!(
        p,
        Ok(p) if p.username == "bob" && p.display_name == "bob" && p.domain == "remote.example"
            && p.inbox.is_empty() && p.bio.as_deref() == Some("Hi & bye")
    ));
    assert!(matches!(
        remote_profile(uri, doc(None)),
        Err(e) if e == "リモートアクター 'https://remote.example/users/1' に preferredUsername がありません"
    ));
    assert_eq!(actor_domain_of("no address"), "");
    assert!(needs_metadata_resolve(false, &Some("did:plc:a".to_string())));
    assert!(!needs_metadata_resolve(true, &Some("did:plc:a".to_string())));
    assert!(!needs_metadata_resolve(false, &None));
}

#[test]
fn follow_requests_are_read_or_refused() {
    let read = |v: Vec<(&str, Json)>| read_follow(&obj(v), "seiran.example");
    let ok = read(vec![
        ("actor", txt("https://remote.example/users/bob")),
        ("object", txt("https://seiran.example/users/alice")),
    ]);
    assert!(matches!(
        ok,
        Ok(q) if q.local_username == "alice" && q.follower_uri == "https://remote.example/users/bob"
    ));
    assert!(matches!(read(vec![]), Err(e) if e == "Follow: actor フィールドがありません"));
    assert!(matches!(
        read(vec![("actor", txt("https://remote.example/users/bob"))]),
        Err(e) if e == "Follow: object フィールドがありません"
    ));
    assert!(matches!(
        read(vec![
            ("actor", txt("https://remote.example/users/bob")),
            ("object", txt("https://other.example/users/alice")),
        ]),
        Err(e) if e == "Follow: object URI が自ドメインのアクターを指していません"
    ));
}

#[test]
fn followers_without_an_inbox_are_refused() {
    assert!(check_follower(&remote(1, "https://remote.example/inbox")).is_ok());
    assert_eq!(
        check_follower(&remote(1, "")),
        Err("Follow: リモートアクターの inbox が取得できません".to_string())
    );
    assert_eq!(decide_follow(1, 2, true), FollowDecision::Ignore);
    assert_eq!(
        decide_follow(1, 2, false),
        FollowDecision::Accept { follower_actor_id: 2, local_actor_id: 1 }
    );
}

#[test]
fn an_accepted_request_is_answered_with_itself() {
    let request = obj(vec![("type", txt("Follow")), ("id", txt("https://remote.example/1"))]);
    let accept = make_accept_activity("seiran.example", "alice", 42, &request);
    assert_eq!(accept.text_at("type"), Some("Accept"));
    assert_eq!(accept.text_at("id"), Some("https://seiran.example/accepts/42"));
    assert_eq!(accept.text_at("actor"), Some("https://seiran.example/users/alice"));
    assert!(accept.get("object").unwrap().same(&request));
    let event = make_follow_event("bob", "remote.example", None);
    let shown = event.get("actor").unwrap();
    assert_eq!(shown.text_at("username"), Some("bob"));
    assert!(matches!(shown.get("displayName"), Some(Json::Null)));
}

#[test]
fn a_follow_identifier_names_its_parties() {
    let id = make_follow_activity_id("seiran.example", 123, -456);
    assert_eq!(id, "https://seiran.example/activities/follow/123--456");
    assert_eq!(parse_local_follow_activity_id(&id, "seiran.example"), Some((123, -456)));
    assert_eq!(
        parse_local_follow_activity_id("https://seiran.example/activities/follow/a-b", "seiran.example"),
        None
    );
}

#[test]
fn acceptances_are_read_in_both_forms() {
    let read = |v: Vec<(&str, Json)>| read_accept(&obj(v), "seiran.example");
    let bob = "https://remote.example/users/bob";
    assert!(matches!(
        read(vec![
            ("actor", txt(bob)),
            ("object", txt("https://seiran.example/activities/follow/1-2")),
        ]),
        Ok(AcceptSubject::ByIds { local_actor_id: 1, remote_actor_id: 2, .. })
    ));
    assert!(matches!(
        read(vec![
            ("actor", txt(bob)),
            (
                "object",
                obj(vec![
                    ("type", txt("Follow")),
                    ("actor", txt("https://seiran.example/users/alice")),
                ]),
            ),
        ]),
        Ok(AcceptSubject::ByName { local_username, .. }) if local_username == "alice"
    ));
    assert!(matches!(
        read(vec![("actor", txt(bob)), ("object", txt("https://other.example/1"))]),
        Ok(AcceptSubject::Ignore)
    ));
    assert!(matches!(read(vec![]), Err(e) if e == "Accept: actor がありません"));
    assert!(matches!(
        read(vec![("actor", txt(bob)), ("object", obj(vec![("type", txt("Follow"))]))]),
        Err(e) if e == "Accept/Follow: object.actor がありません"
    ));
    assert!(matches!(
        read(vec![
            ("actor", txt(bob)),
            ("object", obj(vec![("type", txt("Follow")), ("actor", txt(bob))])),
        ]),
        Err(e) if e == "Accept: object.actor がローカルアクターではありません"
    ));
}

#[test]
fn only_the_asked_actor_accepts() {
    let bob = Some(actor(2, "bob", "fedi"));
    assert_eq!(check_accepting_actor(&bob, "u", Some(2)), Ok(2));
    assert_eq!(check_accepting_actor(&bob, "u", None), Ok(2));
    assert_eq!(
        check_accepting_actor(&bob, "u", Some(3)),
        Err("Accept: actor が Follow Activity の送信先と一致しません".to_string())
    );
    assert_eq!(
        check_accepting_actor(&None, "u", Some(3)),
        Err("リモートアクター 'u' が DB に見つかりません".to_string())
    );
    let subject = AcceptSubject::ByIds {
        remote_uri: "u".to_string(),
        local_actor_id: 9,
        remote_actor_id: 2,
    };
    assert_eq!(
        check_asking_actor(&None, &subject),
        Err("ローカルアクター ID '9' が見つかりません".to_string())
    );
    assert_eq!(check_asking_actor(&Some(actor(9, "alice", "local")), &subject), Ok(9));
    assert_eq!(
        check_asking_actor(&Some(actor(9, "alice", "fedi")), &subject),
        Err("actor ID '9' はローカルアクターではありません".to_string())
    );
    assert!(tells_of_acceptance(1));
    assert!(!tells_of_acceptance(0));
}

#[test]
fn relay_replies_must_come_from_the_relay() {
    let relay = || Some(Relay { id: 5, inbox_url: "https://relay.example/inbox".to_string() });
    let reply = |a: &str| obj(vec![("actor", txt(a)), ("object", txt("https://seiran.example/f/1"))]);
    assert_eq!(relay_id_for_follow_object(&reply("https://relay.example/actor"), relay()), Ok(Some(5)));
    assert_eq!(relay_id_for_follow_object(&reply("https://relay.example/actor"), None), Ok(None));
    assert_eq!(
        relay_id_for_follow_object(&reply("https://evil.example/actor"), relay()),
        Err("リレー応答actorが登録inboxと同一originではありません: https://evil.example/actor".to_string())
    );
    assert_eq!(
        relay_id_for_follow_object(&reply("not a url"), relay()),
        Err("リレー応答actorが不正なURLです".to_string())
    );
    assert_eq!(
        relay_id_for_follow_object(&obj(vec![]), relay()),
        Err("リレー応答にactorがありません".to_string())
    );
    assert_eq!(
        relay_id_for_follow_object(
            &reply("https://relay.example/actor"),
            Some(Relay { id: 5, inbox_url: "inbox".to_string() }),
        ),
        Err("登録リレーURLが不正です".to_string())
    );
    assert_eq!(follow_object_id_of(&reply("a")), Some("https://seiran.example/f/1".to_string()));
    assert_eq!(decide_reply(Route::Accept, Some(5)), ReplyAction::RelayAccepted(5));
    assert_eq!(decide_reply(Route::Accept, None), ReplyAction::Accept);
    assert_eq!(decide_reply(Route::Reject, Some(5)), ReplyAction::RelayRejected(5));
    assert_eq!(decide_reply(Route::Reject, None), ReplyAction::Ignore);
    assert_eq!(decide_reply(Route::Undo, None), ReplyAction::Undo);
}

#[test]
fn blocks_are_read_or_refused() {
    let read = |v: Vec<(&str, Json)>| read_block(&obj(v), "seiran.example");
    assert!(matches!(
        read(vec![("actor", txt("b")), ("object", txt("https://seiran.example/users/alice"))]),
        Ok(q) if q.blocker_uri == "b" && q.local_username == "alice"
    ));
    assert!(matches!(read(vec![]), Err(e) if e == "Block: actor フィールドがありません"));
    assert!(matches!(
        read(vec![("actor", txt("b"))]),
        Err(e) if e == "Block: object フィールドがありません"
    ));
    assert!(matches!(
        read(vec![("actor", txt("b")), ("object", txt("https://other.example/users/alice"))]),
        Err(e) if e == "Block: object URI が自ドメインのアクターを指していません"
    ));
    let e = block_effects(2, 1);
    assert_eq!(e.block, (2, 1));
    assert_eq!(e.dropped_follow, (1, 2));
}

#[test]
fn what_is_taken_back_is_told_by_its_type() {
    let read = |v: Vec<(&str, Json)>| {
        read_undo(&obj(vec![("actor", txt("b")), ("object", obj(v))]), "seiran.example")
    };
    assert!(matches!(
        read(vec![("type", txt("Like")), ("id", txt("x"))]),
        Ok(UndoSubject::Reaction { activity_id: Some(id) }) if id == "x"
    ));
    assert!(matches!(
        read(vec![("type", txt("EmojiReact"))]),
        Ok(UndoSubject::Reaction { activity_id: None })
    ));
    assert!(matches!(
        read(vec![("type", txt("Block")), ("object", txt("https://other.example/users/a"))]),
        Ok(UndoSubject::Block { local_username, .. }) if local_username.is_empty()
    ));
    assert!(matches!(
        read(vec![("type", txt("Announce")), ("id", txt("y"))]),
        Ok(UndoSubject::Announce { announce_id: Some(id) }) if id == "y"
    ));
    assert!(matches!(
        read(vec![("type", txt("Follow")), ("object", txt("https://seiran.example/users/alice"))]),
        Ok(UndoSubject::Follow { follower_uri, local_username })
            if follower_uri == "b" && local_username == "alice"
    ));
    assert!(matches!(read(vec![("type", txt("Create"))]), Ok(UndoSubject::Ignore)));
    assert!(matches!(
        read(vec![("type", txt("Follow"))]),
        Err(e) if e == "Undo/Follow: object.object フィールドがありません"
    ));
    assert!(matches!(
        read(vec![("type", txt("Follow")), ("object", txt("https://other.example/users/a"))]),
        Err(e) if e == "Undo/Follow: object.object URI が自ドメインのアクターを指していません"
    ));
    assert!(matches!(
        read_undo(&obj(vec![("object", obj(vec![("type", txt("Follow"))]))]), "seiran.example"),
        Err(e) if e == "Undo: actor フィールドがありません"
    ));
    assert_eq!(
        decide_dropped_pair(&Some(actor(2, "bob", "fedi")), &Some(actor(1, "alice", "local"))),
        Some((2, 1))
    );
    assert_eq!(
        decide_dropped_pair(&Some(actor(2, "bob", "fedi")), &Some(actor(1, "alice", "fedi"))),
        None
    );
}

#[test]
fn only_authors_delete_their_posts() {
    assert_eq!(read_delete(&obj(vec![("object", txt("x"))])), Some("x".to_string()));
    assert_eq!(
        read_delete(&obj(vec![("object", obj(vec![("id", txt("y"))]))])),
        Some("y".to_string())
    );
    assert_eq!(read_delete(&obj(vec![("object", arr(vec![txt("x")]))])), None);
    assert_eq!(decide_delete(Some((10, 2)), Some(2)), Some(10));
    assert_eq!(decide_delete(Some((10, 2)), Some(3)), None);
    assert_eq!(decide_delete(Some((10, 2)), None), None);
    assert_eq!(decide_delete(None, Some(2)), None);
    assert!(is_from_author(Some(2), 2));
}

#[test]
fn changed_polls_and_notes_are_told_apart() {
    let poll = obj(vec![
        ("actor", txt("b")),
        (
            "object",
            obj(vec![
                ("type", txt("Question")),
                ("id", txt("q")),
                ("oneOf", arr(vec![obj(vec![("name", txt("tea"))])])),
            ]),
        ),
    ]);
    assert!(matches!(
        read_update(&poll),
        UpdateSubject::Poll { question_id, actor_uri, .. } if question_id == "q" && actor_uri == "b"
    ));
    let note = obj(vec![("object", obj(vec![("type", txt("Note")), ("id", txt("n"))]))]);
    assert!(matches!(
        read_update(&note),
        UpdateSubject::Note { ap_object_id, actor_uri } if ap_object_id == "n" && actor_uri.is_empty()
    ));
    let other = obj(vec![("object", obj(vec![("type", txt("Person")), ("id", txt("p"))]))]);
    assert!(matches!(read_update(&other), UpdateSubject::Ignore));
    assert_eq!(decide_poll_update(Some((1, 2)), Some(2)), Some(1));
    assert_eq!(decide_poll_update(Some((1, 2)), Some(3)), None);
}

#[test]
fn posts_are_merged_only_where_both_state_each_other() {
    let ext = Some(SeiranPost {
        body: String::new(),
        emoji_map: Json::Null,
        visibility: "public".to_string(),
        counterpart_post_id: Some("at://x".to_string()),
        content_warning: None,
        poll: None,
    });
    let open = Some(ClaimingPost { post_id: 1, author_id: 2, at_uri: None });
    let settled = Some(ClaimingPost { post_id: 1, author_id: 2, at_uri: Some("at://y".to_string()) });
    assert_eq!(decide_claim(&ext, &open, Some(2)), Some("at://x".to_string()));
    assert_eq!(decide_claim(&ext, &open, Some(3)), None);
    assert_eq!(decide_claim(&ext, &settled, Some(2)), None);
    assert_eq!(decide_claim(&None, &open, Some(2)), None);
    let candidate = |claimed: Option<&str>| {
        Some(MergeCandidate {
            post_id: 9,
            author_id: 2,
            claimed_ap_object_id: claimed.map(str::to_string),
        })
    };
    assert_eq!(decide_merge(&candidate(Some("n")), "n", 2), Some(9));
    assert_eq!(decide_merge(&candidate(Some("m")), "n", 2), None);
    assert_eq!(decide_merge(&candidate(None), "n", 2), None);
    assert_eq!(decide_merge(&candidate(Some("n")), "n", 3), None);
    assert_eq!(decide_merge(&None, "n", 2), None);
}

#[test]
fn reposts_are_read_and_kept_once() {
    let full = obj(vec![
        ("id", txt("a1")),
        ("actor", txt("b")),
        ("object", txt("n")),
        ("to", txt("public")),
        ("cc", arr(vec![txt("x"), txt("y")])),
    ]);
    assert!(matches!(
        read_announce(&full),
        Ok(q) if q.announce_id == "a1" && q.to == vec!["public"] && q.cc == vec!["x", "y"]
    ));
    assert!(matches!(read_announce(&obj(vec![])), Err(e) if e == "Announce: id がありません"));
    assert!(matches!(
        read_announce(&obj(vec![("id", txt("a"))])),
        Err(e) if e == "Announce: actor がありません"
    ));
    assert!(matches!(
        read_announce(&obj(vec![("id", txt("a")), ("actor", txt("b"))])),
        Err(e) if e == "Announce: object がありません"
    ));
    assert_eq!(decide_announce(true, None, false), AnnounceDecision::Ignore);
    assert_eq!(decide_announce(false, Some(1), true), AnnounceDecision::Ignore);
    assert_eq!(
        decide_announce(false, Some(1), false),
        AnnounceDecision::Insert { repost_of_post_id: Some(1) }
    );
    assert_eq!(
        decide_announce(false, None, true),
        AnnounceDecision::Insert { repost_of_post_id: None }
    );
    assert_eq!(repost_columns(ReferenceOutcome::Resolved(4)), (Some(4), None, None));
    assert_eq!(repost_notice(Some(1), &Some(meta(7, "local")), 8), Some(7));
    assert_eq!(repost_notice(None, &Some(meta(7, "local")), 8), None);
    assert_eq!(repost_notice(Some(1), &Some(meta(7, "fedi")), 8), None);
}

#[test]
fn reactions_are_told_by_their_content() {
    let like = obj(vec![("actor", txt("b")), ("object", obj(vec![("id", txt("n"))]))]);
    let r = read_reaction(&like).ok().unwrap();
    assert_eq!(r.object_uri, "n");
    assert_eq!(r.content, "❤️");
    assert_eq!(reaction_type(&r), "like");
    assert!(make_reaction_tag(&r).is_none());
    let cat = obj(vec![
        ("type", txt("Like")),
        ("actor", txt("b")),
        ("object", txt("n")),
        ("id", txt("a1")),
        ("_misskey_reaction", txt(":blobcat:")),
        (
            "tag",
            arr(vec![obj(vec![
                ("type", txt("Emoji")),
                ("name", txt(":blobcat:")),
                ("icon", obj(vec![("url", txt("https://remote.example/c.png"))])),
            ])]),
        ),
    ]);
    let r = read_reaction(&cat).ok().unwrap();
    assert_eq!(reaction_type(&r), "emoji");
    assert_eq!(r.emoji_url.as_deref(), Some("https://remote.example/c.png"));
    let tag = make_reaction_tag(&r).unwrap();
    assert_eq!(tag.text_at("name"), Some(":blobcat:"));
    assert_eq!(tag.get("icon").unwrap().text_at("url"), Some("https://remote.example/c.png"));
    let event = make_reaction_event(12, &r, &remote(2, ""));
    assert_eq!(event.text_at("postId"), Some("12"));
    assert_eq!(event.text_at("emoji"), Some(":blobcat:"));
    assert_eq!(event.get("actor").unwrap().text_at("displayName"), Some("Bob"));
    assert!(matches!(
        read_reaction(&obj(vec![])),
        Err(e) if e == "Reaction: actor フィールドがありません"
    ));
    assert!(matches!(
        read_reaction(&obj(vec![("actor", txt("b"))])),
        Err(e) if e == "Reaction: object フィールドがありません"
    ));
}

#[test]
fn a_vote_counts_for_its_option_only() {
    let activity = obj(vec![
        ("actor", txt("b")),
        (
            "object",
            obj(vec![("inReplyTo", txt("q")), ("name", txt("coffee")), ("id", txt("v"))]),
        ),
    ]);
    let vote = read_poll_vote(&activity).ok().unwrap();
    assert_eq!(vote.activity_id.as_deref(), Some("v"));
    let option = |name: &str, votes: i64| obj(vec![("name", txt(name)), ("votes", Json::Int(votes))]);
    let poll = obj(vec![
        ("multiple", Json::Bool(false)),
        ("options", arr(vec![option("tea", 3), option("coffee", 4)])),
    ]);
    let i = find_option(&poll, &vote.option_name).unwrap();
    assert_eq!(i, 1);
    assert_eq!(find_option(&poll, "milk"), None);
    let expected = obj(vec![
        ("multiple", Json::Bool(false)),
        ("options", arr(vec![option("tea", 3), option("coffee", 5)])),
    ]);
    assert!(count_vote(&poll, i).same(&expected));
    assert!(make_vote_event(1, 2, 2).is_none());
    assert_eq!(make_vote_event(1, 2, 3).unwrap().text_at("actorId"), Some("3"));
    let err = |v: Vec<(&str, Json)>| read_poll_vote(&obj(v)).err().unwrap();
    assert_eq!(err(vec![]), "PollVote: actor がありません");
    assert_eq!(err(vec![("actor", txt("b"))]), "PollVote: inReplyTo がありません");
    assert_eq!(
        err(vec![("actor", txt("b")), ("object", obj(vec![("inReplyTo", txt("q"))]))]),
        "PollVote: name がありません"
    );
}

#[test]
fn a_report_is_about_the_first_post_or_the_last_user() {
    let objects: Vec<String> = vec![
        "https://seiran.example/users/alice".to_string(),
        "https://seiran.example/users/carol".to_string(),
        "https://seiran.example/notes/77".to_string(),
    ];
    let found = |owner: Option<i64>, a: Option<Actor>| FlagAnswer { owner, actor: a };
    let answers = vec![
        found(None, Some(actor(1, "alice", "local"))),
        found(None, Some(actor(3, "carol", "local"))),
        found(None, None),
    ];
    let s = decide_flag_subject(&objects, &answers, "seiran.example").ok().unwrap();
    assert_eq!((s.actor_id, s.post_id), (3, None));
    assert_eq!(subject_type(&s), "actor");
    let answers = vec![
        found(None, Some(actor(1, "alice", "local"))),
        found(None, None),
        found(Some(8), None),
    ];
    let s = decide_flag_subject(&objects, &answers, "seiran.example").ok().unwrap();
    assert_eq!((s.actor_id, s.post_id), (8, Some(77)));
    assert_eq!(subject_type(&s), "post");
    assert_eq!(
        decide_flag_subject(&objects, &Vec::new(), "seiran.example").err().unwrap(),
        "Flag: ローカルの通報対象を解決できません"
    );
}

#[test]
fn reasons_keep_both_limits() {
    assert_eq!(cut_reason("short"), "short");
    assert_eq!(cut_reason(&"a".repeat(400)).len(), 300);
    let wide = cut_reason(&"猫".repeat(300));
    assert_eq!(wide.chars().count(), 300);
    let widest = cut_reason(&"🎉".repeat(300));
    assert_eq!(widest.chars().count(), 250);
    assert_eq!(widest.len(), 1000);
    let flag = read_flag(&obj(vec![
        ("actor", txt("b")),
        ("object", arr(vec![txt("x"), Json::Null, txt("y")])),
        ("content", txt("<p>bad</p>")),
    ]))
    .ok()
    .unwrap();
    assert_eq!(flag.objects, vec!["x", "y"]);
    assert_eq!(flag.reason_text, "bad");
    assert_eq!(read_flag(&obj(vec![])).err().unwrap(), "Flag: actor がありません");
}

#[test]
fn actors_move_only_themselves() {
    let read = |v: Vec<(&str, Json)>| read_move(&obj(v));
    assert!(matches!(
        read(vec![("actor", txt("a")), ("object", txt("a")), ("target", txt("t"))]),
        Ok(m) if m.old_actor_uri == "a" && m.target_uri == "t"
    ));
    assert!(read(vec![("actor", txt("a")), ("target", txt("t"))]).is_ok());
    assert!(matches!(
        read(vec![("actor", txt("a")), ("object", txt("b")), ("target", txt("t"))]),
        Err(e) if e == "Move: actor(a) と object(b) が一致しません"
    ));
    assert!(matches!(read(vec![]), Err(e) if e == "Move: actor フィールドがありません"));
    assert!(matches!(
        read(vec![("actor", txt("a"))]),
        Err(e) if e == "Move: target フィールドがありません"
    ));
    assert!(matches!(confirm_move(Some(1), Some(true)), MoveStep::ResolveTarget { old_actor_id: 1 }));
    assert!(matches!(confirm_move(Some(1), Some(false)), MoveStep::Ignore));
    assert!(matches!(confirm_move(Some(1), None), MoveStep::Ignore));
    assert!(matches!(confirm_move(None, Some(true)), MoveStep::Ignore));
    assert_eq!(check_move(1, &remote(1, "i")), Ok(false));
    assert_eq!(check_move(1, &remote(2, "i")), Ok(true));
    assert_eq!(
        check_move(1, &remote(2, "")),
        Err("Move: 移転先アクターの inbox が取得できません".to_string())
    );
    assert_eq!(moving_followers(&vec![5, 2, 6], 2), vec![5, 6]);
}

#[test]
fn follows_go_over_to_the_new_address() {
    let bob = remote(2, "https://new.example/inbox");
    let go = |found: Option<Actor>, already: bool| {
        migrate_one_follow("seiran.example", 7, &found, already, &bob, "https://new.example/users/bob")
    };
    let m = go(Some(actor(7, "alice", "local")), false).ok().unwrap();
    assert_eq!(m.event, "moveRefollowed");
    assert_eq!(m.notify, Some(7));
    let MigrationKind::Refollow { inbox, key_id, activity } = m.kind else {
        panic!("a request was expected");
    };
    assert_eq!(inbox, "https://new.example/inbox");
    assert_eq!(key_id, "https://seiran.example/users/alice#main-key");
    assert_eq!(activity.text_at("id"), Some("https://seiran.example/activities/follow/7-2"));
    assert_eq!(activity.text_at("object"), Some("https://new.example/users/bob"));
    let mut system = actor(7, "list-relay", "local");
    system.user_id = None;
    let m = go(Some(system), true).ok().unwrap();
    assert!(matches!(m.kind, MigrationKind::AlreadyFollowing));
    assert_eq!((m.event, m.notify), ("moveAlreadyFollowing", None));
    assert_eq!(go(None, false).err().unwrap(), "フォロワーアクター(id=7)が見つかりません");
}

#[test]
fn notices_go_to_local_actors_once() {
    assert_eq!(decide_notice(&Some(meta(1, "local")), 2), Some(1));
    assert_eq!(decide_notice(&Some(meta(2, "local")), 2), None);
    assert_eq!(decide_notice(&Some(meta(1, "fedi")), 2), None);
    assert_eq!(decide_notice(&None, 2), None);
    let found = vec![
        Some(actor(1, "alice", "local")),
        None,
        Some(actor(1, "alice", "local")),
        Some(actor(3, "carol", "local")),
        Some(actor(4, "dan", "fedi")),
    ];
    assert_eq!(mention_targets(&found), vec![1, 3]);
    let all = notices_for_note(2, &Some(meta(5, "local")), &Some(meta(6, "local")), &found);
    let kinds: Vec<(i64, NoticeKind)> = all.iter().map(|n| (n.target_actor_id, n.kind)).collect();
    assert_eq!(
        kinds,
        vec![
            (5, NoticeKind::Quote),
            (6, NoticeKind::Reply),
            (1, NoticeKind::Mention),
            (3, NoticeKind::Mention),
        ]
    );
    assert_eq!(dedup_ids(&vec![3, 1, 3, 2, 1]), vec![3, 1, 2]);
    assert_eq!(creator(&obj(vec![("actor", txt("b"))])), Ok("b".to_string()));
    assert!(creator(&obj(vec![])).is_err());
}

#[test]
fn new_notes_are_shown_to_those_who_may_see_them() {
    let ctx = |visibility: Visibility| CreatedNoteContext {
        post_id: 9,
        body: "hi".to_string(),
        created_at: Timestamp { secs: 1704164645, nanos: 0 },
        actor_id: 2,
        emoji_map: obj(vec![]),
        visibility,
        recipient_actor_ids: vec![1, 4],
    };
    let bob = remote(2, "");
    let Broadcast::Recipients { recipients, .. } = broadcast_created_note(&ctx(Visibility::Direct), &bob)
    else {
        panic!("recipients were expected");
    };
    assert!(recipients.contains(&1) && recipients.contains(&4));
    let Broadcast::Channels { note } = broadcast_created_note(&ctx(Visibility::Public), &bob) else {
        panic!("channels were expected");
    };
    assert_eq!(note.text_at("createdAt"), Some("2024-01-02T03:04:05+00:00"));
    let home = home_recipients(&vec![5, 6], 2);
    assert!(home.contains(&5) && home.contains(&6));
}

#[test]
fn references_are_fetched_at_most_once() {
    let one = ReferenceResolutionMode::OneHopFetch;
    let db = ReferenceResolutionMode::DbOnly;
    assert!(matches!(resolve_ref(one, Some("u"), None), ReferenceStep::Fetch(u) if u == "u"));
    assert!(matches!(
        resolve_ref(one, Some("u"), Some(3)),
        ReferenceStep::Done(ReferenceOutcome::Resolved(3))
    ));
    assert!(matches!(
        resolve_ref(db, Some("u"), None),
        ReferenceStep::Done(ReferenceOutcome::Unresolved { status: RefStatus::Pending, .. })
    ));
    assert!(matches!(
        resolve_ref(one, None, None),
        ReferenceStep::Done(ReferenceOutcome::Absent)
    ));
    assert!(matches!(resolve_reference_db_only(Some("u"), Some(1)), ReferenceOutcome::Resolved(1)));
    assert!(matches!(
        resolve_reference("u", FetchedReference::Saved(4)),
        ReferenceOutcome::Resolved(4)
    ));
    let parts = resolve_reference("u", FetchedReference::Gone).into_parts();
    assert_eq!(parts, (None, Some("u".to_string()), Some(RefStatus::Gone)));
    let parts = resolve_reference("u", FetchedReference::Failed).into_parts();
    assert_eq!(parts, (None, Some("u".to_string()), Some(RefStatus::Pending)));
    assert_eq!(RefStatus::Pending.as_db_str(), "pending");
    assert_eq!(RefStatus::Gone.as_db_str(), "gone");
}

#[test]
fn pending_references_are_written_back_when_settled() {
    let (o, u) = resolve_pending_reference_with_timeout("u", None);
    assert!(matches!(o, ReferenceOutcome::Unresolved { status: RefStatus::Pending, .. }));
    assert_eq!(u, ReferenceUpdate::Keep);
    let (_, u) = resolve_pending_reference_with_timeout("u", Some(ReferenceOutcome::Resolved(8)));
    assert_eq!(u, ReferenceUpdate::Resolved(8));
    let gone = resolve_reference("u", FetchedReference::Gone);
    let (_, u) = resolve_pending_reference_with_timeout("u", Some(gone));
    assert_eq!(u, ReferenceUpdate::Gone);
    assert_eq!(
        extract_attributed_to(&obj(vec![("attributedTo", arr(vec![obj(vec![]), txt("a")]))])),
        Some("a".to_string())
    );
}
