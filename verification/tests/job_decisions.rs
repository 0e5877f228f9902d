use seiran_common::cooldown::{RecentIds, RecentNames, NANOS_PER_SECOND};
use seiran_common::jobs::account_withdraw_unfollow_all::{
    next_unfollow_step, plan_unfollow, TargetLookup, UnfollowAnswers, UnfollowStep,
};
use seiran_common::jobs::actor_history_sync::{check_history_request, extract_did_domain};
use seiran_common::jobs::actor_metadata_resolve::{
    counterpart_of, counterpart_profile, ClaimingActor, Counterpart,
};
use seiran_common::jobs::also_known_as_sync::{
    alias_profile, alias_targets, classify_alias, syncable_owner, AliasLookup,
};
use seiran_common::jobs::also_known_as_verify::{
    plan_alias_check, verification, AliasCheck, CheckedActor,
};
use seiran_common::jobs::ap_delivery::{
    plan_delivery, ApDeliveryKind, DeliveryStep, PrevApReaction,
};
use seiran_common::jobs::at_migration::{
    after_deactivation, after_fetch, after_signature_request, after_unreadable_repo, blob_key_of,
    blob_storage_key, created_at_or, import_actor, imported_post, is_post_collection,
    next_import_step, source_session, ImportStep, JobError, JobPriority, MigrationJob, MigrationStatus,
};
use seiran_common::jobs::atp_repository_publish::{is_published, publish_account};
use seiran_common::jobs::bridge_user_link_resolve;
use seiran_common::jobs::bridge_user_link_resolve::{
    find_bridge_source, BridgeSource, BridgedAccount,
};
use seiran_common::jobs::bsky_dm_reaction::{send_action, MessageAction};
use seiran_common::jobs::bsky_dm_send::{
    convo_url, judge_reply, make_message_body, read_convo_id, sendable_message, SendOutcome,
};
use seiran_common::jobs::bsky_post_commit_deferred::{
    choose_embed, elapsed_seconds, reply_reference, watch_page_fallback_embed, AudioFrame,
    BskyEmbed, MediaFile,
};
use seiran_common::jobs::bsky_video_poll::{
    judge_video_reply, own_pds_did, poll_url, video_job, VideoOutcome,
};
use seiran_common::jobs::fetch_bridge_original::{
    original_note, parse_protocol, OriginalNetwork,
};
use seiran_common::jobs::follow_import::{
    after_step, begin_step, decide_item, item_outcome, FollowImportItemOutcome, FollowOutcome,
    ImportStart, ItemStep, NextAction, RateCheck,
};
use seiran_common::jobs::inbound_activity_process::actor::{Actor, ActorDocument};
use seiran_common::jobs::link_card_embed_resolve::page_for_embed;
use seiran_common::jobs::link_resolve;
use seiran_common::jobs::link_resolve::{
    decide_resolution, make_link_event, LinkResolution, LinkedActor,
};
use seiran_common::jobs::ogp_fetch::{card_for_link, FetchFailure, OgpData};
use seiran_common::jobs::poll_fetch::{
    decide_poll_action, poll_address, FetchedObject, PollFetchAction, PolledPost,
};
use seiran_common::jobs::post_merge_cleanup::{
    check_doomed, reparent_counted, reparent_counted_sql, reparent_simple, reparent_sql,
};
use seiran_common::jobs::proxy_follow_sync::{plan_proxy_follow, usable_key, FollowTarget};
use seiran_common::jobs::relay_follow_sync::plan_relay_follow;
use seiran_common::jobs::remote_actor_resolve;
use seiran_common::jobs::remote_actor_resolve::{needs_lookup, profile_of_document};
use seiran_common::jobs::remote_follow_list_sync::{
    collection_url, parse_direction, FollowDirection,
};
use seiran_common::jobs::remote_instance_info_resolve::{
    choose_theme_color, discovery_url, extract_favicon_link, fallback_color_for_software,
    fallback_icon_url, is_valid_hex_color, pick_nodeinfo_link, settle_instance_info,
    stated_icon_url, InstanceInfo, NodeinfoLink,
};
use seiran_common::jobs::remote_profile_refresh;
use seiran_common::jobs::remote_profile_refresh::refreshed_profile;
use seiran_common::json::{Json, Member};
use seiran_common::link_target::{ResolveError, ResolvedTarget};
use seiran_common::outside::Timestamp;

fn txt(s: &str) -> Json {
    Json::Str(s.to_string())
}

fn arr(v: Vec<Json>) -> Json {
    Json::Arr(v)
}

fn obj(v: Vec<(&str, Json)>) -> Json {
    Json::Obj(
        v.into_iter()
            .map(|(k, value)| Member { key: k.to_string(), value })
            .collect(),
    )
}

fn some(s: &str) -> Option<String> {
    Some(s.to_string())
}

fn document(username: Option<&str>, inbox: Option<&str>) -> ActorDocument {
    ActorDocument {
        preferred_username: username.map(str::to_string),
        name: None,
        summary: some("<b>hi</b>"),
        inbox: inbox.map(str::to_string),
        avatar_url: some("https://remote.example/a.png"),
        seiran_at_did: None,
    }
}

#[test]
fn a_key_waits_until_its_cooldown_is_over() {
    let hour = 3600 * NANOS_PER_SECOND;
    let mut ids = RecentIds::new();
    assert!(bridge_user_link_resolve::should_enqueue(&mut ids, 1, 1000));
    assert!(!bridge_user_link_resolve::should_enqueue(&mut ids, 1, 1000 + hour - 1));
    assert!(bridge_user_link_resolve::should_enqueue(&mut ids, 2, 1000));
    assert!(bridge_user_link_resolve::should_enqueue(&mut ids, 1, 1000 + hour));
    assert!(!bridge_user_link_resolve::should_enqueue(&mut ids, 1, 900));
    let mut names = RecentNames::new();
    assert!(remote_actor_resolve::should_enqueue(&mut names, "a", 0));
    assert!(!remote_actor_resolve::should_enqueue(&mut names, "a", hour - 1));
    assert!(remote_actor_resolve::should_enqueue(&mut names, "a", hour));
    assert!(remote_actor_resolve::should_enqueue(&mut names, "b", 5));
    let mut links = RecentNames::new();
    assert!(link_resolve::should_enqueue(&mut links, "a", 0));
    assert!(!link_resolve::should_enqueue(&mut links, "a", 599 * NANOS_PER_SECOND));
    assert!(link_resolve::should_enqueue(&mut links, "a", 600 * NANOS_PER_SECOND));
}

#[test]
fn asking_in_vain_does_not_prolong_the_wait() {
    let mut links = RecentNames::new();
    assert!(link_resolve::should_enqueue(&mut links, "a", 0));
    assert!(!link_resolve::should_enqueue(&mut links, "a", 500 * NANOS_PER_SECOND));
    assert!(link_resolve::should_enqueue(&mut links, "a", 600 * NANOS_PER_SECOND));
}

#[test]
fn bridged_accounts_lead_to_their_source() {
    let account = |username: &str, domain: &str, uri: Option<&str>, resolved: bool| BridgedAccount {
        username: username.to_string(),
        domain: domain.to_string(),
        ap_uri: uri.map(str::to_string),
        resolved,
    };
    assert!(matches!(
        find_bridge_source(&account(
            "alice",
            "bsky.brid.gy",
            Some("https://bsky.brid.gy/ap/did:plc:abc"),
            false,
        )),
        BridgeSource::Did(d) if d == "did:plc:abc"
    ));
    assert!(matches!(
        find_bridge_source(&account("bob.mastodon.social.ap.brid.gy", "x", None, false)),
        BridgeSource::Account { username, domain } if username == "bob" && domain == "mastodon.social"
    ));
    assert!(matches!(
        find_bridge_source(&account("bob.mastodon.social.ap.brid.gy", "x", None, true)),
        BridgeSource::Unknown
    ));
    assert!(matches!(
        find_bridge_source(&account("bob.ap.brid.gy", "x", None, false)),
        BridgeSource::Unknown
    ));
    assert!(matches!(
        find_bridge_source(&account("bob", "bsky.brid.gy", Some("https://other/ap/x"), false)),
        BridgeSource::Unknown
    ));
}

#[test]
fn domains_are_taken_from_addresses() {
    assert_eq!(remote_actor_resolve::extract_domain("https://a.example/users/x"), "a.example");
    assert_eq!(remote_actor_resolve::extract_domain("http://a.example"), "a.example");
    assert_eq!(remote_actor_resolve::extract_domain("a.example/users"), "a.example/users");
    assert_eq!(remote_profile_refresh::extract_domain("https://a.example/users/x"), "a.example");
    assert_eq!(remote_profile_refresh::extract_domain("a.example/users"), "unknown");
    assert_eq!(extract_did_domain("did:plc:abc"), "plc.directory");
    assert_eq!(extract_did_domain("did:web:example.com:u"), "example.com");
    assert_eq!(extract_did_domain("did:key:z"), "unknown");
    assert!(check_history_request(&some("u"), &None).is_ok());
    assert_eq!(
        check_history_request(&None, &None),
        Err("ap_uri または at_did のどちらかは必須です".to_string())
    );
}

#[test]
fn only_unknown_remote_actors_are_looked_up() {
    let uri = "https://seiran.example/users/alice";
    assert!(!needs_lookup(uri, true, None));
    assert!(!needs_lookup(uri, false, Some("seiran.example")));
    assert!(needs_lookup(uri, false, Some("other.example")));
    assert!(needs_lookup(uri, false, None));
    let p = profile_of_document("https://r.example/users/bob", "r.example".to_string(), document(None, Some("i")));
    assert!(matches!(p, Some(p) if p.username == "bob" && p.bio.as_deref() == Some("hi") && p.inbox == "i"));
    assert!(profile_of_document("u", "d".to_string(), document(Some("bob"), None)).is_none());
    let p = refreshed_profile("https://r.example/users/1", document(Some("bob"), Some("i")));
    assert!(matches!(p, Ok(p) if p.username == "bob" && p.domain == "r.example"));
    assert_eq!(
        refreshed_profile("u", document(Some("bob"), None)).err(),
        some("inboxがありません")
    );
}

#[test]
fn links_are_settled_once_their_target_is() {
    let a = Actor {
        id: 4,
        username: "alice".to_string(),
        domain: "d".to_string(),
        display_name: None,
        actor_type: "fedi".to_string(),
        user_id: None,
    };
    assert_eq!(
        decide_resolution(&Some(Ok(ResolvedTarget::Actor(Box::new(a))))),
        Some(LinkResolution::Actor(4))
    );
    assert_eq!(
        decide_resolution(&Some(Ok(ResolvedTarget::Post(5)))),
        Some(LinkResolution::Post(5))
    );
    assert_eq!(decide_resolution(&Some(Err(ResolveError::ImportPending))), None);
    assert_eq!(
        decide_resolution(&Some(Err(ResolveError::Invalid))),
        Some(LinkResolution::Nothing)
    );
    assert_eq!(
        decide_resolution(&Some(Err(ResolveError::Upstream("x".to_string())))),
        Some(LinkResolution::Nothing)
    );
    assert_eq!(decide_resolution(&None), Some(LinkResolution::Nothing));
    assert!(make_link_event("u", LinkResolution::Nothing, &None).is_none());
    let post = make_link_event("u", LinkResolution::Post(5), &None).unwrap();
    assert_eq!(post.text_at("kind"), Some("post"));
    assert_eq!(post.text_at("postId"), Some("5"));
    let shown = LinkedActor {
        actor_id: 4,
        username: "alice".to_string(),
        domain: "d".to_string(),
        actor_type: "fedi".to_string(),
        avatar_url: None,
    };
    let event = make_link_event("u", LinkResolution::Actor(4), &Some(shown)).unwrap();
    assert_eq!(event.text_at("actorId"), Some("4"));
    assert!(matches!(event.get("avatarUrl"), Some(Json::Null)));
}

#[test]
fn counterparts_are_looked_for_on_the_other_network() {
    let claiming = |kind: &str| ClaimingActor {
        actor_type: kind.to_string(),
        claimed_at_did: some("did:plc:a"),
        claimed_ap_uri: some("https://r.example/u"),
    };
    assert!(matches!(counterpart_of(claiming("fedi")), Counterpart::Did(d) if d == "did:plc:a"));
    assert!(matches!(counterpart_of(claiming("bsky")), Counterpart::ApUri(u) if u == "https://r.example/u"));
    assert!(matches!(counterpart_of(claiming("local")), Counterpart::Nowhere));
    assert!(matches!(counterpart_profile("u", document(None, None)), Ok(None)));
    assert!(matches!(
        counterpart_profile("u", document(None, Some("i"))),
        Err(e) if e == "リモートアクター 'u' に preferredUsername がありません"
    ));
    assert!(matches!(
        counterpart_profile("https://r.example/u", document(Some("bob"), Some("i"))),
        Ok(Some(p)) if p.domain == "r.example"
    ));
}

#[test]
fn stated_accounts_are_looked_up_by_their_kind() {
    let local = Some("seiran.example");
    assert!(matches!(
        classify_alias("https://seiran.example/users/alice", local),
        AliasLookup::Local(u) if u == "alice"
    ));
    assert!(matches!(classify_alias("https://seiran.example/users/alice", None), AliasLookup::Fedi));
    assert!(matches!(classify_alias("did:plc:abc", local), AliasLookup::Did));
    assert!(matches!(classify_alias("http://r.example/u", local), AliasLookup::Fedi));
    assert!(matches!(classify_alias("acct:bob@r.example", local), AliasLookup::Ignore));
    assert_eq!(
        alias_targets(&vec![Some(9), None, Some(3), Some(9), Some(1)], 1),
        vec![3, 9]
    );
    assert_eq!(syncable_owner("fedi", some("u")), some("u"));
    assert_eq!(syncable_owner("bsky", some("u")), None);
    assert!(matches!(
        alias_profile("u", document(None, Some("i"))),
        Err(e) if e == "preferredUsernameがありません"
    ));
    assert!(matches!(alias_profile("u", document(None, None)), Ok(None)));
    assert!(matches!(alias_profile("u", document(Some("bob"), Some("i"))), Ok(Some(_))));
}

#[test]
fn stated_accounts_are_checked_by_their_kind() {
    let checked = |kind: &str, uri: Option<&str>| CheckedActor {
        username: "alice".to_string(),
        actor_type: kind.to_string(),
        ap_uri: uri.map(str::to_string),
    };
    let owner = checked("local", None);
    let local = Some("seiran.example");
    let bsky = plan_alias_check(&owner, &checked("bsky", None), local);
    assert_eq!(verification(&bsky, Some(true)), Some(false));
    let own = plan_alias_check(&owner, &checked("local", None), local);
    assert_eq!(verification(&own, Some(true)), Some(true));
    let doc = plan_alias_check(&owner, &checked("fedi", Some("https://r.example/u")), local);
    assert!(matches!(
        &doc,
        AliasCheck::Document { target_uri, owner_uri }
            if target_uri == "https://r.example/u" && owner_uri == "https://seiran.example/users/alice"
    ));
    assert_eq!(verification(&doc, None), Some(false));
    let nowhere = plan_alias_check(&owner, &checked("fedi", None), local);
    assert_eq!(verification(&nowhere, Some(true)), None);
    let homeless = plan_alias_check(&owner, &checked("fedi", Some("u")), None);
    assert!(matches!(homeless, AliasCheck::Leave));
}

#[test]
fn a_replaced_reaction_is_taken_back_first() {
    let kind = ApDeliveryKind::Reaction {
        post_id: 1,
        activity_id: "new".to_string(),
        content: "👍".to_string(),
        undo_prev: Some(PrevApReaction { activity_id: "old".to_string(), content: "❤️".to_string() }),
    };
    let steps = plan_delivery(kind, Some("pem"), None);
    assert_eq!(steps.len(), 2);
    assert!(matches!(
        &steps[0],
        DeliveryStep::UndoReaction { activity_id, best_effort: true, .. } if activity_id == "old"
    ));
    assert!(matches!(&steps[1], DeliveryStep::Reaction { activity_id, .. } if activity_id == "new"));
    assert!(plan_delivery(ApDeliveryKind::DeleteActor, Some(""), None).is_empty());
    assert!(plan_delivery(ApDeliveryKind::DeleteActor, None, None).is_empty());
    assert_eq!(plan_delivery(ApDeliveryKind::DeleteActor, Some("pem"), None).len(), 1);
    assert!(plan_delivery(ApDeliveryKind::UpdateActor, Some("pem"), some("")).is_empty());
    assert_eq!(plan_delivery(ApDeliveryKind::UpdateActor, Some("pem"), some("pub")).len(), 1);
    assert_eq!(usable_key(Some("pem")), Some("pem"));
    assert_eq!(usable_key(Some("")), None);
}

fn target(kind: &str) -> FollowTarget {
    FollowTarget {
        id: 8,
        actor_type: kind.to_string(),
        ap_uri: some("https://r.example/u"),
        ap_inbox_url: some("https://r.example/inbox"),
    }
}

#[test]
fn the_list_actor_follows_and_unfollows_once() {
    let go = |found: Option<FollowTarget>, already: bool, want: bool| {
        plan_proxy_follow(8, &found, already, want, "seiran.example")
    };
    let d = go(Some(target("fedi")), false, true).ok().unwrap().unwrap();
    assert_eq!(d.inbox_url, "https://r.example/inbox");
    assert_eq!(d.key_id, "https://seiran.example/users/list-relay#main-key");
    assert_eq!(d.activity.text_at("type"), Some("Follow"));
    assert_eq!(
        d.activity.text_at("id"),
        Some("https://seiran.example/activities/follow/list-relay-8")
    );
    let d = go(Some(target("fedi")), true, false).ok().unwrap().unwrap();
    assert_eq!(d.activity.text_at("type"), Some("Undo"));
    assert_eq!(
        d.activity.text_at("id"),
        Some("https://seiran.example/activities/follow/list-relay-8/undo")
    );
    assert_eq!(d.activity.get("object").unwrap().text_at("type"), Some("Follow"));
    assert!(matches!(go(Some(target("fedi")), true, true), Ok(None)));
    assert!(matches!(go(Some(target("fedi")), false, false), Ok(None)));
    assert!(matches!(go(Some(target("bsky")), false, true), Ok(None)));
    assert_eq!(
        go(None, false, true).err().unwrap(),
        "ターゲットアクター(id=8)が見つかりません"
    );
    let mut bare = target("fedi");
    bare.ap_inbox_url = None;
    assert_eq!(
        go(Some(bare), false, true).err().unwrap(),
        "ターゲットアクター(id=8)にap_uri/ap_inbox_urlがありません"
    );
}

#[test]
fn relays_are_joined_under_their_recorded_identifier() {
    let d = plan_relay_follow("https://relay.example/inbox", "https://seiran.example/r/1", true, "seiran.example");
    assert_eq!(d.activity.text_at("id"), Some("https://seiran.example/r/1"));
    assert_eq!(d.activity.text_at("actor"), Some("https://seiran.example/users/relay-agent"));
    assert_eq!(d.activity.text_at("object"), Some("https://relay.example/inbox"));
    let d = plan_relay_follow("https://relay.example/inbox", "https://seiran.example/r/1", false, "seiran.example");
    assert_eq!(d.activity.text_at("id"), Some("https://seiran.example/r/1/undo"));
}

#[test]
fn leaving_users_unfollow_the_fediverse() {
    let d = plan_unfollow(&target("fedi"), "seiran.example", "alice").unwrap();
    assert_eq!(d.activity.text_at("type"), Some("Undo"));
    assert_eq!(d.activity.text_at("id"), Some("https://seiran.example/activities/follow/8/undo"));
    assert_eq!(d.key_id, "https://seiran.example/users/alice#main-key");
    assert!(plan_unfollow(&target("local"), "seiran.example", "alice").is_none());
    assert!(plan_unfollow(&target("bsky"), "seiran.example", "alice").is_none());
}

#[test]
fn follows_end_one_by_one() {
    let mut a = UnfollowAnswers {
        targets: None,
        settled: 0,
        target: None,
        record_key: None,
        taken_out: None,
        touched: false,
        sent: false,
    };
    let next = |a: &UnfollowAnswers| next_unfollow_step("seiran.example", "alice", a);
    assert!(matches!(next(&a), UnfollowStep::FindTargets));
    a.targets = Some(Err("x".to_string()));
    assert!(matches!(next(&a), UnfollowStep::Refuse(e) if e == "フォロー先一覧取得失敗: x"));
    a.targets = Some(Ok(vec![8, 9]));
    assert!(matches!(next(&a), UnfollowStep::FindTarget(8)));
    a.target = Some(TargetLookup::Missing);
    assert!(matches!(next(&a), UnfollowStep::Skip(8)));
    a.target = Some(TargetLookup::Failed("y".to_string()));
    assert!(matches!(next(&a), UnfollowStep::Skip(8)));
    a.target = Some(TargetLookup::Found(target("fedi")));
    assert!(matches!(next(&a), UnfollowStep::FindRecord(8)));
    a.record_key = Some(Err("z".to_string()));
    assert!(matches!(next(&a), UnfollowStep::Skip(8)));
    a.record_key = Some(Ok(Some("3k".to_string())));
    assert!(matches!(
        next(&a),
        UnfollowStep::TakeOut { target_id: 8, record_key } if record_key == "3k"
    ));
    a.taken_out = Some(true);
    assert!(matches!(next(&a), UnfollowStep::Touch));
    a.touched = true;
    assert!(matches!(
        next(&a),
        UnfollowStep::Send { target_id: 8, delivery }
            if delivery.activity.text_at("type") == Some("Undo")
    ));
    a.taken_out = Some(false);
    a.touched = false;
    assert!(matches!(next(&a), UnfollowStep::Send { .. }));
    a.sent = true;
    assert!(matches!(next(&a), UnfollowStep::Delete(8)));
    a.target = Some(TargetLookup::Found(target("bsky")));
    a.record_key = Some(Ok(None));
    a.sent = false;
    assert!(matches!(next(&a), UnfollowStep::Delete(8)));
    a.settled = 1;
    a.target = None;
    assert!(matches!(next(&a), UnfollowStep::FindTarget(9)));
    a.settled = 2;
    assert!(matches!(next(&a), UnfollowStep::Done));
}

#[test]
fn follow_up_jobs_have_their_priority() {
    assert_eq!(MigrationJob::FetchRepo.priority(), None);
    assert_eq!(MigrationJob::RequestPlcSignature.priority(), Some(JobPriority::Normal));
    assert_eq!(MigrationJob::ImportProcess.priority(), Some(JobPriority::Low));
    assert_eq!(MigrationJob::DeactivateSource.priority(), Some(JobPriority::Low));
}

#[test]
fn keys_are_let_in_once_a_cooldown() {
    let mut ids = RecentIds::new();
    let asks: [(i64, u64, bool); 7] = [
        (1, 100, true), (2, 105, true), (1, 109, false), (1, 110, true), (2, 114, false),
        (1, 119, false), (2, 115, true),
    ];
    for (i, (key, now, let_in)) in asks.iter().enumerate() {
        let earlier =
            asks[..i].iter().any(|(k, t, was)| *was && k == key && (*now as i64) - (*t as i64) < 10);
        assert_eq!(ids.ask(*key, *now, 10), *let_in);
        assert_eq!(*let_in, !earlier);
    }
}

#[test]
fn messages_need_all_that_sending_takes() {
    assert!(sendable_message("b".to_string(), Some(1), some("did"), some("pem")).is_some());
    assert!(sendable_message("b".to_string(), None, some("did"), some("pem")).is_none());
    assert_eq!(
        convo_url("did:a", "did:b"),
        "https://api.bsky.chat/xrpc/chat.bsky.convo.getConvoForMembers?members=did:a&members=did:b"
    );
    let body = make_message_body("c", "hello");
    assert_eq!(body.text_at("convoId"), Some("c"));
    assert_eq!(body.get("message").unwrap().text_at("text"), Some("hello"));
    let answer = obj(vec![("convo", obj(vec![("id", txt("c9"))]))]);
    assert_eq!(read_convo_id(&answer, "raw"), Ok("c9".to_string()));
    assert_eq!(
        read_convo_id(&obj(vec![]), "raw"),
        Err("getConvoForMembers応答にconvo.idが無い: raw".to_string())
    );
}

#[test]
fn only_unexpected_answers_are_tried_again() {
    let judge = |status: u16, text: &str| judge_reply("sendMessage", status, text, "b");
    assert_eq!(judge(200, "200 OK"), Ok(SendOutcome::Sent));
    assert_eq!(judge(299, "299"), Ok(SendOutcome::Sent));
    assert_eq!(judge(400, "400 Bad Request"), Ok(SendOutcome::Rejected));
    assert_eq!(
        judge(500, "500 Internal Server Error"),
        Err("sendMessage失敗 status=500 Internal Server Error body=b".to_string())
    );
    assert!(judge(300, "300").is_err());
}

#[test]
fn message_actions_name_their_method() {
    let add = MessageAction::AddReaction("👍".to_string());
    assert_eq!(add.xrpc_path(), "chat.bsky.convo.addReaction");
    let body = send_action(&add, "c", Some("m")).unwrap();
    assert_eq!(body.text_at("messageId"), Some("m"));
    assert_eq!(body.text_at("value"), Some("👍"));
    assert_eq!(
        MessageAction::RemoveReaction("👍".to_string()).xrpc_path(),
        "chat.bsky.convo.removeReaction"
    );
    let hide = send_action(&MessageAction::Hide, "c", Some("m")).unwrap();
    assert!(hide.get("value").is_none());
    assert!(send_action(&MessageAction::Hide, "c", None).is_none());
}

#[test]
fn videos_are_ready_failed_or_awaited() {
    assert!(video_job(some("j"), some("d"), some("p")).is_some());
    assert!(video_job(some("j"), None, some("p")).is_none());
    assert_eq!(
        poll_url("j1"),
        "https://video.bsky.app/xrpc/app.bsky.video.getJobStatus?jobId=j1"
    );
    assert_eq!(own_pds_did("seiran.example"), "did:web:seiran.example");
    let blob = obj(vec![
        ("ref", obj(vec![("$link", txt("cid1"))])),
        ("size", Json::Int(287123)),
    ]);
    let done = obj(vec![("state", txt("JOB_STATE_COMPLETED")), ("blob", blob)]);
    let nested = obj(vec![("jobStatus", done)]);
    assert!(matches!(
        judge_video_reply(true, &nested),
        Ok(VideoOutcome::Ready { cid, size: Some(287123) }) if cid == "cid1"
    ));
    let bare = obj(vec![("state", txt("JOB_STATE_COMPLETED"))]);
    assert!(matches!(judge_video_reply(true, &bare), Ok(VideoOutcome::Failed)));
    let failed = obj(vec![("state", txt("JOB_STATE_FAILED"))]);
    assert!(matches!(judge_video_reply(true, &failed), Ok(VideoOutcome::Failed)));
    let busy = obj(vec![("state", txt("JOB_STATE_ENCODING"))]);
    assert!(matches!(
        judge_video_reply(true, &busy),
        Err(e) if e == "処理中(state=JOB_STATE_ENCODING)"
    ));
    assert!(matches!(judge_video_reply(false, &busy), Ok(VideoOutcome::Failed)));
}

fn media(status: Option<&str>, cid: Option<&str>, mime: &str) -> Option<MediaFile> {
    Some(MediaFile {
        mime_type: mime.to_string(),
        width: Some(640),
        height: None,
        size: 1000,
        bsky_video_cid: cid.map(str::to_string),
        bsky_video_status: status.map(str::to_string),
        bsky_video_size: Some(900),
    })
}

#[test]
fn posts_wait_for_their_video_but_not_for_ever() {
    let frame = AudioFrame { width: 1280, height: 720 };
    let choose = |f: Option<MediaFile>, secs: i64| choose_embed(&f, 5, secs, "seiran.example", frame);
    assert!(matches!(
        choose(media(Some("processing"), None, "video/mp4"), 69),
        Err(e) if e == "動画パイプライン結合待ち（経過69秒）"
    ));
    assert!(matches!(
        choose(media(Some("processing"), None, "video/mp4"), 70),
        Ok(BskyEmbed::External { url, .. }) if url == "https://seiran.example/api/media/5/watch"
    ));
    assert!(matches!(
        choose(media(Some("ready"), Some("cid"), "video/mp4"), 0),
        Ok(BskyEmbed::Video { cid, size: 900, width: 640, height: 0, .. }) if cid == "cid"
    ));
    assert!(matches!(
        choose(media(Some("ready"), Some("cid"), "audio/mpeg"), 0),
        Ok(BskyEmbed::Video { width: 1280, height: 720, .. })
    ));
    assert!(matches!(
        choose(media(Some("failed"), Some("cid"), "video/mp4"), 0),
        Ok(BskyEmbed::External { .. })
    ));
    assert!(matches!(choose(None, 0), Ok(BskyEmbed::External { .. })));
    assert!(matches!(
        watch_page_fallback_embed("d", 1),
        BskyEmbed::External { title, description, .. } if title.is_empty() && description.is_empty()
    ));
}

#[test]
fn elapsed_time_is_counted_in_whole_seconds() {
    let t = |secs: i64, nanos: u32| Timestamp { secs, nanos };
    assert_eq!(elapsed_seconds(t(10, 500_000_000), t(12, 400_000_000)), 1);
    assert_eq!(elapsed_seconds(t(10, 0), t(12, 0)), 2);
    assert_eq!(elapsed_seconds(t(12, 400_000_000), t(10, 500_000_000)), -1);
    let r = reply_reference(some("at://x"), some("cid")).unwrap();
    assert_eq!((r.root.uri.as_str(), r.parent.cid.as_str()), ("at://x", "cid"));
    assert!(reply_reference(some("at://x"), None).is_none());
}

#[test]
fn originals_are_fetched_from_their_network() {
    assert_eq!(parse_protocol("atp"), Some(OriginalNetwork::Atp));
    assert_eq!(parse_protocol("ap"), Some(OriginalNetwork::Ap));
    assert_eq!(parse_protocol("smtp"), None);
    assert!(matches!(original_note(FetchedObject::Found(txt("x"))), Ok(Some(_))));
    assert!(matches!(original_note(FetchedObject::Gone), Ok(None)));
    assert!(matches!(
        original_note(FetchedObject::Failed("timeout".to_string())),
        Err(e) if e == "元AP投稿の取得失敗: timeout"
    ));
}

#[test]
fn imports_pause_at_the_limit_and_stop_at_the_end() {
    assert_eq!(begin_step(Some("running")), ImportStart::TakeItem);
    assert_eq!(begin_step(Some("cancelled")), ImportStart::Stop);
    assert_eq!(begin_step(None), ImportStart::Stop);
    let step = decide_item(true, &RateCheck::Allowed).ok().unwrap();
    assert_eq!((step, after_step(step)), (ItemStep::Follow, NextAction::Continue));
    let step = decide_item(true, &RateCheck::Exceeded).ok().unwrap();
    assert_eq!((step, after_step(step)), (ItemStep::Wait, NextAction::RetryAfter(300)));
    let step = decide_item(false, &RateCheck::Exceeded).ok().unwrap();
    assert_eq!((step, after_step(step)), (ItemStep::Complete, NextAction::Stop));
    assert_eq!(
        decide_item(true, &RateCheck::Failed("db".to_string())).err().unwrap(),
        "[FollowImportProcess] レート制限チェック失敗: db"
    );
    assert_eq!(
        item_outcome(FollowOutcome::Accepted { already_following: true }),
        FollowImportItemOutcome::AlreadyFollowing
    );
    assert_eq!(
        item_outcome(FollowOutcome::Pending { already_following: false }),
        FollowImportItemOutcome::Succeeded
    );
    assert_eq!(item_outcome(FollowOutcome::Failed), FollowImportItemOutcome::Failed);
}

fn page() -> OgpData {
    OgpData {
        title: "t".to_string(),
        description: None,
        thumbnail_url: None,
        embed_src: None,
        embed_type: None,
    }
}

#[test]
fn passing_failures_are_tried_again() {
    for f in [FetchFailure::FetchFailed, FetchFailure::UpstreamError, FetchFailure::DnsFailed] {
        assert!(matches!(
            card_for_link(Err(f), "u"),
            Err(e) if e == "OGP取得失敗（リトライ対象）: url=u"
        ));
        assert!(matches!(
            page_for_embed(Err(f), "u"),
            Err(e) if e == "embed解決失敗（リトライ対象）: url=u"
        ));
        let (row, again) = settle_instance_info("d", Err(f));
        assert_eq!((row.software_name, row.node_name), (None, None));
        assert_eq!(row.theme_color, "#e4e4e7");
        assert_eq!(again.as_deref(), Some("nodeinfo取得失敗（リトライ対象）: domain=d"));
    }
    for f in [FetchFailure::UnsupportedType, FetchFailure::Refused] {
        assert!(matches!(card_for_link(Err(f), "u"), Ok(None)));
        let (row, again) = settle_instance_info("d", Err(f));
        assert_eq!((row.software_name, row.theme_color.as_str()), (None, "#e4e4e7"));
        assert_eq!(again, None);
    }
    assert!(matches!(card_for_link(Ok(Some(page())), "u"), Ok(Some(p)) if p.title == "t"));
    assert!(matches!(page_for_embed(Ok(None), "u"), Ok(None)));
    let info = InstanceInfo { software_name: some("mitra"), node_name: None, theme_color: None };
    let (row, again) = settle_instance_info("d", Ok(info));
    assert_eq!(row.software_name.as_deref(), Some("mitra"));
    assert_eq!(row.theme_color, "#e8d9a6");
    assert_eq!(again, None);
}

#[test]
fn polls_are_fetched_unless_they_come_by_themselves() {
    let post = |received: bool| {
        Some(PolledPost { ap_object_id: some("q"), author_id: 1, poll_update_received: received })
    };
    assert_eq!(poll_address(post(false)), some("q"));
    assert_eq!(poll_address(post(true)), None);
    assert_eq!(poll_address(None), None);
    let question = obj(vec![
        ("type", txt("Question")),
        ("anyOf", arr(vec![obj(vec![("name", txt("tea"))])])),
    ]);
    assert!(matches!(
        decide_poll_action("q", &FetchedObject::Found(question)),
        Ok(PollFetchAction::Update(_))
    ));
    assert!(matches!(
        decide_poll_action("q", &FetchedObject::Found(obj(vec![]))),
        Ok(PollFetchAction::Touch)
    ));
    assert!(matches!(decide_poll_action("q", &FetchedObject::Gone), Ok(PollFetchAction::Leave)));
    assert!(matches!(
        decide_poll_action("q", &FetchedObject::Failed("x".to_string())),
        Err(e) if e == "PollFetch: 再フェッチ失敗（リトライ対象） uri=q: x"
    ));
}

#[test]
fn merged_posts_are_removed_only_when_marked() {
    assert_eq!(check_doomed(3, Some(true)), Ok(true));
    assert_eq!(check_doomed(3, None), Ok(false));
    assert_eq!(
        check_doomed(3, Some(false)),
        Err("doomed_post_id=3 はまだ論理削除されていません（finalize_post_merge未実行の可能性）".to_string())
    );
    let simple = reparent_simple();
    assert_eq!(simple.len(), 12);
    assert_eq!(
        reparent_sql(&simple[3]),
        "UPDATE notifications SET note_id = $1 WHERE note_id = $2"
    );
    let counted = reparent_counted();
    assert_eq!(
        reparent_counted_sql(&counted[0]),
        "WITH moved AS (UPDATE posts SET reply_to_post_id = $1 WHERE reply_to_post_id = $2 RETURNING id) UPDATE posts SET reply_count = reply_count + (SELECT count(*) FROM moved) WHERE id = $1 AND EXISTS (SELECT 1 FROM moved)"
    );
}

#[test]
fn only_new_posts_are_copied() {
    assert!(is_published("create_post"));
    assert!(!is_published("delete_post"));
    let a = publish_account(some("h"), some("p"), None).unwrap();
    assert_eq!(a.pds_url, "https://bsky.social");
    let a = publish_account(some("h"), some("p"), some("https://pds.example")).unwrap();
    assert_eq!(a.pds_url, "https://pds.example");
    assert!(publish_account(None, some("p"), None).is_none());
    assert!(publish_account(some("h"), None, None).is_none());
}

#[test]
fn follow_lists_are_named_by_direction() {
    assert_eq!(parse_direction("following"), Ok(FollowDirection::Following));
    assert_eq!(parse_direction("followers"), Ok(FollowDirection::Followers));
    assert_eq!(parse_direction("both"), Err("不正な direction です: both".to_string()));
    assert_eq!(collection_url(FollowDirection::Following, some("a"), some("b")), some("a"));
    assert_eq!(collection_url(FollowDirection::Followers, some("a"), some("b")), some("b"));
}

#[test]
fn shown_colors_are_always_colors() {
    assert!(is_valid_hex_color("#fff"));
    assert!(is_valid_hex_color("#A1b2C3"));
    assert!(!is_valid_hex_color("#ffff"));
    assert!(!is_valid_hex_color("fff"));
    assert!(!is_valid_hex_color("#ggg"));
    assert!(!is_valid_hex_color(""));
    assert_eq!(fallback_color_for_software("Fedibird"), Some("#f4dced"));
    assert_eq!(fallback_color_for_software("kmyblue"), Some("#d9ecfa"));
    assert_eq!(fallback_color_for_software("mitra"), Some("#e8d9a6"));
    assert_eq!(fallback_color_for_software("AKKOMA"), Some("#ddd9f5"));
    assert_eq!(fallback_color_for_software("mastodon"), None);
    assert_eq!(choose_theme_color(&some("#123456"), &some("akkoma")), "#123456");
    assert_eq!(choose_theme_color(&some("red"), &some("akkoma")), "#ddd9f5");
    assert_eq!(choose_theme_color(&None, &some("mastodon")), "#e4e4e7");
    assert_eq!(choose_theme_color(&None, &None), "#e4e4e7");
}

#[test]
fn the_newest_description_is_followed() {
    let link = |rel: &str, href: &str| NodeinfoLink { rel: rel.to_string(), href: href.to_string() };
    let ns = "http://nodeinfo.diaspora.software/ns/schema/";
    let links = vec![
        link(&format!("{}1.0", ns), "one"),
        link(&format!("{}2.0", ns), "two"),
        link(&format!("{}2.1", ns), "three"),
    ];
    assert_eq!(pick_nodeinfo_link(&links), Some("three"));
    assert_eq!(pick_nodeinfo_link(&links[..2]), Some("two"));
    assert_eq!(pick_nodeinfo_link(&links[..1]), Some("one"));
    assert_eq!(pick_nodeinfo_link(&[link("self", "x")]), None);
    assert_eq!(discovery_url("r.example"), "https://r.example/.well-known/nodeinfo");
}

#[test]
fn icons_are_found_in_either_order() {
    let rel_first = r#"<LINK rel="icon" type="image/png" href="/a.png?x=1&amp;y=2">"#;
    assert_eq!(extract_favicon_link(rel_first), some("/a.png?x=1&y=2"));
    let href_first = r#"<link href='https://cdn.example/b.ico' rel='shortcut icon'>"#;
    assert_eq!(extract_favicon_link(href_first), some("https://cdn.example/b.ico"));
    assert_eq!(extract_favicon_link("<link rel=\"stylesheet\" href=\"c.css\">"), None);
    assert_eq!(
        stated_icon_url("r.example", rel_first),
        some("https://r.example/a.png?x=1&y=2")
    );
    assert_eq!(stated_icon_url("r.example", href_first), some("https://cdn.example/b.ico"));
    assert_eq!(stated_icon_url("r.example", ""), None);
    assert_eq!(fallback_icon_url("r.example"), "https://r.example/favicon.ico");
}

#[test]
fn a_move_goes_forward_step_by_step() {
    assert!(MigrationJob::FetchRepo.starts(Some("fetching_repo")));
    assert!(!MigrationJob::FetchRepo.starts(Some("importing_data")));
    assert!(!MigrationJob::FetchRepo.starts(None));
    assert!(MigrationJob::RequestPlcSignature.starts(Some("requesting_plc_signature")));
    assert!(MigrationJob::ImportProcess.starts(Some("importing_data")));
    assert!(MigrationJob::DeactivateSource.starts(Some("deactivating_source")));
    let s = after_fetch(Some("true"));
    assert_eq!((s.status, s.enqueue), (MigrationStatus::AwaitingSeiranEmail, None));
    for setting in [Some("false"), None] {
        let s = after_fetch(setting);
        assert_eq!(s.status, MigrationStatus::RequestingPlcSignature);
        assert_eq!(s.enqueue, Some(MigrationJob::RequestPlcSignature));
    }
    assert_eq!(after_signature_request().status, MigrationStatus::AwaitingPlcToken);
    assert_eq!(next_import_step(true, true), ImportStep::Record);
    assert_eq!(next_import_step(false, true), ImportStep::Blob);
    assert!(matches!(
        next_import_step(false, false),
        ImportStep::Done(s) if s.status == MigrationStatus::DeactivatingSource
            && s.enqueue == Some(MigrationJob::DeactivateSource)
    ));
    assert_eq!(after_deactivation().status, MigrationStatus::Completed);
    assert_eq!(MigrationStatus::Completed.as_db_str(), "completed");
    let (step, error) = after_unreadable_repo("bad block");
    assert_eq!(step.status, MigrationStatus::Failed);
    assert!(matches!(
        error,
        JobError::Permanent(m) if m == "[MigrationFetchRepo] CARデコード失敗（不正なリポジトリデータ）: bad block"
    ));
    assert!(matches!(import_actor(Some(4)), Ok(4)));
    assert!(matches!(
        import_actor(None),
        Err(JobError::Permanent(m)) if m == "[MigrationImportProcess] actor_id が未確定です"
    ));
    let session = source_session("did".to_string(), "h".to_string(), some("a"), None);
    assert_eq!((session.access_jwt.as_str(), session.refresh_jwt.as_str()), ("a", ""));
}

#[test]
fn imported_posts_keep_their_time() {
    let now = Timestamp { secs: 5, nanos: 0 };
    let record = obj(vec![
        ("text", txt("hello")),
        ("createdAt", txt("1970-01-02T01:00:00.5+01:00")),
    ]);
    let p = imported_post(&record, 77, 3, "seiran.example", now);
    assert_eq!(p.body, "hello");
    assert_eq!(p.ap_object_id, "https://seiran.example/notes/77");
    assert_eq!(p.created_at, Timestamp { secs: 86400, nanos: 500_000_000 });
    assert_eq!((p.visibility, p.deliver_fedi, p.deliver_bsky), ("public", false, false));
    let p = imported_post(&obj(vec![("createdAt", txt("yesterday"))]), 77, 3, "d", now);
    assert_eq!((p.body.as_str(), p.created_at), ("", now));
    assert_eq!(created_at_or(None, now), now);
    assert!(is_post_collection("app.bsky.feed.post"));
    assert!(!is_post_collection("app.bsky.graph.follow"));
}

#[test]
fn files_are_found_by_their_digest() {
    assert_eq!(
        blob_key_of(b"abc"),
        "ba7816bf8f01cfea414140de5dae2223b00361a396177a9cb410ff61f20015ad"
    );
    assert_eq!(
        blob_key_of(b""),
        "e3b0c44298fc1c149afbf4c8996fb92427ae41e4649b934ca495991b7852b855"
    );
    assert_eq!(blob_storage_key("u", "png"), "blobs/u.png");
}
