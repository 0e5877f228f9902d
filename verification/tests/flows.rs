use seiran_common::jobs::at_migration::{
    next_import_action, ClaimedBlob, ClaimedRecord, ImportAction, ImportAnswers, JobError,
    MigrationJob, MigrationRequest, MigrationStatus,
};
use seiran_common::jobs::follow_import::{
    next_round_step, FollowImportItemOutcome, FollowOutcome, ImportItem, ImportRequest, NextAction,
    RateCheck, RoundAnswers, RoundStep,
};
use seiran_common::jobs::inbound_activity_process::actor::{Actor, RemoteActorInfo};
use seiran_common::jobs::inbound_activity_process::announce::{
    next_announce_step, AnnounceAnswers, AnnounceStep,
};
use seiran_common::jobs::inbound_activity_process::create::NoticeKind;
use seiran_common::jobs::inbound_activity_process::create_flow::{
    next_create_step, CreateAnswers, CreateStep, KeptNote,
};
use seiran_common::jobs::inbound_activity_process::follow::{
    next_accept_step, next_follow_step, AcceptAnswers, AcceptStep, FollowAnswers, FollowStep,
};
use seiran_common::jobs::inbound_activity_process::move_actor::{
    next_move_step, MoveAnswers, MoveFlowStep,
};
use seiran_common::jobs::inbound_activity_process::note_flow::{
    next_save_step, NoteAuthor, SaveAnswers, SaveRequest, SaveStep,
};
use seiran_common::jobs::inbound_activity_process::note_save::{
    DeliveryMeta, NewPost, NoteError, SeiranPost, Visibility,
};
use seiran_common::jobs::inbound_activity_process::poll_vote::{
    next_vote_step, VoteAnswers, VoteStep,
};
use seiran_common::jobs::inbound_activity_process::reaction::{
    next_reaction_step, ReactionAnswers, ReactionStep,
};
use seiran_common::jobs::inbound_activity_process::reference::{
    RefStatus, ReferenceOutcome, ReferenceResolutionMode,
};
use seiran_common::jobs::inbound_activity_process::undo::{next_undo_step, UndoAnswers, UndoStep};
use seiran_common::jobs::inbound_activity_process::update::{
    next_update_step, ClaimingPost, MergeCandidate, UpdateAnswers, UpdateStep,
};
use seiran_common::json::{Json, Member};
use seiran_common::outside::Timestamp;

const HERE: &str = "seiran.example";

fn txt(s: &str) -> Json {
    Json::Str(s.to_string())
}

fn arr(v: Vec<Json>) -> Json {
    Json::Arr(v)
}

fn obj(ms: Vec<(&str, Json)>) -> Json {
    Json::Obj(ms.into_iter().map(|(k, v)| Member { key: k.to_string(), value: v }).collect())
}

fn at(secs: i64) -> Timestamp {
    Timestamp { secs, nanos: 0 }
}

fn local(id: i64, username: &str) -> Actor {
    Actor {
        id,
        username: username.to_string(),
        domain: HERE.to_string(),
        display_name: None,
        actor_type: "local".to_string(),
        user_id: Some(id + 1000),
    }
}

fn remote(id: i64, username: &str) -> Actor {
    Actor {
        id,
        username: username.to_string(),
        domain: "remote.example".to_string(),
        display_name: Some("Remote".to_string()),
        actor_type: "fedi".to_string(),
        user_id: None,
    }
}

fn info(actor_id: i64, inbox: &str) -> RemoteActorInfo {
    RemoteActorInfo {
        actor_id,
        username: "bob".to_string(),
        display_name: "Bob".to_string(),
        domain: "remote.example".to_string(),
        avatar_url: None,
        inbox: inbox.to_string(),
    }
}

fn meta(actor_id: i64, visibility: &str, thread: Option<i64>) -> DeliveryMeta {
    DeliveryMeta {
        actor_id,
        actor_type: "local".to_string(),
        visibility: visibility.to_string(),
        thread_root_post_id: thread,
    }
}

// ---------------------------------------------------------------------------
// Keeping a note.
// ---------------------------------------------------------------------------
fn note(more: Vec<(&str, Json)>) -> Json {
    let mut ms = vec![
        ("type", txt("Note")),
        ("id", txt("https://remote.example/notes/1")),
        ("published", txt("2024-01-02T03:04:05Z")),
    ];
    ms.extend(more);
    obj(ms)
}

fn request(note: Json, mode: ReferenceResolutionMode) -> SaveRequest {
    SaveRequest {
        note,
        actor_uri: "https://remote.example/users/bob".to_string(),
        local_domain: HERE.to_string(),
        mode,
        now: at(5),
        stated: None,
    }
}

/// What a server answers that knows little.
struct Replies {
    codes: Vec<String>,
    canonical: Option<Json>,
    on_record: Vec<(String, String)>,
    addressed: Visibility,
    quote: Option<i64>,
    reply: Option<i64>,
    parent: Option<DeliveryMeta>,
    addressees: Vec<Option<Actor>>,
    original: Option<i64>,
    kept: Option<i64>,
}

fn replies() -> Replies {
    Replies {
        codes: vec![],
        canonical: None,
        on_record: vec![],
        addressed: Visibility::Public,
        quote: None,
        reply: None,
        parent: None,
        addressees: vec![],
        original: None,
        kept: Some(70),
    }
}

fn found(uri: String, id: Option<i64>) -> ReferenceOutcome {
    match id {
        Some(id) => ReferenceOutcome::Resolved(id),
        None => ReferenceOutcome::Unresolved { ap_uri: uri, status: RefStatus::Pending },
    }
}

/// Runs the steps to the last one, and gives the names of all of them, the post
/// that was put in and the last step.
fn run(q: &SaveRequest, r: Replies) -> (Vec<String>, Option<NewPost>, SaveStep) {
    let mut a = SaveAnswers::none();
    let mut names: Vec<String> = vec![];
    let mut put_in: Option<NewPost> = None;
    let mut addressees = Some(r.addressees);
    let mut parent = Some(r.parent);
    for _ in 0..30 {
        let name = match next_save_step(q, &a) {
            SaveStep::FindPost(u) => {
                a.known = Some(None);
                format!("find {}", u)
            }
            SaveStep::MakePostId(t) => {
                a.post_id = Some(7);
                format!("id {}", t.secs)
            }
            SaveStep::UpsertAuthor(u) => {
                a.author =
                    Some(NoteAuthor { actor_id: 3, domain: "remote.example".to_string() });
                format!("author {}", u)
            }
            SaveStep::CutParagraph { html, quote_uri } => {
                a.paragraph = Some(html.strip_prefix("<p>QUOTE</p>").map(|s| s.to_string()));
                format!("paragraph {}", quote_uri)
            }
            SaveStep::CutLeadingLine { html, quote_uri } => {
                let cut = html.strip_prefix("<p>RE</p>").map(|s| s.to_string());
                a.leading = Some(cut.unwrap_or(html));
                format!("leading {}", quote_uri)
            }
            SaveStep::FindOwnShortcodes(b) => {
                a.own_codes = Some(r.codes.clone());
                format!("own {}", b)
            }
            SaveStep::FetchCanonical(u) => {
                a.canonical = Some(r.canonical.as_ref().map(|n| n.duplicate()));
                format!("fetch {}", u)
            }
            SaveStep::FindAllShortcodes(b) => {
                a.all_codes = Some(r.codes.clone());
                format!("all {}", b)
            }
            SaveStep::RecordEmojis { domain, emojis } => {
                a.recorded = true;
                format!("record {} {}", domain, emojis.len())
            }
            SaveStep::FindEmojis { domain, codes } => {
                a.on_record = Some(r.on_record.clone());
                format!("emojis {} {}", domain, codes.join(","))
            }
            SaveStep::ResolveQuote(u) => {
                a.quote = Some(found(u.clone(), r.quote));
                format!("quote {}", u)
            }
            SaveStep::CutFirstLine { html, quote_uri } => {
                a.rest = Some(html);
                format!("line {}", quote_uri)
            }
            SaveStep::ClassifyVisibility { to, cc } => {
                a.addressed = Some(r.addressed);
                format!("to {} cc {}", to.len(), cc.len())
            }
            SaveStep::ResolveReply(u) => {
                a.reply = Some(found(u.clone(), r.reply));
                format!("reply {}", u)
            }
            SaveStep::FindParent(id) => {
                a.parent = parent.take();
                format!("parent {}", id)
            }
            SaveStep::FindAddressees(us) => {
                a.addressees = addressees.take();
                format!("who {}", us.join(","))
            }
            SaveStep::FindOriginal(u) => {
                a.original = Some(r.original);
                format!("original {}", u)
            }
            SaveStep::Insert(p) => {
                a.kept = Some(r.kept);
                put_in = Some(p);
                "insert".to_string()
            }
            last => return (names, put_in, last),
        };
        names.push(name);
    }
    unreachable!("the steps never end")
}

#[test]
fn delivered_note_is_put_in() {
    let q = request(
        note(vec![
            ("content", txt("<p>Hello</p>")),
            ("summary", txt("careful")),
            ("to", arr(vec![txt("https://www.w3.org/ns/activitystreams#Public")])),
        ]),
        ReferenceResolutionMode::OneHopFetch,
    );
    let (names, post, last) = run(&q, replies());
    assert_eq!(
        names,
        vec![
            "find https://remote.example/notes/1",
            "id 1704164645",
            "author https://remote.example/users/bob",
            "own Hello",
            "record remote.example 0",
            "to 1 cc 0",
            "insert",
        ]
    );
    let p = post.unwrap();
    assert_eq!(p.id, 7);
    assert_eq!(p.actor_id, 3);
    assert_eq!(p.body, "Hello");
    assert_eq!(p.content_html.as_deref(), Some("<p>Hello</p>"));
    assert_eq!(p.ap_object_id, "https://remote.example/notes/1");
    assert_eq!(p.created_at.secs, 1704164645);
    assert!(p.visibility == Visibility::Public);
    assert_eq!(p.reply_to_post_id, None);
    assert_eq!(p.thread_root_post_id, None);
    assert!(p.recipient_actor_ids.is_empty());
    match last {
        SaveStep::Saved(s) => {
            assert_eq!(s.post_id, 70);
            assert_eq!(s.content_warning.as_deref(), Some("careful"));
            assert!(s.poll.is_none());
            assert!(s.link_cards.is_empty());
            assert!(s.attachments.is_empty());
        }
        _ => panic!("the note was not kept"),
    }
}

#[test]
fn object_that_is_no_note_is_refused() {
    let q = request(
        obj(vec![("type", txt("Person")), ("id", txt("https://remote.example/1"))]),
        ReferenceResolutionMode::DbOnly,
    );
    let a = SaveAnswers::none();
    assert!(matches!(next_save_step(&q, &a), SaveStep::Refuse(NoteError::NotANote)));
    let q = request(obj(vec![("type", txt("Note"))]), ReferenceResolutionMode::DbOnly);
    assert!(matches!(next_save_step(&q, &a), SaveStep::Refuse(NoteError::MissingId)));
}

#[test]
fn known_note_ends_the_keeping() {
    let q = request(note(vec![]), ReferenceResolutionMode::OneHopFetch);
    let mut a = SaveAnswers::none();
    a.known = Some(Some(44));
    assert!(matches!(next_save_step(&q, &a), SaveStep::Known(44)));
}

#[test]
fn loopback_note_is_not_put_in() {
    let q = request(
        note(vec![("url", txt("https://seiran.example/notes/99"))]),
        ReferenceResolutionMode::OneHopFetch,
    );
    let (names, post, last) = run(&q, replies());
    assert!(post.is_none());
    assert!(!names.contains(&"insert".to_string()));
    assert!(matches!(last, SaveStep::Known(99)));
}

#[test]
fn note_that_is_not_found_again_is_lost() {
    let q = request(note(vec![]), ReferenceResolutionMode::OneHopFetch);
    let mut r = replies();
    r.kept = None;
    let (_, post, last) = run(&q, r);
    assert!(post.is_some());
    assert!(matches!(last, SaveStep::Lost(u) if u == "https://remote.example/notes/1"));
}

#[test]
fn message_reaches_its_local_addressees() {
    let content = vec![
        ("content", txt("psst")),
        ("inReplyTo", txt("https://seiran.example/notes/8")),
        (
            "to",
            arr(vec![
                txt("https://seiran.example/users/alice"),
                txt("https://remote.example/users/carol"),
            ]),
        ),
    ];
    let q = request(note(content), ReferenceResolutionMode::OneHopFetch);
    let mut r = replies();
    r.addressed = Visibility::Direct;
    r.reply = Some(8);
    r.parent = Some(meta(20, "direct", Some(2)));
    r.addressees = vec![Some(local(20, "alice"))];
    let (names, post, _) = run(&q, r);
    assert!(names.contains(&"parent 8".to_string()));
    assert!(names.contains(&"who alice".to_string()));
    let p = post.unwrap();
    assert!(p.visibility == Visibility::Direct);
    assert_eq!(p.reply_to_post_id, Some(8));
    assert_eq!(p.thread_root_post_id, Some(2));
    assert_eq!(p.recipient_actor_ids, vec![20]);
}

#[test]
fn fetched_message_reaches_nobody() {
    let content = vec![
        ("content", txt("psst")),
        ("to", arr(vec![txt("https://seiran.example/users/alice")])),
    ];
    let q = request(note(content), ReferenceResolutionMode::DbOnly);
    let mut r = replies();
    r.addressed = Visibility::Direct;
    r.addressees = vec![Some(local(20, "alice"))];
    let (names, post, _) = run(&q, r);
    assert!(!names.iter().any(|n| n.starts_with("who")));
    let p = post.unwrap();
    assert!(p.recipient_actor_ids.is_empty());
    assert_eq!(p.thread_root_post_id, None);
}

#[test]
fn message_that_starts_a_thread_is_its_root() {
    let q = request(note(vec![("to", txt("https://seiran.example/users/alice"))]),
        ReferenceResolutionMode::OneHopFetch);
    let mut r = replies();
    r.addressed = Visibility::Direct;
    r.addressees = vec![None];
    let (_, post, _) = run(&q, r);
    let p = post.unwrap();
    assert_eq!(p.thread_root_post_id, Some(7));
    assert!(p.recipient_actor_ids.is_empty());
}

fn emoji_tag(name: &str, url: &str) -> Json {
    obj(vec![
        ("type", txt("Emoji")),
        ("name", txt(name)),
        ("icon", obj(vec![("url", txt(url))])),
    ])
}

#[test]
fn lacking_tags_come_from_the_note_itself() {
    let q = request(
        note(vec![("content", txt("hi :cat:"))]),
        ReferenceResolutionMode::OneHopFetch,
    );
    let mut r = replies();
    r.codes = vec!["cat".to_string()];
    r.canonical = Some(note(vec![(
        "tag",
        arr(vec![emoji_tag(":cat:", "https://remote.example/cat.webp")]),
    )]));
    let (names, post, last) = run(&q, r);
    assert!(names.contains(&"fetch https://remote.example/notes/1".to_string()));
    assert!(names.contains(&"all hi :cat:".to_string()));
    assert!(names.contains(&"record remote.example 1".to_string()));
    assert!(!names.iter().any(|n| n.starts_with("emojis")));
    let p = post.unwrap();
    assert_eq!(p.emoji_map.text_at(":cat:"), Some("https://remote.example/cat.webp"));
    match last {
        SaveStep::Saved(s) => assert_eq!(s.tags.len(), 1),
        _ => panic!("the note was not kept"),
    }
}

#[test]
fn tags_are_not_fetched_from_another_origin() {
    let mut q = request(
        note(vec![("content", txt("hi :cat:"))]),
        ReferenceResolutionMode::OneHopFetch,
    );
    q.actor_uri = "https://elsewhere.example/users/bob".to_string();
    let mut r = replies();
    r.codes = vec!["cat".to_string()];
    r.on_record = vec![("cat".to_string(), "https://remote.example/old.webp".to_string())];
    let (names, post, _) = run(&q, r);
    assert!(!names.iter().any(|n| n.starts_with("fetch")));
    assert!(names.contains(&"emojis remote.example cat".to_string()));
    assert_eq!(post.unwrap().emoji_map.text_at(":cat:"), Some("https://remote.example/old.webp"));
}

#[test]
fn quote_is_resolved_and_its_lines_are_cut() {
    let html = "<p>QUOTE</p><p>look<br>RE: <a href=\"https://q.example/1\">https://q.example/1</a></p>";
    let q = request(
        note(vec![("content", txt(html)), ("quoteUrl", txt("https://q.example/1"))]),
        ReferenceResolutionMode::OneHopFetch,
    );
    let mut r = replies();
    r.quote = Some(15);
    let (names, post, _) = run(&q, r);
    assert_eq!(names[3], "paragraph https://q.example/1");
    assert!(!names.iter().any(|n| n.starts_with("leading")));
    assert!(names.contains(&"quote https://q.example/1".to_string()));
    assert!(names.contains(&"line https://q.example/1".to_string()));
    let p = post.unwrap();
    assert_eq!(p.quote_of_post_id, Some(15));
    assert_eq!(p.body, "look");
    assert_eq!(p.content_html.as_deref(), Some("<p>look"));
}

#[test]
fn first_line_is_cut_where_no_paragraph_is_marked() {
    for (html, body) in [("<p>RE</p><p>look</p>", "look"), ("<p>look</p>", "look")] {
        let q = request(
            note(vec![("content", txt(html)), ("quoteUrl", txt("https://q.example/1"))]),
            ReferenceResolutionMode::OneHopFetch,
        );
        let (names, post, _) = run(&q, replies());
        assert_eq!(names[3], "paragraph https://q.example/1");
        assert_eq!(names[4], "leading https://q.example/1");
        assert_eq!(post.unwrap().body, body);
    }
}

#[test]
fn unresolved_quote_keeps_its_address() {
    let q = request(
        note(vec![("content", txt("look")), ("quoteUrl", txt("https://q.example/1"))]),
        ReferenceResolutionMode::DbOnly,
    );
    let (_, post, _) = run(&q, replies());
    let p = post.unwrap();
    assert_eq!(p.quote_of_post_id, None);
    assert_eq!(p.quote_of_ap_uri.as_deref(), Some("https://q.example/1"));
    assert!(p.quote_of_ref_status == Some(RefStatus::Pending));
}

#[test]
fn bridged_note_names_its_original() {
    let q = request(
        note(vec![("url", txt("https://bsky.app/profile/did:plc:abc/post/xyz"))]),
        ReferenceResolutionMode::OneHopFetch,
    );
    let mut r = replies();
    r.original = Some(31);
    let (names, post, _) = run(&q, r);
    assert!(names.contains(&"original at://did:plc:abc/app.bsky.feed.post/xyz".to_string()));
    assert_eq!(post.unwrap().parent_original_post_id, Some(31));
}

#[test]
fn stated_post_comes_before_the_standard_fields() {
    let mut q = request(
        note(vec![("content", txt("<p>standard</p>")), ("summary", txt("standard"))]),
        ReferenceResolutionMode::OneHopFetch,
    );
    q.stated = Some(SeiranPost {
        body: "stated [a](https://a.example/)".to_string(),
        emoji_map: obj(vec![]),
        visibility: "unlisted".to_string(),
        counterpart_post_id: Some("at://did:plc:a/app.bsky.feed.post/1".to_string()),
        content_warning: None,
        poll: None,
    });
    let (_, post, last) = run(&q, replies());
    let p = post.unwrap();
    assert_eq!(p.body, "stated [a](https://a.example/)");
    assert_eq!(p.content_html, None);
    assert!(p.visibility == Visibility::Unlisted);
    assert_eq!(p.claimed_at_uri.as_deref(), Some("at://did:plc:a/app.bsky.feed.post/1"));
    match last {
        SaveStep::Saved(s) => {
            assert_eq!(s.content_warning, None);
            assert_eq!(s.link_cards, vec!["https://a.example/"]);
        }
        _ => panic!("the note was not kept"),
    }
}

// ---------------------------------------------------------------------------
// Requests to follow, and acceptances.
// ---------------------------------------------------------------------------
fn follow() -> Json {
    obj(vec![
        ("type", txt("Follow")),
        ("actor", txt("https://remote.example/users/bob")),
        ("object", txt("https://seiran.example/users/alice")),
    ])
}

#[test]
fn request_to_follow_goes_step_by_step() {
    let mut a = FollowAnswers { local: None, follower: None, is_blocking: None };
    assert!(matches!(next_follow_step(&follow(), HERE, &a), FollowStep::FindLocal(n) if n == "alice"));
    a.local = Some(Some(local(20, "alice")));
    assert!(matches!(
        next_follow_step(&follow(), HERE, &a),
        FollowStep::UpsertFollower(u) if u == "https://remote.example/users/bob"
    ));
    a.follower = Some(info(3, "https://remote.example/inbox"));
    assert!(matches!(
        next_follow_step(&follow(), HERE, &a),
        FollowStep::FindBlock { local_actor_id: 20, follower_actor_id: 3 }
    ));
    a.is_blocking = Some(false);
    match next_follow_step(&follow(), HERE, &a) {
        FollowStep::Accept { follower_actor_id, local_actor_id, local_username, event, inbox, key_id } => {
            assert_eq!((follower_actor_id, local_actor_id), (3, 20));
            assert_eq!(local_username, "alice");
            assert_eq!(event.get("actor").unwrap().text_at("username"), Some("bob"));
            assert_eq!(inbox, "https://remote.example/inbox");
            assert_eq!(key_id, "https://seiran.example/users/alice#main-key");
        }
        _ => panic!("the request was not accepted"),
    }
}

#[test]
fn blocked_follower_is_ignored() {
    let a = FollowAnswers {
        local: Some(Some(local(20, "alice"))),
        follower: Some(info(3, "https://remote.example/inbox")),
        is_blocking: Some(true),
    };
    assert!(matches!(next_follow_step(&follow(), HERE, &a), FollowStep::Ignore));
}

#[test]
fn request_to_follow_is_refused_without_its_parties() {
    let mut a = FollowAnswers { local: Some(None), follower: None, is_blocking: None };
    assert!(matches!(next_follow_step(&follow(), HERE, &a), FollowStep::Refuse(_)));
    a.local = Some(Some(local(20, "alice")));
    a.follower = Some(info(3, ""));
    assert!(matches!(
        next_follow_step(&follow(), HERE, &a),
        FollowStep::Refuse(e) if e == "Follow: リモートアクターの inbox が取得できません"
    ));
    assert!(matches!(next_follow_step(&obj(vec![]), HERE, &a), FollowStep::Refuse(_)));
}

fn accept(object: Json) -> Json {
    obj(vec![
        ("type", txt("Accept")),
        ("actor", txt("https://remote.example/users/bob")),
        ("object", object),
    ])
}

#[test]
fn acceptance_by_identifier_checks_the_accepting_side_first() {
    let activity = accept(txt("https://seiran.example/activities/follow/20-3"));
    let mut a = AcceptAnswers { remote: None, local: None, changed_rows: None };
    assert!(matches!(
        next_accept_step(&activity, HERE, &a),
        AcceptStep::FindRemote(u) if u == "https://remote.example/users/bob"
    ));
    a.remote = Some(Some(remote(4, "mallory")));
    assert!(matches!(next_accept_step(&activity, HERE, &a), AcceptStep::Refuse(_)));
    a.remote = Some(Some(remote(3, "bob")));
    assert!(matches!(next_accept_step(&activity, HERE, &a), AcceptStep::FindLocalById(20)));
    a.local = Some(Some(local(20, "alice")));
    assert!(matches!(
        next_accept_step(&activity, HERE, &a),
        AcceptStep::Accept { local_actor_id: 20, remote_actor_id: 3 }
    ));
    a.changed_rows = Some(0);
    assert!(matches!(next_accept_step(&activity, HERE, &a), AcceptStep::Done));
    a.changed_rows = Some(1);
    match next_accept_step(&activity, HERE, &a) {
        AcceptStep::Tell { local_actor_id, remote_actor_id, event } => {
            assert_eq!((local_actor_id, remote_actor_id), (20, 3));
            assert_eq!(event.get("actor").unwrap().text_at("displayName"), Some("Remote"));
        }
        _ => panic!("nobody is told"),
    }
}

#[test]
fn acceptance_of_a_whole_request_asks_by_name() {
    let activity = accept(obj(vec![
        ("type", txt("Follow")),
        ("actor", txt("https://seiran.example/users/alice")),
    ]));
    let mut a = AcceptAnswers { remote: None, local: None, changed_rows: None };
    assert!(matches!(
        next_accept_step(&activity, HERE, &a),
        AcceptStep::FindLocalByName(n) if n == "alice"
    ));
    a.local = Some(None);
    assert!(matches!(next_accept_step(&activity, HERE, &a), AcceptStep::Refuse(_)));
    a.local = Some(Some(local(20, "alice")));
    assert!(matches!(next_accept_step(&activity, HERE, &a), AcceptStep::FindRemote(_)));
    a.remote = Some(Some(remote(3, "bob")));
    assert!(matches!(
        next_accept_step(&activity, HERE, &a),
        AcceptStep::Accept { local_actor_id: 20, remote_actor_id: 3 }
    ));
}

// ---------------------------------------------------------------------------
// Taking back.
// ---------------------------------------------------------------------------
fn undo(object: Json) -> Json {
    obj(vec![
        ("type", txt("Undo")),
        ("actor", txt("https://remote.example/users/bob")),
        ("object", object),
    ])
}

fn no_undo_answers() -> UndoAnswers {
    UndoAnswers {
        dropped_reaction: None,
        post_author: None,
        dropped_repost: false,
        remote: None,
        target: None,
        dropped_pair: false,
    }
}

#[test]
fn taken_back_reaction_is_shown_anew() {
    let activity = undo(obj(vec![
        ("type", txt("Like")),
        ("id", txt("https://remote.example/likes/1")),
    ]));
    let mut a = no_undo_answers();
    assert!(matches!(
        next_undo_step(&activity, HERE, &a),
        UndoStep::DropReaction(id) if id == "https://remote.example/likes/1"
    ));
    a.dropped_reaction = Some(Some((50, 3)));
    assert!(matches!(next_undo_step(&activity, HERE, &a), UndoStep::FindPostAuthor(50)));
    a.post_author = Some(Some(20));
    assert!(matches!(
        next_undo_step(&activity, HERE, &a),
        UndoStep::ShowReactions { post_id: 50, post_actor_id: 20, actor_id: 3 }
    ));
    a.dropped_reaction = Some(None);
    assert!(matches!(next_undo_step(&activity, HERE, &a), UndoStep::Done));
}

#[test]
fn taken_back_repost_is_dropped_once() {
    let activity = undo(obj(vec![
        ("type", txt("Announce")),
        ("id", txt("https://remote.example/announces/1")),
    ]));
    let mut a = no_undo_answers();
    assert!(matches!(
        next_undo_step(&activity, HERE, &a),
        UndoStep::DropRepost(id) if id == "https://remote.example/announces/1"
    ));
    a.dropped_repost = true;
    assert!(matches!(next_undo_step(&activity, HERE, &a), UndoStep::Done));
}

#[test]
fn taken_back_follow_is_of_both_sides() {
    let activity = undo(obj(vec![
        ("type", txt("Follow")),
        ("object", txt("https://seiran.example/users/alice")),
    ]));
    let mut a = no_undo_answers();
    assert!(matches!(next_undo_step(&activity, HERE, &a), UndoStep::FindRemote(_)));
    a.remote = Some(None);
    assert!(matches!(next_undo_step(&activity, HERE, &a), UndoStep::Done));
    a.remote = Some(Some(remote(3, "bob")));
    assert!(matches!(next_undo_step(&activity, HERE, &a), UndoStep::FindLocal(n) if n == "alice"));
    a.target = Some(Some(local(20, "alice")));
    assert!(matches!(next_undo_step(&activity, HERE, &a), UndoStep::DropFollow(3, 20)));
    a.dropped_pair = true;
    assert!(matches!(next_undo_step(&activity, HERE, &a), UndoStep::Done));
}

#[test]
fn taken_back_block_is_of_both_sides() {
    let activity = undo(obj(vec![
        ("type", txt("Block")),
        ("object", txt("https://seiran.example/users/alice")),
    ]));
    let mut a = no_undo_answers();
    a.remote = Some(Some(remote(3, "bob")));
    a.target = Some(Some(local(20, "alice")));
    assert!(matches!(next_undo_step(&activity, HERE, &a), UndoStep::DropBlock(3, 20)));
    a.target = Some(None);
    assert!(matches!(next_undo_step(&activity, HERE, &a), UndoStep::Done));
}

// ---------------------------------------------------------------------------
// Reposts.
// ---------------------------------------------------------------------------
fn announce() -> Json {
    obj(vec![
        ("type", txt("Announce")),
        ("id", txt("https://remote.example/announces/1")),
        ("actor", txt("https://remote.example/users/bob")),
        ("object", txt("https://seiran.example/notes/50")),
        ("published", txt("2024-01-02T03:04:05Z")),
        ("to", arr(vec![txt("https://www.w3.org/ns/activitystreams#Public")])),
    ])
}

fn announce_answers() -> AnnounceAnswers {
    AnnounceAnswers {
        visibility: Some(Visibility::Public),
        known: Some(false),
        post_id: Some(7),
        actor: Some(info(3, "https://remote.example/inbox")),
        target: Some(ReferenceOutcome::Resolved(50)),
        reposted_before: Some(false),
        inserted: false,
        meta: None,
    }
}

#[test]
fn repost_is_asked_about_in_order() {
    let mut a = announce_answers();
    a.visibility = None;
    assert!(matches!(
        next_announce_step(&announce(), at(5), &a),
        AnnounceStep::ClassifyVisibility { to, cc } if to.len() == 1 && cc.is_empty()
    ));
    let mut a = announce_answers();
    a.known = None;
    assert!(matches!(next_announce_step(&announce(), at(5), &a), AnnounceStep::FindPost(_)));
    a.known = Some(true);
    assert!(matches!(next_announce_step(&announce(), at(5), &a), AnnounceStep::Done));
    let mut a = announce_answers();
    a.post_id = None;
    assert!(matches!(
        next_announce_step(&announce(), at(5), &a),
        AnnounceStep::MakePostId(t) if t.secs == 1704164645
    ));
    let mut a = announce_answers();
    a.actor = None;
    assert!(matches!(next_announce_step(&announce(), at(5), &a), AnnounceStep::UpsertActor(_)));
    let mut a = announce_answers();
    a.target = None;
    assert!(matches!(
        next_announce_step(&announce(), at(5), &a),
        AnnounceStep::ResolveTarget(u) if u == "https://seiran.example/notes/50"
    ));
    let mut a = announce_answers();
    a.reposted_before = None;
    assert!(matches!(
        next_announce_step(&announce(), at(5), &a),
        AnnounceStep::FindRepost { actor_id: 3, post_id: 50 }
    ));
    a.reposted_before = Some(true);
    assert!(matches!(next_announce_step(&announce(), at(5), &a), AnnounceStep::Done));
}

#[test]
fn repost_is_kept_and_told() {
    let mut a = announce_answers();
    match next_announce_step(&announce(), at(5), &a) {
        AnnounceStep::Insert(p) => {
            assert_eq!((p.id, p.actor_id), (7, 3));
            assert_eq!(p.repost_of_post_id, Some(50));
            assert_eq!(p.repost_of_ap_uri, None);
            assert_eq!(p.created_at.secs, 1704164645);
        }
        _ => panic!("the repost was not kept"),
    }
    a.inserted = true;
    assert!(matches!(next_announce_step(&announce(), at(5), &a), AnnounceStep::FindMeta(50)));
    a.meta = Some(Some(meta(20, "public", None)));
    match next_announce_step(&announce(), at(5), &a) {
        AnnounceStep::Tell { target_actor_id, actor_id, post_id, .. } => {
            assert_eq!((target_actor_id, actor_id, post_id), (20, 3, 7));
        }
        _ => panic!("nobody is told"),
    }
}

#[test]
fn repost_of_an_unknown_post_keeps_its_address() {
    let mut a = announce_answers();
    a.target = Some(ReferenceOutcome::Unresolved {
        ap_uri: "https://other.example/1".to_string(),
        status: RefStatus::Gone,
    });
    a.reposted_before = None;
    match next_announce_step(&announce(), at(5), &a) {
        AnnounceStep::Insert(p) => {
            assert_eq!(p.repost_of_post_id, None);
            assert_eq!(p.repost_of_ap_uri.as_deref(), Some("https://other.example/1"));
            assert!(p.repost_of_ref_status == Some(RefStatus::Gone));
        }
        _ => panic!("the repost was not kept"),
    }
    a.inserted = true;
    assert!(matches!(next_announce_step(&announce(), at(5), &a), AnnounceStep::Done));
}

// ---------------------------------------------------------------------------
// Moves.
// ---------------------------------------------------------------------------
fn moving() -> Json {
    obj(vec![
        ("type", txt("Move")),
        ("actor", txt("https://old.example/users/bob")),
        ("object", txt("https://old.example/users/bob")),
        ("target", txt("https://remote.example/users/bob")),
    ])
}

fn move_answers() -> MoveAnswers {
    MoveAnswers {
        old_actor_id: None,
        claimed: None,
        new_actor: None,
        followers: None,
        migrated: false,
        list_ids: None,
    }
}

#[test]
fn move_goes_step_by_step() {
    let mut a = move_answers();
    assert!(matches!(next_move_step(&moving(), &a), MoveFlowStep::FindOldActor(_)));
    a.old_actor_id = Some(Some(2));
    assert!(matches!(
        next_move_step(&moving(), &a),
        MoveFlowStep::FetchTarget { target_uri, old_actor_uri }
            if target_uri == "https://remote.example/users/bob"
                && old_actor_uri == "https://old.example/users/bob"
    ));
    a.claimed = Some(Some(true));
    assert!(matches!(next_move_step(&moving(), &a), MoveFlowStep::UpsertTarget(_)));
    a.new_actor = Some(info(3, "https://remote.example/inbox"));
    assert!(matches!(next_move_step(&moving(), &a), MoveFlowStep::FindFollowers(2)));
    a.followers = Some(vec![20, 3, 21]);
    match next_move_step(&moving(), &a) {
        MoveFlowStep::Migrate { followers, old_actor_id, .. } => {
            assert_eq!(followers, vec![20, 21]);
            assert_eq!(old_actor_id, 2);
        }
        _ => panic!("nobody goes over"),
    }
    a.migrated = true;
    assert!(matches!(next_move_step(&moving(), &a), MoveFlowStep::FindLists(2)));
    a.list_ids = Some(vec![9]);
    match next_move_step(&moving(), &a) {
        MoveFlowStep::ReplaceInLists { list_ids, old_actor_id, new_actor_id } => {
            assert_eq!(list_ids, vec![9]);
            assert_eq!((old_actor_id, new_actor_id), (2, 3));
        }
        _ => panic!("the lists stay"),
    }
}

#[test]
fn unconfirmed_move_ends() {
    let mut a = move_answers();
    a.old_actor_id = Some(None);
    assert!(matches!(next_move_step(&moving(), &a), MoveFlowStep::Done));
    a.old_actor_id = Some(Some(2));
    a.claimed = Some(None);
    assert!(matches!(next_move_step(&moving(), &a), MoveFlowStep::Done));
    a.claimed = Some(Some(false));
    assert!(matches!(next_move_step(&moving(), &a), MoveFlowStep::Done));
    assert!(matches!(next_move_step(&obj(vec![]), &a), MoveFlowStep::Refuse(_)));
}

#[test]
fn move_to_oneself_ends() {
    let mut a = move_answers();
    a.old_actor_id = Some(Some(3));
    a.claimed = Some(Some(true));
    a.new_actor = Some(info(3, "https://remote.example/inbox"));
    assert!(matches!(next_move_step(&moving(), &a), MoveFlowStep::Done));
}

// ---------------------------------------------------------------------------
// The import of an account that moves here.
// ---------------------------------------------------------------------------
fn migration(status: &str) -> MigrationRequest {
    MigrationRequest {
        status: status.to_string(),
        actor_id: Some(20),
        source_did: "did:plc:a".to_string(),
        source_handle: "alice.old.example".to_string(),
        source_access_jwt: Some("access".to_string()),
        source_refresh_jwt: None,
        source_pds_endpoint: "https://old.example".to_string(),
    }
}

fn import_answers(status: &str) -> ImportAnswers {
    ImportAnswers {
        configured: true,
        request: Some(Some(migration(status))),
        record: None,
        value: None,
        post_id: None,
        inserted: false,
        committed: false,
        marked_record: false,
        blob: None,
        stored: false,
        marked_blob: false,
        closed: false,
    }
}

#[test]
fn imports_wait_for_a_server_that_is_set_up() {
    let mut a = import_answers("importing_data");
    a.configured = false;
    assert!(matches!(
        next_import_action(HERE, at(5), &a),
        ImportAction::Fail(JobError::Transient(e))
            if e == "[MigrationImportProcess] FollowExecConfig 未設定"
    ));
    a.request = Some(None);
    assert!(matches!(next_import_action(HERE, at(5), &a), ImportAction::Stop));
    let mut a = round("done");
    a.configured = false;
    assert!(matches!(
        next_round_step(&a),
        RoundStep::Fail(e) if e == "[FollowImportProcess] FollowExecConfig 未設定"
    ));
}

#[test]
fn import_of_a_post_goes_step_by_step() {
    let mut a = import_answers("importing_data");
    a.request = None;
    assert!(matches!(next_import_action(HERE, at(5), &a), ImportAction::FindRequest));
    a.request = Some(Some(migration("importing_data")));
    assert!(matches!(next_import_action(HERE, at(5), &a), ImportAction::ClaimRecord));
    a.record = Some(Some(ClaimedRecord {
        id: 11,
        collection: "app.bsky.feed.post".to_string(),
        rkey: "3k".to_string(),
    }));
    assert!(matches!(next_import_action(HERE, at(5), &a), ImportAction::DecodeRecord));
    a.value = Some(Ok(obj(vec![
        ("text", txt("hello")),
        ("createdAt", txt("2024-01-02T03:04:05Z")),
    ])));
    assert!(matches!(next_import_action(HERE, at(5), &a), ImportAction::MakePostId));
    a.post_id = Some(7);
    match next_import_action(HERE, at(5), &a) {
        ImportAction::InsertPost(p) => {
            assert_eq!((p.id, p.actor_id), (7, 20));
            assert_eq!(p.body, "hello");
            assert_eq!(p.created_at.secs, 1704164645);
        }
        _ => panic!("the post is not put in"),
    }
    a.inserted = true;
    assert!(matches!(
        next_import_action(HERE, at(5), &a),
        ImportAction::CommitPost { actor_id: 20, post_id: 7, rkey } if rkey == "3k"
    ));
    a.committed = true;
    assert!(matches!(next_import_action(HERE, at(5), &a), ImportAction::MarkRecord(11)));
    a.marked_record = true;
    assert!(matches!(next_import_action(HERE, at(5), &a), ImportAction::Continue));
}

#[test]
fn import_of_another_record_keeps_it_as_it_is() {
    let mut a = import_answers("importing_data");
    a.record = Some(Some(ClaimedRecord {
        id: 12,
        collection: "app.bsky.graph.follow".to_string(),
        rkey: "3k".to_string(),
    }));
    a.value = Some(Ok(obj(vec![])));
    assert!(matches!(
        next_import_action(HERE, at(5), &a),
        ImportAction::CommitRecord { actor_id: 20, collection, .. }
            if collection == "app.bsky.graph.follow"
    ));
    a.value = Some(Err("bad".to_string()));
    assert!(matches!(
        next_import_action(HERE, at(5), &a),
        ImportAction::Fail(JobError::Permanent(m))
            if m == "[MigrationImportProcess] レコードのCBORデコード失敗 (id=12): bad"
    ));
}

#[test]
fn import_of_a_file_then_the_end() {
    let mut a = import_answers("importing_data");
    a.record = Some(None);
    assert!(matches!(next_import_action(HERE, at(5), &a), ImportAction::ClaimBlob));
    a.blob = Some(Some(ClaimedBlob { id: 13, cid: "bafy".to_string() }));
    match next_import_action(HERE, at(5), &a) {
        ImportAction::ImportBlob { endpoint, session, actor_id, cid } => {
            assert_eq!(endpoint, "https://old.example");
            assert_eq!(session.access_jwt, "access");
            assert_eq!(session.refresh_jwt, "");
            assert_eq!(actor_id, 20);
            assert_eq!(cid, "bafy");
        }
        _ => panic!("the file is not imported"),
    }
    a.stored = true;
    assert!(matches!(next_import_action(HERE, at(5), &a), ImportAction::MarkBlob(13)));
    a.marked_blob = true;
    assert!(matches!(next_import_action(HERE, at(5), &a), ImportAction::Continue));
    a.blob = Some(None);
    match next_import_action(HERE, at(5), &a) {
        ImportAction::Close(step) => {
            assert!(step.status == MigrationStatus::DeactivatingSource);
            assert!(step.enqueue == Some(MigrationJob::DeactivateSource));
        }
        _ => panic!("the import does not end"),
    }
    a.closed = true;
    assert!(matches!(next_import_action(HERE, at(5), &a), ImportAction::Stop));
}

#[test]
fn import_in_another_status_stops() {
    let a = import_answers("completed");
    assert!(matches!(next_import_action(HERE, at(5), &a), ImportAction::Stop));
    let mut a = import_answers("importing_data");
    a.request = Some(None);
    assert!(matches!(next_import_action(HERE, at(5), &a), ImportAction::Stop));
}

// ---------------------------------------------------------------------------
// Following a list of accounts.
// ---------------------------------------------------------------------------
fn round(status: &str) -> RoundAnswers {
    RoundAnswers {
        configured: true,
        request: Some(Some(ImportRequest { status: status.to_string(), actor_id: 20 })),
        item: None,
        completed: false,
        rate: None,
        requester: None,
        outcome: None,
        marked: false,
    }
}

#[test]
fn round_follows_one_account() {
    let mut a = round("running");
    a.request = None;
    assert!(matches!(next_round_step(&a), RoundStep::FindRequest));
    let mut a = round("running");
    assert!(matches!(next_round_step(&a), RoundStep::ClaimItem));
    a.item = Some(Some(ImportItem { id: 4, target: "bob@remote.example".to_string() }));
    assert!(matches!(next_round_step(&a), RoundStep::CheckRate(20)));
    a.rate = Some(RateCheck::Allowed);
    assert!(matches!(next_round_step(&a), RoundStep::FindRequester(20)));
    a.requester = Some(Some("alice".to_string()));
    assert!(matches!(
        next_round_step(&a),
        RoundStep::Follow { target, actor_id: 20, username }
            if target == "bob@remote.example" && username == "alice"
    ));
    a.outcome = Some(FollowOutcome::Pending { already_following: true });
    assert!(matches!(
        next_round_step(&a),
        RoundStep::MarkItem { item_id: 4, outcome: FollowImportItemOutcome::AlreadyFollowing }
    ));
    a.marked = true;
    assert!(matches!(next_round_step(&a), RoundStep::Next(NextAction::Continue)));
}

#[test]
fn round_waits_at_the_limit() {
    let mut a = round("running");
    a.item = Some(Some(ImportItem { id: 4, target: "bob@remote.example".to_string() }));
    a.rate = Some(RateCheck::Exceeded);
    assert!(matches!(next_round_step(&a), RoundStep::Next(NextAction::RetryAfter(_))));
    a.rate = Some(RateCheck::Failed("no".to_string()));
    assert!(matches!(next_round_step(&a), RoundStep::Fail(_)));
}

#[test]
fn round_ends_where_nothing_is_left() {
    let mut a = round("running");
    a.item = Some(None);
    assert!(matches!(next_round_step(&a), RoundStep::MarkCompleted));
    a.completed = true;
    assert!(matches!(next_round_step(&a), RoundStep::Next(NextAction::Stop)));
    let a = round("canceled");
    assert!(matches!(next_round_step(&a), RoundStep::Next(NextAction::Stop)));
    let mut a = round("running");
    a.item = Some(Some(ImportItem { id: 4, target: "bob".to_string() }));
    a.rate = Some(RateCheck::Allowed);
    a.requester = Some(None);
    assert!(matches!(
        next_round_step(&a),
        RoundStep::Fail(e) if e == "[FollowImportProcess] 実行者アクターが見つかりません"
    ));
}

// ---------------------------------------------------------------------------
// A delivered note that was kept.
// ---------------------------------------------------------------------------
fn kept(more: Vec<(&str, Json)>, r: Replies) -> KeptNote {
    let q = request(note(more), ReferenceResolutionMode::OneHopFetch);
    match run(&q, r).2 {
        SaveStep::Saved(saved) => KeptNote { saved, remote: info(3, "https://remote.example/inbox") },
        _ => panic!("the note was not kept"),
    }
}

fn create() -> Json {
    obj(vec![("type", txt("Create")), ("actor", txt("https://remote.example/users/bob"))])
}

#[test]
fn delivered_note_is_told_and_shown() {
    let mention = obj(vec![
        ("type", txt("Mention")),
        ("href", txt("https://seiran.example/users/alice")),
    ]);
    let mut r = replies();
    r.quote = Some(15);
    r.reply = Some(8);
    let mut a = CreateAnswers::none();
    assert!(matches!(
        next_create_step(&create(), HERE, &a),
        CreateStep::Keep(u) if u == "https://remote.example/users/bob"
    ));
    a.kept = Some(Some(kept(
        vec![
            ("content", txt("hi #tag")),
            ("quoteUrl", txt("https://q.example/1")),
            ("inReplyTo", txt("https://seiran.example/notes/8")),
            ("tag", arr(vec![mention])),
        ],
        r,
    )));
    assert!(matches!(next_create_step(&create(), HERE, &a), CreateStep::FindQuoted(15)));
    a.quoted = Some(Some(meta(21, "public", None)));
    assert!(matches!(next_create_step(&create(), HERE, &a), CreateStep::FindParent(8)));
    a.parent = Some(Some(meta(22, "public", None)));
    assert!(matches!(
        next_create_step(&create(), HERE, &a),
        CreateStep::FindMentioned(us) if us == vec!["alice"]
    ));
    a.mentioned = Some(vec![Some(local(20, "alice")), Some(local(20, "alice")), None]);
    match next_create_step(&create(), HERE, &a) {
        CreateStep::Tell { notices, from_actor_id, post_id, event } => {
            let told: Vec<(i64, NoticeKind)> =
                notices.iter().map(|n| (n.target_actor_id, n.kind)).collect();
            assert_eq!(
                told,
                vec![
                    (21, NoticeKind::Quote),
                    (22, NoticeKind::Reply),
                    (20, NoticeKind::Mention),
                ]
            );
            assert_eq!((from_actor_id, post_id), (3, 70));
            assert_eq!(event.text_at("postId"), Some("70"));
        }
        _ => panic!("nobody is told"),
    }
    a.told = true;
    assert!(matches!(
        next_create_step(&create(), HERE, &a),
        CreateStep::FindFollowers { actor_id: 3, reply_to_post_id: Some(8) }
    ));
    a.followers = Some(vec![20, 21, 20]);
    assert!(matches!(next_create_step(&create(), HERE, &a), CreateStep::FindLists(3)));
    a.list_ids = Some(vec![9, 9]);
    assert!(matches!(
        next_create_step(&create(), HERE, &a),
        CreateStep::FindHashtags(b) if b == "hi #tag"
    ));
    a.hashtags = Some(vec!["tag".to_string()]);
    match next_create_step(&create(), HERE, &a) {
        CreateStep::Show { visibility, home, list_ids, hashtags, note } => {
            assert!(visibility == Visibility::Public);
            assert_eq!(home, vec![20, 21, 3]);
            assert_eq!(list_ids, vec![9]);
            assert_eq!(hashtags, vec!["tag"]);
            assert_eq!(note.text_at("text"), Some("hi #tag"));
            assert_eq!(note.text_at("createdAt"), Some("2024-01-02T03:04:05+00:00"));
        }
        _ => panic!("the note is not shown"),
    }
    a.shown = true;
    assert!(matches!(next_create_step(&create(), HERE, &a), CreateStep::Done));
}

#[test]
fn known_note_is_told_to_nobody() {
    let mut a = CreateAnswers::none();
    a.kept = Some(None);
    assert!(matches!(next_create_step(&create(), HERE, &a), CreateStep::Done));
    assert!(matches!(
        next_create_step(&obj(vec![]), HERE, &a),
        CreateStep::Refuse(e) if e == "Create: actor がありません"
    ));
}

#[test]
fn message_is_shown_to_its_recipients_only() {
    let mut r = replies();
    r.addressed = Visibility::Direct;
    r.addressees = vec![Some(local(20, "alice")), Some(local(20, "alice"))];
    let to = arr(vec![
        txt("https://seiran.example/users/alice"),
        txt("https://seiran.example/users/alice"),
    ]);
    let mut a = CreateAnswers::none();
    a.kept = Some(Some(kept(vec![("content", txt("psst")), ("to", to)], r)));
    match next_create_step(&create(), HERE, &a) {
        CreateStep::ShowTo { recipients, note } => {
            assert_eq!(recipients, vec![20]);
            assert_eq!(note.text_at("visibility"), Some("direct"));
        }
        _ => panic!("the message is not shown"),
    }
}

// ---------------------------------------------------------------------------
// Reactions and votes.
// ---------------------------------------------------------------------------
fn reaction_answers() -> ReactionAnswers {
    ReactionAnswers {
        found: None,
        actor: None,
        recorded: false,
        inserted: false,
        told: false,
        shown: false,
    }
}

#[test]
fn reaction_goes_step_by_step() {
    let activity = obj(vec![
        ("type", txt("Like")),
        ("id", txt("https://remote.example/likes/1")),
        ("actor", txt("https://remote.example/users/bob")),
        ("object", txt("https://seiran.example/notes/50")),
        ("content", txt(":cat:")),
        ("tag", arr(vec![emoji_tag(":cat:", "https://remote.example/cat.webp")])),
    ]);
    let mut a = reaction_answers();
    assert!(matches!(
        next_reaction_step(&activity, &a),
        ReactionStep::FindPost(u) if u == "https://seiran.example/notes/50"
    ));
    a.found = Some(None);
    assert!(matches!(next_reaction_step(&activity, &a), ReactionStep::Done));
    a.found = Some(Some((50, 20)));
    assert!(matches!(next_reaction_step(&activity, &a), ReactionStep::UpsertActor(_)));
    a.actor = Some(info(3, "https://remote.example/inbox"));
    match next_reaction_step(&activity, &a) {
        ReactionStep::RecordEmojis { domain, emojis } => {
            assert_eq!(domain, "remote.example");
            assert_eq!(emojis.len(), 1);
            assert_eq!(emojis[0].url, "https://remote.example/cat.webp");
        }
        _ => panic!("the emoji does not go on record"),
    }
    a.recorded = true;
    match next_reaction_step(&activity, &a) {
        ReactionStep::Insert { post_id, actor_id, kind, reaction } => {
            assert_eq!((post_id, actor_id, kind), (50, 3, "emoji"));
            assert_eq!(reaction.content, ":cat:");
            assert_eq!(reaction.activity_id.as_deref(), Some("https://remote.example/likes/1"));
        }
        _ => panic!("the reaction is not put in"),
    }
    a.inserted = true;
    match next_reaction_step(&activity, &a) {
        ReactionStep::Tell { target_actor_id, actor_id, post_id, event, .. } => {
            assert_eq!((target_actor_id, actor_id, post_id), (20, 3, 50));
            assert_eq!(event.text_at("emojiUrl"), Some("https://remote.example/cat.webp"));
        }
        _ => panic!("the author is not told"),
    }
    a.told = true;
    assert!(matches!(
        next_reaction_step(&activity, &a),
        ReactionStep::Show { post_id: 50, author_id: 20, actor_id: 3, content } if content == ":cat:"
    ));
    a.shown = true;
    assert!(matches!(next_reaction_step(&activity, &a), ReactionStep::Done));
}

#[test]
fn reaction_without_an_emoji_is_a_like() {
    let activity = obj(vec![
        ("type", txt("EmojiReact")),
        ("actor", txt("https://remote.example/users/bob")),
        ("object", obj(vec![("id", txt("https://seiran.example/notes/50"))])),
    ]);
    let mut a = reaction_answers();
    a.found = Some(Some((50, 20)));
    a.actor = Some(info(3, "https://remote.example/inbox"));
    assert!(matches!(
        next_reaction_step(&activity, &a),
        ReactionStep::Insert { kind: "like", reaction, .. } if reaction.content == "❤️"
    ));
    assert!(matches!(next_reaction_step(&obj(vec![]), &a), ReactionStep::Refuse(_)));
}

fn ballot() -> Json {
    obj(vec![
        ("type", txt("Create")),
        ("actor", txt("https://remote.example/users/bob")),
        (
            "object",
            obj(vec![
                ("id", txt("https://remote.example/votes/1")),
                ("inReplyTo", txt("https://seiran.example/notes/50")),
                ("name", txt("tea")),
            ]),
        ),
    ])
}

fn tea_or_coffee() -> Json {
    let option = |name: &str, votes: i64| obj(vec![("name", txt(name)), ("votes", Json::Int(votes))]);
    obj(vec![("options", arr(vec![option("coffee", 4), option("tea", 2)]))])
}

fn vote_answers() -> VoteAnswers {
    VoteAnswers {
        found: Some(Some((50, 20))),
        actor: Some(info(3, "https://remote.example/inbox")),
        poll: Some(Some(tea_or_coffee())),
        inserted_rows: None,
        counted: false,
        shown: false,
        told: false,
    }
}

#[test]
fn vote_goes_step_by_step() {
    let mut a = vote_answers();
    a.found = None;
    assert!(matches!(next_vote_step(&ballot(), &a), VoteStep::FindPost(_)));
    a.found = Some(None);
    assert!(matches!(next_vote_step(&ballot(), &a), VoteStep::Done));
    let mut a = vote_answers();
    a.actor = None;
    assert!(matches!(next_vote_step(&ballot(), &a), VoteStep::UpsertActor(_)));
    let mut a = vote_answers();
    a.poll = None;
    assert!(matches!(next_vote_step(&ballot(), &a), VoteStep::FindPoll(50)));
    a.poll = Some(None);
    assert!(matches!(next_vote_step(&ballot(), &a), VoteStep::Done));
    let mut a = vote_answers();
    assert!(matches!(
        next_vote_step(&ballot(), &a),
        VoteStep::Insert { post_id: 50, actor_id: 3, option_index: 1, activity_id: Some(id) }
            if id == "https://remote.example/votes/1"
    ));
    a.inserted_rows = Some(1);
    match next_vote_step(&ballot(), &a) {
        VoteStep::Count { post_id, poll } => {
            assert_eq!(post_id, 50);
            let options = poll.arr_at("options").unwrap();
            assert_eq!(options[0].int_at("votes"), Some(4));
            assert_eq!(options[1].int_at("votes"), Some(3));
        }
        _ => panic!("the vote is not counted"),
    }
    a.counted = true;
    assert!(matches!(
        next_vote_step(&ballot(), &a),
        VoteStep::Show { post_id: 50, author_id: 20, .. }
    ));
    a.shown = true;
    assert!(matches!(next_vote_step(&ballot(), &a), VoteStep::Tell { author_id: 20, .. }));
    a.told = true;
    assert!(matches!(next_vote_step(&ballot(), &a), VoteStep::Done));
}

#[test]
fn vote_that_was_cast_before_is_not_counted() {
    let mut a = vote_answers();
    a.inserted_rows = Some(0);
    assert!(matches!(next_vote_step(&ballot(), &a), VoteStep::Tell { .. }));
    a.found = Some(Some((50, 3)));
    assert!(matches!(next_vote_step(&ballot(), &a), VoteStep::Done));
    a.poll = Some(Some(obj(vec![])));
    assert!(matches!(next_vote_step(&ballot(), &a), VoteStep::Done));
    assert!(matches!(next_vote_step(&obj(vec![]), &a), VoteStep::Refuse(_)));
}

// ---------------------------------------------------------------------------
// Changes.
// ---------------------------------------------------------------------------
fn update_answers() -> UpdateAnswers {
    UpdateAnswers {
        found_poll: None,
        found_note: None,
        sender: None,
        updated: false,
        shown: false,
        candidate: None,
        merged: false,
        queued: false,
    }
}

fn updated(object: Json) -> Json {
    obj(vec![
        ("type", txt("Update")),
        ("actor", txt("https://remote.example/users/bob")),
        ("object", object),
    ])
}

#[test]
fn changed_poll_is_of_its_author() {
    let option = obj(vec![
        ("name", txt("tea")),
        ("replies", obj(vec![("totalItems", Json::Int(5))])),
    ]);
    let activity = updated(obj(vec![
        ("type", txt("Question")),
        ("id", txt("https://remote.example/polls/1")),
        ("oneOf", arr(vec![option])),
    ]));
    let mut a = update_answers();
    assert!(matches!(
        next_update_step(&activity, &None, &a),
        UpdateStep::FindPost(u) if u == "https://remote.example/polls/1"
    ));
    a.found_poll = Some(Some((50, 3)));
    assert!(matches!(next_update_step(&activity, &None, &a), UpdateStep::FindSender(_)));
    a.sender = Some(Some(4));
    assert!(matches!(next_update_step(&activity, &None, &a), UpdateStep::Done));
    a.sender = Some(Some(3));
    match next_update_step(&activity, &None, &a) {
        UpdateStep::UpdatePoll { post_id, poll } => {
            assert_eq!(post_id, 50);
            assert_eq!(poll.arr_at("options").unwrap()[0].int_at("votes"), Some(5));
        }
        _ => panic!("the poll stays"),
    }
    a.updated = true;
    assert!(matches!(
        next_update_step(&activity, &None, &a),
        UpdateStep::ShowPoll { post_id: 50, author_id: 3, .. }
    ));
    a.shown = true;
    assert!(matches!(next_update_step(&activity, &None, &a), UpdateStep::Done));
}

#[test]
fn changed_note_merges_with_its_match() {
    let at_uri = "at://did:plc:a/app.bsky.feed.post/1";
    let activity = updated(note(vec![]));
    let stated = Some(SeiranPost {
        body: "b".to_string(),
        emoji_map: obj(vec![]),
        visibility: "public".to_string(),
        counterpart_post_id: Some(at_uri.to_string()),
        content_warning: None,
        poll: None,
    });
    let mut a = update_answers();
    assert!(matches!(next_update_step(&activity, &None, &a), UpdateStep::Done));
    assert!(matches!(next_update_step(&activity, &stated, &a), UpdateStep::FindNote(_)));
    a.found_note = Some(Some(ClaimingPost { post_id: 50, author_id: 3, at_uri: None }));
    assert!(matches!(next_update_step(&activity, &stated, &a), UpdateStep::FindSender(_)));
    a.sender = Some(Some(4));
    assert!(matches!(next_update_step(&activity, &stated, &a), UpdateStep::Done));
    a.sender = Some(Some(3));
    assert!(matches!(
        next_update_step(&activity, &stated, &a),
        UpdateStep::RecordClaim { post_id: 50, at_uri: u, .. } if u == at_uri
    ));
    a.candidate = Some(None);
    assert!(matches!(next_update_step(&activity, &stated, &a), UpdateStep::Done));
    a.candidate = Some(Some(MergeCandidate {
        post_id: 51,
        author_id: 3,
        claimed_ap_object_id: Some("https://remote.example/notes/1".to_string()),
    }));
    assert!(matches!(
        next_update_step(&activity, &stated, &a),
        UpdateStep::Merge { survivor_id: 50, doomed_id: 51, .. }
    ));
    a.merged = true;
    assert!(matches!(
        next_update_step(&activity, &stated, &a),
        UpdateStep::QueueCleanup { survivor_id: 50, doomed_id: 51 }
    ));
    a.queued = true;
    assert!(matches!(next_update_step(&activity, &stated, &a), UpdateStep::Done));
    a.found_note = Some(Some(ClaimingPost {
        post_id: 50,
        author_id: 3,
        at_uri: Some(at_uri.to_string()),
    }));
    a.merged = false;
    assert!(matches!(next_update_step(&activity, &stated, &a), UpdateStep::Done));
}
