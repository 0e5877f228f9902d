use seiran_common::jobs::follow_requests_bulk_accept::{
    next_accept_step, AcceptAnswers, AcceptStep, Lookup,
};
use seiran_common::jobs::inbound_activity_process::content::{
    normalize_whitespace_preserving_newlines, rewrite_mention_hashtag_hrefs, strip_html,
};
use seiran_common::jobs::inbound_activity_process::emoji::has_same_origin;
use seiran_common::jobs::inbound_activity_process::note_save::merge_tags;
use seiran_common::jobs::inbound_activity_process::poll_vote::{
    can_count, next_vote_step, VoteAnswers, VoteStep,
};
use seiran_common::jobs::inbound_activity_process::actor::RemoteActorInfo;
use seiran_common::json::{Json, Member};
use seiran_common::local_domain::domain_candidate_from_host;
use seiran_common::mention::{
    convert_mentions_for_bsky, lookup_for_bsky, scan_tokens, BskyAnswer, BskyFacet,
    BskyFacetFeature, BskyLookup,
};

fn txt(s: &str) -> Json {
    Json::Str(s.to_string())
}

fn obj(v: Vec<(&str, Json)>) -> Json {
    Json::Obj(
        v.into_iter()
            .map(|(k, value)| Member { key: k.to_string(), value })
            .collect(),
    )
}

fn rewritten(html: &str) -> String {
    rewrite_mention_hashtag_hrefs(html, &[], "r.example")
}

#[test]
fn links_to_elsewhere_stay_as_they_are() {
    for html in [
        r#"<a href="https://example.com/" title="x">t</a>"#,
        r#"<A HREF='https://example.com/' rel="nofollow" >t</A >"#,
        r#"<a name="top">t</a>"#,
        r#"<p>x <a href="https://example.com/">not closed"#,
        r#"<a href="https://example.com/?a=1&amp;b=2">t</a>"#,
    ] {
        assert_eq!(rewritten(html), html);
    }
}

#[test]
fn only_the_target_of_an_inner_link_changes() {
    assert_eq!(
        rewritten(r##"<a class="hashtag" href="https://r.example/tags/x" rel="tag">#x</a>"##),
        r##"<a class="hashtag" href="/tags/x" rel="tag">#x</a>"##
    );
    assert_eq!(
        rewritten(r##"<a class='hashtag' href='https://r.example/tags/x' rel='tag'>#x</a>"##),
        r##"<a class='hashtag' href='/tags/x' rel='tag'>#x</a>"##
    );
    assert_eq!(
        rewritten(r##"<a class="hashtag" rel="tag">#x</a>"##),
        r##"<a href="/tags/x" class="hashtag" rel="tag">#x</a>"##
    );
}

#[test]
fn plain_text_is_its_own_plain_text() {
    let once = strip_html("<p>a \t b</p>\n<p>&amp;c</p>");
    assert_eq!(once, "a b &c");
    let once = strip_html("<p>  猫 と\u{3000}犬 </p><br>x");
    assert_eq!(once, "猫 と 犬 x");
    assert_eq!(strip_html(&once), once);
}

#[test]
fn normalising_a_second_time_changes_nothing() {
    let raw = "\n\n  a \t b\u{3000}c \n \n\n\n d\n e  \n\n";
    let once = normalize_whitespace_preserving_newlines(raw);
    assert_eq!(once, "a b c\n\nd\ne");
    assert_eq!(normalize_whitespace_preserving_newlines(&once), once);
    for line in once.split('\n') {
        assert_eq!(line.split_whitespace().collect::<Vec<&str>>().join(" "), line);
    }
    let dark = |s: &str| s.chars().filter(|c| !c.is_whitespace()).collect::<String>();
    assert_eq!(dark(&once), dark(raw));
}

#[test]
fn candidate_is_its_own_candidate() {
    for host in ["Seiran-Beta.org:3000", "a.example...", "A.B", "x:y:z..", "a:"] {
        let name = domain_candidate_from_host(host).unwrap();
        assert!(!name.ends_with('.'));
        assert_eq!(domain_candidate_from_host(&name), Some(name));
    }
    assert_eq!(domain_candidate_from_host("x:y:z.."), Some("x:y:z".to_string()));
}

#[test]
fn origin_of_a_blob_is_that_of_what_it_names() {
    assert!(has_same_origin("blob:https://a.example/1", "https://a.example/2"));
    assert!(has_same_origin("blob:https://a.example:8443/1", "https://a.example:8443/2"));
    assert!(!has_same_origin("blob:https://a.example/1", "https://b.example/2"));
    assert!(!has_same_origin("blob:x", "blob:x"));
    assert!(!has_same_origin("data:,x", "data:,x"));
    assert!(has_same_origin("https://a.example:443/", "https://a.example/"));
    assert!(!has_same_origin("http://a.example/", "https://a.example/"));
    let deep = "blob:".repeat(4_000) + "https://a.example/";
    assert!(!has_same_origin(&deep, "https://b.example/"));
}

fn for_bsky(body: &str) -> (String, Vec<BskyFacet>) {
    let answers: Vec<BskyAnswer> = scan_tokens(body)
        .iter()
        .map(|t| match lookup_for_bsky(t, "seiran.example") {
            BskyLookup::LocalUser(u) | BskyLookup::LocalDid(u) if u == "alice" => {
                BskyAnswer::Known { did: Some("did:plc:alice".to_string()) }
            }
            _ => BskyAnswer::Unknown,
        })
        .collect();
    convert_mentions_for_bsky(body, "seiran.example", &answers)
}

#[test]
fn facets_are_counted_in_bytes() {
    let body = "今日も#猫 https://x.com";
    let (out, facets) = for_bsky(body);
    assert_eq!(out, body);
    assert_eq!(facets.len(), 2);
    assert_eq!((facets[0].index.byte_start, facets[0].index.byte_end), (9, 13));
    assert!(matches!(&facets[0].features[..], [BskyFacetFeature::Tag(t)] if t.tag == "猫"));
    assert_eq!((facets[1].index.byte_start, facets[1].index.byte_end), (14, 27));
    assert!(matches!(
        &facets[1].features[..],
        [BskyFacetFeature::Link(l)] if l.uri == "https://x.com"
    ));
}

#[test]
fn spellings_of_a_local_user_agree() {
    for body in ["@alice", "@alice@seiran.example", "@alice.seiran.example"] {
        let (out, facets) = for_bsky(body);
        assert_eq!(out, "@alice.seiran.example");
        assert_eq!(facets.len(), 1);
        assert_eq!((facets[0].index.byte_start, facets[0].index.byte_end), (0, 21));
        assert!(matches!(
            &facets[0].features[..],
            [BskyFacetFeature::Mention(m)] if m.did == "did:plc:alice"
        ));
    }
}

#[test]
fn order_of_members_is_of_no_account() {
    let one = || obj(vec![("a", Json::Int(1)), ("b", obj(vec![("c", txt("x")), ("d", Json::Null)]))]);
    let two = || obj(vec![("b", obj(vec![("d", Json::Null), ("c", txt("x"))])), ("a", Json::Int(1))]);
    assert!(one().same(&two()));
    assert!(!one().same(&obj(vec![("a", Json::Int(1))])));
    assert!(!obj(vec![("a", Json::Int(1))]).same(&one()));
    assert!(!Json::Arr(vec![txt("x"), txt("y")]).same(&Json::Arr(vec![txt("y"), txt("x")])));
    assert!(Json::Num("0.0".to_string()).same(&Json::Num("-0.0".to_string())));
    assert!(!Json::Num("1.5".to_string()).same(&Json::Num("-1.5".to_string())));
    let mut tags = vec![one()];
    merge_tags(&mut tags, &vec![two(), txt("new")]);
    assert_eq!(tags.len(), 2);
    assert!(matches!(&tags[1], Json::Str(t) if t == "new"));
}

fn option_with(name: &str, votes: i64) -> Json {
    obj(vec![("name", txt(name)), ("votes", Json::Int(votes))])
}

#[test]
fn full_option_keeps_no_vote_from_another() {
    let ballot = |name: &str| {
        obj(vec![
            ("id", txt("https://r.example/votes/1")),
            ("actor", txt("https://r.example/users/a")),
            ("object", obj(vec![("inReplyTo", txt("https://seiran.example/notes/5")), ("name", txt(name))])),
        ])
    };
    let poll =
        || obj(vec![("options", Json::Arr(vec![option_with("full", i64::MAX), option_with("free", 2)]))]);
    assert!(can_count(&ballot("free"), &poll()));
    assert!(!can_count(&ballot("full"), &poll()));
    assert!(can_count(&ballot("none"), &poll()));
    assert!(can_count(&obj(vec![]), &poll()));
    let a = VoteAnswers {
        found: Some(Some((5, 9))),
        actor: Some(RemoteActorInfo {
            actor_id: 3,
            username: "a".to_string(),
            display_name: "A".to_string(),
            domain: "r.example".to_string(),
            avatar_url: None,
            inbox: "https://r.example/inbox".to_string(),
        }),
        poll: Some(Some(poll())),
        inserted_rows: Some(1),
        counted: false,
        shown: false,
        told: false,
    };
    match next_vote_step(&ballot("free"), &a) {
        VoteStep::Count { post_id: 5, poll } => {
            let options = poll.arr_at("options").unwrap();
            assert_eq!(options[0].int_at("votes"), Some(i64::MAX));
            assert_eq!(options[1].int_at("votes"), Some(3));
        }
        _ => panic!("the vote is not counted"),
    }
}

#[test]
fn pending_requests_are_approved_one_by_one() {
    let mut a =
        AcceptAnswers { configured: false, target: None, pending: None, settled: 0, follower: None };
    assert!(matches!(next_accept_step(7, &a), AcceptStep::Done));
    a.configured = true;
    assert!(matches!(next_accept_step(7, &a), AcceptStep::FindTarget));
    a.target = Some(Lookup::Missing);
    assert!(matches!(
        next_accept_step(7, &a),
        AcceptStep::Refuse(e) if e == "ターゲットアクター '7' が見つかりません"
    ));
    a.target = Some(Lookup::Failed("x".to_string()));
    assert!(matches!(next_accept_step(7, &a), AcceptStep::Refuse(e) if e == "ターゲット取得失敗: x"));
    a.target = Some(Lookup::Found);
    assert!(matches!(next_accept_step(7, &a), AcceptStep::FindPending));
    a.pending = Some(Err("y".to_string()));
    assert!(matches!(next_accept_step(7, &a), AcceptStep::Refuse(e) if e == "承認待ち一覧取得失敗: y"));
    a.pending = Some(Ok(vec![11, 12]));
    assert!(matches!(next_accept_step(7, &a), AcceptStep::FindFollower(11)));
    a.follower = Some(Lookup::Failed("z".to_string()));
    assert!(matches!(next_accept_step(7, &a), AcceptStep::Skip(11)));
    a.settled = 1;
    a.follower = None;
    assert!(matches!(next_accept_step(7, &a), AcceptStep::FindFollower(12)));
    a.follower = Some(Lookup::Found);
    assert!(matches!(next_accept_step(7, &a), AcceptStep::Approve(12)));
    a.settled = 2;
    assert!(matches!(next_accept_step(7, &a), AcceptStep::Done));
}
