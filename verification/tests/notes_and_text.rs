use seiran_common::decimal::{format_i64, parse_i64};
use seiran_common::ip_literal::is_ip_text;
use seiran_common::jobs::inbound_activity_process::content::{
    escape_html_attr, extract_attr, extract_class_tokens, extract_host, filter_attribute,
    is_allowed_style_value, normalize_whitespace_preserving_newlines, qualify_mention_name,
    rewrite_mention_hashtag_hrefs, tag_break_text, tokenize_anchors, HtmlSegment,
};
use seiran_common::jobs::inbound_activity_process::emoji::{
    bare_shortcode_of, build_emoji_map, missing_shortcodes, resolve_emoji_map_with_fallback,
    resolve_single_emoji_url_with_fallback, seen_emojis,
};
use seiran_common::jobs::inbound_activity_process::note_input::{
    detect_loopback_post_id, guess_attachment_mime_type, quote_uri_matches, read_local_note_id,
    starts_with_quote_marker,
};
use seiran_common::jobs::inbound_activity_process::note_save::{
    choose_published, decide_visibility, merge_tags, message_addressees, message_recipients,
    message_thread_root, open_note, outcome_of_lookup, outcome_of_loopback, prepare_content,
    published_at, remote_attachments, strip_quote_lines, wants_canonical_tags, DeliveryMeta,
    NoteContent, NoteError, SaveApNoteOutcome, Visibility,
};
use seiran_common::jobs::inbound_activity_process::actor::Actor;
use seiran_common::jobs::inbound_activity_process::reference::ReferenceResolutionMode;
use seiran_common::json::{put_member, Json, Member};
use seiran_common::lang::{is_supported_language, SUPPORTED_LANGUAGES};
use seiran_common::link_target::{
    canonical_post_uri, next_import_step, parse_target, plan_object, split_post_uri, ImportStep,
    ObjectPlan, ParsedTarget,
};
use seiran_common::local_domain::{
    domain_candidate_from_host, domain_to_confirm, resolve_local_domain, strip_port,
    ConfirmOutcome, DomainPlaces, LocalDomain, StoredDomain,
};
use seiran_common::mention::{
    ap_inline_mentions_to_tag_json, bridge_handle_of, convert_mentions_for_ap,
    convert_mentions_for_bsky, lookup_for_ap, lookup_for_bsky, resolve_fedi_for_bsky,
    resolve_fedi_mention_href, scan_tokens, webfinger_actor_href, webfinger_url_of, ApAnswer,
    ApInlineSpanKind, ApLookup, BskyAnswer, BskyFacetFeature, BskyLookup, Token,
};
use seiran_common::outside::Timestamp;
use seiran_common::text::{lower, split_words, trim, utf8_width};

fn txt(s: &str) -> Json {
    Json::Str(s.to_string())
}

fn arr(v: Vec<Json>) -> Json {
    Json::Arr(v)
}

fn obj(v: Vec<(&str, Json)>) -> Json {
    Json::Obj(
        v.into_iter()
            .map(|(k, value)| Member { key: k.to_string(), value })
            .collect(),
    )
}

fn chars(s: &str) -> Vec<char> {
    s.chars().collect()
}

fn some(s: &str) -> Option<String> {
    Some(s.to_string())
}

#[test]
fn white_space_is_trimmed_for_every_character() {
    for n in 0..=0x10ffff_u32 {
        if let Some(c) = char::from_u32(n) {
            let padded = [c, 'x', c];
            let kept = trim(&padded).len();
            assert_eq!(kept == 1, c.is_whitespace(), "{:?}", c);
        }
    }
}

#[test]
fn every_character_has_its_width() {
    for n in 0..=0x10ffff_u32 {
        if let Some(c) = char::from_u32(n) {
            assert_eq!(utf8_width(c), c.len_utf8());
        }
    }
}

#[test]
fn words_and_small_letters() {
    let words: Vec<String> = split_words(&chars(" a\u{3000}bc\td ")).iter().map(|w| w.iter().collect()).collect();
    assert_eq!(words, vec!["a", "bc", "d"]);
    assert_eq!(lower(&chars("AbÉ")), chars("abÉ"));
}

#[test]
fn numbers_are_read_as_they_are_written() {
    for n in [0, 7, -7, 1234567890, i64::MAX, i64::MIN] {
        assert_eq!(format_i64(n), n.to_string());
        assert_eq!(parse_i64(&chars(&n.to_string())), Some(n));
    }
    assert_eq!(parse_i64(&chars("+5")), "+5".parse().ok());
    for bad in ["", "-", "+", "1a", " 1", "9223372036854775808", "-9223372036854775809"] {
        assert_eq!(parse_i64(&chars(bad)), None);
    }
    assert_eq!(parse_i64(&chars("007")), Some(7));
}

#[test]
fn what_is_put_under_a_key_is_read_under_it() {
    let mut ms = vec![Member { key: "a".to_string(), value: Json::Int(1) }];
    put_member(&mut ms, "a", Json::Int(2));
    put_member(&mut ms, "b", txt("x"));
    let o = Json::Obj(ms);
    assert_eq!(o.int_at("a"), Some(2));
    assert_eq!(o.text_at("b"), Some("x"));
    assert!(o.get("c").is_none());
    assert!(o.same(&o.duplicate()));
    assert!(!o.same(&Json::Null));
}

#[test]
fn supported_languages_are_those_of_the_list() {
    for l in SUPPORTED_LANGUAGES {
        assert!(is_supported_language(l));
    }
    assert!(!is_supported_language("JA"));
    assert!(!is_supported_language(""));
    assert!(!is_supported_language("it"));
}

#[test]
fn addresses_are_told_from_names() {
    for ip in [
        "0.0.0.0", "255.255.255.255", "1.2.3.4", "::", "::1", "1::", "1:2:3:4:5:6:7:8",
        "2001:db8::ff00:42:8329", "::ffff:1.2.3.4", "1:2:3:4:5:6:1.2.3.4", "1:2:3:4:5:6:7::",
        "fe80::AbCd",
    ] {
        assert!(is_ip_text(&chars(ip)), "{}", ip);
    }
    for name in [
        "", "1.2.3", "1.2.3.4.5", "256.1.1.1", "01.2.3.4", "1.2.3.4:80", "example.com", ":", ":::",
        "1:2:3:4:5:6:7", "1:2:3:4:5:6:7:8:9", "1::2::3", "12345::", "g::", "1.2.3.4::",
        "1:2:3:4:5:6:7::8", "::1.2.3.4:5", "1:2:3:4:5:6:7:1.2.3.4", "fe80::1%eth0",
    ] {
        assert!(!is_ip_text(&chars(name)), "{}", name);
    }
}

#[test]
fn the_first_settled_domain_stays() {
    let mut places = DomainPlaces::new();
    let d = LocalDomain::unresolved(&mut places);
    assert_eq!(d.as_str(&places), "localhost");
    assert!(!d.is_confirmed(&places));
    d.set_confirmed(&mut places, "a.example".to_string());
    d.set_confirmed(&mut places, "b.example".to_string());
    assert_eq!(d.as_str(&places), "a.example");
    assert!(d.is_confirmed(&places));
    assert!(d.is(&places, "a.example") && !d.is(&places, "b.example"));
}

#[test]
fn clones_of_a_domain_agree() {
    let mut places = DomainPlaces::new();
    let other = LocalDomain::unresolved(&mut places);
    let d = LocalDomain::unresolved(&mut places);
    let early = d.clone();
    assert!(!early.is_confirmed(&places));
    d.set_confirmed(&mut places, "a.example".to_string());
    let late = early.clone();
    late.set_confirmed(&mut places, "b.example".to_string());
    for c in [d, early, late] {
        assert!(places.holds(&c) && c.is_confirmed(&places));
        assert_eq!(c.as_str(&places), "a.example");
    }
    assert!(!other.is_confirmed(&places));
    assert!(!DomainPlaces::new().holds(&other));
}

fn started(stored: StoredDomain, outcome: Option<ConfirmOutcome>) -> (String, bool) {
    let mut places = DomainPlaces::new();
    let d = resolve_local_domain(stored, outcome, &mut places);
    (d.as_str(&places).to_string(), d.is_confirmed(&places))
}

#[test]
fn servers_start_with_the_stored_domain() {
    let stored = StoredDomain::Confirmed("a.example".to_string());
    assert_eq!(domain_to_confirm(&stored, some("env.example")), None);
    assert_eq!(started(stored, None), ("a.example".to_string(), true));
    assert_eq!(domain_to_confirm(&StoredDomain::Missing, some("env.example")), some("env.example"));
    assert_eq!(domain_to_confirm(&StoredDomain::Missing, None), None);
    assert_eq!(domain_to_confirm(&StoredDomain::Failed, some("env.example")), None);
    let confirmed = ConfirmOutcome::Confirmed("env.example".to_string());
    assert_eq!(started(StoredDomain::Missing, Some(confirmed)), ("env.example".to_string(), true));
    let raced = ConfirmOutcome::AlreadyConfirmed("b.example".to_string());
    assert_eq!(started(StoredDomain::Missing, Some(raced)), ("b.example".to_string(), true));
    let unsettled = ("localhost".to_string(), false);
    assert_eq!(started(StoredDomain::Missing, Some(ConfirmOutcome::Failed)), unsettled);
    assert_eq!(started(StoredDomain::Missing, None), unsettled);
    assert_eq!(started(StoredDomain::Failed, None), unsettled);
}

#[test]
fn ports_are_cut_off() {
    let strip = |s: &str| strip_port(&chars(s)).iter().collect::<String>();
    assert_eq!(strip("a.example:80"), "a.example");
    assert_eq!(strip("a.example"), "a.example");
    assert_eq!(strip("[::1]:80"), "::1");
    assert_eq!(strip("[::1"), "[::1");
    assert_eq!(strip("::1"), "::1");
    assert_eq!(domain_candidate_from_host("[::ffff:1.2.3.4]:80"), None);
    assert_eq!(domain_candidate_from_host("...:80"), None);
    assert_eq!(domain_candidate_from_host(" A.Example.:8080 "), some("a.example"));
}

#[test]
fn targets_are_told_by_their_form() {
    let actor = |s: &str| Some(ParsedTarget::Actor(s.to_string()));
    assert_eq!(parse_target(" did:plc:abc "), actor("did:plc:abc"));
    assert_eq!(parse_target("@bob@r.example"), actor("@bob@r.example"));
    assert_eq!(parse_target("@@"), None);
    assert_eq!(parse_target("https://bsky.app/profile/bob.test"), actor("bob.test"));
    assert_eq!(
        parse_target("at://did:plc:x/app.bsky.feed.post/3k"),
        Some(ParsedTarget::BskyPost("at://did:plc:x/app.bsky.feed.post/3k".to_string()))
    );
    assert_eq!(
        parse_target("https://r.example/notes/1"),
        Some(ParsedTarget::ActivityPubUrl("https://r.example/notes/1".to_string()))
    );
    assert_eq!(parse_target("ftp://r.example/x"), None);
    assert_eq!(parse_target("nonsense"), None);
    assert_eq!(
        split_post_uri("at://did:plc:x/app.bsky.feed.post/3k"),
        Some(("did:plc:x".to_string(), "3k".to_string()))
    );
    assert_eq!(split_post_uri("at://x"), None);
    assert_eq!(canonical_post_uri("did:plc:x", "3k"), "at://did:plc:x/app.bsky.feed.post/3k");
}

#[test]
fn fetched_objects_are_brought_in_by_their_type() {
    let url = "https://r.example/x";
    let person = obj(vec![("type", txt("Person"))]);
    assert!(matches!(plan_object(url, &person), ObjectPlan::Actor(u) if u == url));
    let note = obj(vec![
        ("type", txt("Note")),
        ("id", txt("https://r.example/n")),
        ("attributedTo", arr(vec![txt("https://r.example/bob")])),
    ]);
    let ObjectPlan::Import { activity, dedup_uri } = plan_object(url, &note) else {
        panic!("an import was expected");
    };
    assert_eq!(dedup_uri, "https://r.example/n");
    assert_eq!(activity.text_at("id"), Some("https://r.example/n#seiran-open"));
    assert_eq!(activity.text_at("type"), Some("Create"));
    assert_eq!(activity.text_at("actor"), Some("https://r.example/bob"));
    assert!(activity.get("object").unwrap().same(&note));
    let orphan = obj(vec![("type", txt("Page"))]);
    assert!(matches!(plan_object(url, &orphan), ObjectPlan::Invalid));
    let announce = obj(vec![("type", txt("Announce")), ("actor", txt("a")), ("object", txt("o"))]);
    assert!(matches!(
        plan_object(url, &announce),
        ObjectPlan::Import { dedup_uri, .. } if dedup_uri == url
    ));
    let broken = obj(vec![("type", txt("Announce")), ("actor", txt("a"))]);
    assert!(matches!(plan_object(url, &broken), ObjectPlan::Invalid));
    assert!(matches!(plan_object(url, &obj(vec![])), ObjectPlan::Invalid));
    assert_eq!(next_import_step(1, None), ImportStep::Wait);
    assert_eq!(next_import_step(39, None), ImportStep::Wait);
    assert_eq!(next_import_step(40, None), ImportStep::Pending);
    assert_eq!(next_import_step(40, Some(3)), ImportStep::Found(3));
}

#[test]
fn scanning_loses_nothing() {
    let body = "見て @alice@r.example と#猫 https://x.example/a @bob.test @carol me@x.example";
    let mut back = String::new();
    for t in scan_tokens(body) {
        match t {
            Token::Char(c) => back.push(c),
            Token::Bare(s) => back.push_str(&s),
            Token::Url(s) => back.push_str(&s),
            Token::Hashtag(s) => back.push_str(&format!("#{}", s)),
            Token::Acct { user, domain } => back.push_str(&format!("@{}@{}", user, domain)),
            Token::Handle(s) => back.push_str(&format!("@{}", s)),
            Token::User(s) => back.push_str(&format!("@{}", s)),
        }
    }
    assert_eq!(back, body);
}

#[test]
fn mentions_become_handles_on_the_at_network() {
    let body = "猫 @alice @bob@r.example #Tag https://x.example";
    let tokens = scan_tokens(body);
    let answers: Vec<BskyAnswer> = tokens
        .iter()
        .map(|t| match lookup_for_bsky(t, "seiran.example") {
            BskyLookup::LocalUser(u) if u == "alice" => {
                BskyAnswer::Known { did: some("did:plc:alice") }
            },
            BskyLookup::Bridge { user, domain } => {
                resolve_fedi_for_bsky(&user, &domain, some("did:plc:bob"), false, None)
            },
            _ => BskyAnswer::Unknown,
        })
        .collect();
    let (out, facets) = convert_mentions_for_bsky(body, "seiran.example", &answers);
    assert_eq!(
        out,
        "猫 @alice.seiran.example @bob.r.example.ap.brid.gy #Tag https://x.example"
    );
    let pieces: Vec<&str> =
        facets.iter().map(|f| &out[f.index.byte_start..f.index.byte_end]).collect();
    assert_eq!(
        pieces,
        vec!["@alice.seiran.example", "@bob.r.example.ap.brid.gy", "#Tag", "https://x.example"]
    );
    assert!(matches!(
        &facets[0].features[0],
        BskyFacetFeature::Mention(m) if m.did == "did:plc:alice"
    ));
    assert!(matches!(&facets[2].features[0], BskyFacetFeature::Tag(t) if t.tag == "Tag"));
    assert!(matches!(&facets[3].features[0], BskyFacetFeature::Link(l) if l.uri == "https://x.example"));
    assert_eq!(bridge_handle_of("bob", "r.example"), "bob.r.example.ap.brid.gy");
}

#[test]
fn unanswered_text_is_kept() {
    let body = "@alice と @bob.test と @carol@r.example";
    let (out, _) = convert_mentions_for_bsky(body, "seiran.example", &Vec::new());
    assert_eq!(out, body);
    let (out, spans) = convert_mentions_for_ap("@alice", "seiran.example", &Vec::new());
    assert_eq!(out, "@alice");
    assert!(spans.is_empty());
}

#[test]
fn mentions_become_accounts_in_the_fediverse() {
    let body = "@alice @bob@r.example @carol.test #猫Tag";
    let answers: Vec<ApAnswer> = scan_tokens(body)
        .iter()
        .map(|t| match lookup_for_ap(t, "seiran.example") {
            ApLookup::LocalUser(_) => ApAnswer::Local,
            ApLookup::Href { user, .. } if user == "bob" => {
                ApAnswer::Href("https://r.example/users/bob".to_string())
            },
            _ => ApAnswer::Unknown,
        })
        .collect();
    let (out, spans) = convert_mentions_for_ap(body, "seiran.example", &answers);
    assert_eq!(out, "@alice@seiran.example @bob@r.example carol.test #猫Tag");
    for s in &spans {
        assert_eq!(&out[s.byte_start..s.byte_end], s.name);
        assert!(!s.name.is_empty());
        match s.kind {
            ApInlineSpanKind::Hashtag => assert!(s.name.starts_with('#')),
            ApInlineSpanKind::Mention => assert_eq!(s.name.matches('@').count(), 2),
            ApInlineSpanKind::Link => {}
        }
    }
    let kinds: Vec<ApInlineSpanKind> = spans.iter().map(|s| s.kind).collect();
    assert_eq!(
        kinds,
        vec![
            ApInlineSpanKind::Mention,
            ApInlineSpanKind::Mention,
            ApInlineSpanKind::Link,
            ApInlineSpanKind::Hashtag,
        ]
    );
    assert_eq!(spans[2].href, "https://bsky.app/profile/carol.test");
    assert_eq!(spans[3].href, "https://seiran.example/tags/猫tag");
    let tags = ap_inline_mentions_to_tag_json(&spans);
    assert_eq!(tags.len(), 3);
    assert_eq!(tags[0].text_at("type"), Some("Mention"));
    assert_eq!(tags[2].text_at("type"), Some("Hashtag"));
}

#[test]
fn webfinger_answers_name_the_actor() {
    let url = webfinger_url_of("bob", "r.example");
    assert_eq!(url, "https://r.example/.well-known/webfinger?resource=acct:bob@r.example");
    let body = obj(vec![(
        "links",
        arr(vec![
            obj(vec![("rel", txt("profile")), ("href", txt("x"))]),
            obj(vec![
                ("rel", txt("self")),
                ("type", txt("application/activity+json")),
                ("href", txt("https://r.example/users/bob")),
            ]),
        ]),
    )]);
    assert_eq!(webfinger_actor_href(&body), some("https://r.example/users/bob"));
    assert_eq!(webfinger_actor_href(&obj(vec![])), None);
    assert_eq!(resolve_fedi_mention_href(some("a"), some("b")), some("a"));
    assert_eq!(resolve_fedi_mention_href(None, some("b")), some("b"));
}

#[test]
fn attributes_are_read_from_tags() {
    assert_eq!(extract_attr(r#"a href="x" class='u-url mention'"#, "href"), some("x"));
    assert_eq!(extract_class_tokens(r#"a class='u-url mention'"#), vec!["u-url", "mention"]);
    assert_eq!(extract_attr("a", "href"), None);
    assert_eq!(extract_host("https://r.example/users/x"), Some("r.example"));
    assert_eq!(extract_host("not a url"), None);
    assert_eq!(qualify_mention_name("@bob", "https://r.example/u"), "@bob@r.example");
    assert_eq!(qualify_mention_name("@bob@b.example", "https://r.example/u"), "@bob@b.example");
    assert_eq!(tag_break_text("br/"), "\n");
    assert_eq!(escape_html_attr("a\"<b>&'"), "a&quot;&lt;b&gt;&amp;'");
}

#[test]
fn only_alignment_is_a_kept_style() {
    assert!(is_allowed_style_value("text-align: center"));
    assert!(!is_allowed_style_value("color: red"));
    assert!(!is_allowed_style_value("text-align: center; color: red"));
    assert_eq!(filter_attribute("style", "color: red"), None);
    assert_eq!(filter_attribute("href", "x"), some("x"));
}

#[test]
fn blank_lines_and_anchors() {
    assert_eq!(normalize_whitespace_preserving_newlines(" a  b \n\n\n\n c "), "a b\n\nc");
    let segments = tokenize_anchors(r#"x <a href="u" class="mention">@b</a> y"#);
    assert_eq!(segments.len(), 3);
    assert!(matches!(
        &segments[1],
        HtmlSegment::Link { href, text, is_mention_class: true, is_hashtag: false }
            if href == "u" && text == "@b"
    ));
    let tag = r##"<a href="https://r.example/tags/x" class="mention hashtag">#Été 猫</a>"##;
    assert!(rewrite_mention_hashtag_hrefs(tag, &[], "r.example")
        .contains(r#"href="/tags/%C3%A9t%C3%A9%20%E7%8C%AB""#));
    let html = "<p>no links here</p>";
    assert_eq!(rewrite_mention_hashtag_hrefs(html, &[], "r.example"), html);
}

fn emoji_tag(name: &str, url: &str) -> Json {
    obj(vec![("type", txt("Emoji")), ("name", txt(name)), ("icon", obj(vec![("url", txt(url))]))])
}

#[test]
fn emojis_come_from_tags_or_from_the_record() {
    let tags = vec![emoji_tag(":cat:", "c.png")];
    let map = build_emoji_map(&tags);
    assert_eq!(map.text_at(":cat:"), Some("c.png"));
    let codes = vec!["cat".to_string(), "dog".to_string()];
    assert_eq!(missing_shortcodes(&map, &codes), vec!["dog"]);
    let record = vec![("dog".to_string(), "d.png".to_string())];
    let full = resolve_emoji_map_with_fallback(&tags, &record);
    assert_eq!(full.text_at(":dog:"), Some("d.png"));
    assert_eq!(full.text_at(":cat:"), Some("c.png"));
    assert_eq!(resolve_single_emoji_url_with_fallback(&tags, ":cat:", &record), some("c.png"));
    assert_eq!(bare_shortcode_of(":otu2@seiran-beta.org:"), "otu2");
}

#[test]
fn seen_emojis_go_on_record() {
    let mut tag = emoji_tag(":cat:", "c.png");
    if let Json::Obj(ms) = &mut tag {
        put_member(ms, "aliases", arr(vec![txt(" neko "), txt(" "), Json::Int(1)]));
        put_member(ms, "_misskey_license", obj(vec![("freeText", txt("CC0"))]));
    }
    let seen = seen_emojis(&[tag, emoji_tag("::", "x.png"), obj(vec![])]);
    assert_eq!(seen.len(), 1);
    assert_eq!(seen[0].shortcode, "cat");
    assert_eq!(seen[0].tags, vec!["neko"]);
    assert_eq!(seen[0].license.as_deref(), Some("CC0"));
}

#[test]
fn own_notes_are_recognised() {
    assert_eq!(read_local_note_id("https://seiran.example/notes/12", "seiran.example"), Some(12));
    assert_eq!(read_local_note_id("https://other.example/notes/12", "seiran.example"), None);
    assert_eq!(
        detect_loopback_post_id("seiran.example", "https://bridge/1", "https://seiran.example/notes/12"),
        Some(12)
    );
    assert_eq!(detect_loopback_post_id("seiran.example", "a", "b"), None);
    let note = obj(vec![("url", txt("https://seiran.example/notes/12"))]);
    assert_eq!(
        outcome_of_loopback("seiran.example", "x", &note),
        SaveApNoteOutcome::AlreadyExists { post_id: 12 }
    );
    assert_eq!(outcome_of_lookup(None), SaveApNoteOutcome::Insert);
    assert_eq!(outcome_of_lookup(Some(3)), SaveApNoteOutcome::AlreadyExists { post_id: 3 });
}

#[test]
fn quote_lines_are_recognised() {
    assert!(starts_with_quote_marker("RE: x"));
    assert!(starts_with_quote_marker("QT: x"));
    assert!(!starts_with_quote_marker("Result"));
    assert!(quote_uri_matches("RE: https://q.example/1", "https://q.example/1"));
    assert!(!quote_uri_matches("RE: https://q.example/1", "https://q.example/2"));
    let c = NoteContent {
        body: "text\nRE: https://q.example/1".to_string(),
        content_html: "<p>text<br>RE: https://q.example/1</p>".to_string(),
    };
    let c = strip_quote_lines(c, Some("https://q.example/1"));
    assert_eq!((c.body.as_str(), c.content_html.as_str()), ("text", "<p>text"));
}

#[test]
fn notes_are_opened_or_refused() {
    assert_eq!(open_note(&obj(vec![("type", txt("Note")), ("id", txt("n"))])), Ok("n".to_string()));
    assert_eq!(open_note(&obj(vec![("type", txt("Question"))])), Err(NoteError::MissingId));
    assert_eq!(open_note(&obj(vec![("type", txt("Person"))])), Err(NoteError::NotANote));
    let now = Timestamp { secs: 9, nanos: 0 };
    let dated = obj(vec![("published", txt("1970-01-01T00:01:00Z"))]);
    assert_eq!(published_at(&dated, now), Timestamp { secs: 60, nanos: 0 });
    assert_eq!(published_at(&obj(vec![]), now), now);
    assert_eq!(choose_published(None, now), now);
    let c = prepare_content("<p>a <b>b</b></p>", &[], "r.example");
    assert_eq!((c.body.as_str(), c.content_html.as_str()), ("a b", "<p>a <b>b</b></p>"));
}

#[test]
fn attachments_keep_their_place() {
    let note = obj(vec![
        ("sensitive", Json::Bool(true)),
        (
            "attachment",
            arr(vec![
                obj(vec![("type", txt("Document"))]),
                obj(vec![("url", txt("https://r.example/a.WEBM"))]),
                txt("https://r.example/b.mp4"),
            ]),
        ),
    ]);
    let files = remote_attachments(&note);
    assert_eq!(files.len(), 2);
    assert_eq!((files[0].position, files[1].position), (1, 2));
    assert_eq!(files[0].mime_type.as_deref(), Some("video/webm"));
    assert_eq!(files[1].mime_type.as_deref(), Some("video/mp4"));
    assert!(files[0].is_sensitive);
    let stated = obj(vec![("mediaType", txt("image/avif"))]);
    assert_eq!(guess_attachment_mime_type(&stated, "x.png"), some("image/avif"));
    assert_eq!(guess_attachment_mime_type(&obj(vec![]), "x"), None);
    assert_eq!(guess_attachment_mime_type(&obj(vec![]), "x.png"), None);
}

#[test]
fn tags_are_merged_without_doubles() {
    let mut tags = vec![emoji_tag(":a:", "1")];
    merge_tags(&mut tags, &vec![emoji_tag(":a:", "1"), emoji_tag(":b:", "2")]);
    assert_eq!(tags.len(), 2);
    let codes = vec!["c".to_string()];
    assert!(wants_canonical_tags(&tags, &codes, "https://r.example/n", "https://r.example/u"));
    assert!(!wants_canonical_tags(&tags, &codes, "https://r.example/n", "https://e.example/u"));
    assert!(!wants_canonical_tags(&tags, &Vec::new(), "https://r.example/n", "https://r.example/u"));
}

#[test]
fn messages_are_only_what_was_delivered() {
    let one = ReferenceResolutionMode::OneHopFetch;
    let db = ReferenceResolutionMode::DbOnly;
    assert_eq!(decide_visibility(Visibility::Public, Some("direct")), Visibility::Direct);
    assert_eq!(decide_visibility(Visibility::Public, Some("secret")), Visibility::Public);
    assert_eq!(decide_visibility(Visibility::Unlisted, None), Visibility::Unlisted);
    let parent = Some(DeliveryMeta {
        actor_id: 1,
        actor_type: "local".to_string(),
        visibility: "direct".to_string(),
        thread_root_post_id: Some(5),
    });
    assert_eq!(message_thread_root(one, Visibility::Direct, 9, &parent), Some(5));
    assert_eq!(message_thread_root(one, Visibility::Direct, 9, &None), Some(9));
    assert_eq!(message_thread_root(one, Visibility::Public, 9, &parent), None);
    assert_eq!(message_thread_root(db, Visibility::Direct, 9, &parent), None);
    let to = vec!["https://seiran.example/users/alice".to_string(), "https://r.example/u".to_string()];
    assert_eq!(message_addressees(one, Visibility::Direct, &to, "seiran.example"), vec!["alice"]);
    assert!(message_addressees(db, Visibility::Direct, &to, "seiran.example").is_empty());
    let local = Actor {
        id: 3,
        username: "alice".to_string(),
        domain: "seiran.example".to_string(),
        display_name: None,
        actor_type: "local".to_string(),
        user_id: Some(3),
    };
    assert_eq!(message_recipients(&vec![None, Some(local)]), vec![3]);
}
