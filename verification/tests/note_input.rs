use seiran_common::jobs::inbound_activity_process::note_input::{
    bsky_app_url_to_at_uri, extract_ap_quote_uri, extract_mentioned_local_usernames,
    normalize_ap_poll, strip_quote_fallback_line, strip_quote_fallback_line_leading,
};
use seiran_common::json::{Json, Member};

fn txt(s: &str) -> Json {
    Json::Str(s.to_string())
}

fn arr(v: Vec<Json>) -> Json {
    Json::Arr(v)
}

fn obj(v: Vec<(&str, Json)>) -> Json {
    Json::Obj(
        v.into_iter()
            .map(|(k, value)| Member { key: k.to_string(), value })
            .collect(),
    )
}

fn num(n: i64) -> Json {
    Json::Int(n)
}

#[test]
fn inbound_activity_process_extract_mentioned_local_usernames_ignores_same_name_actor_on_foreign_host() {
    let tags = vec![
        obj(vec![("type", txt("Mention")), ("href", txt("https://mstdn.jp/users/atasinti"))]),
        obj(vec![("type", txt("Mention")), ("href", txt("https://seiran-beta.org/users/atasinti"))]),
    ];
    assert_eq!(
        extract_mentioned_local_usernames(&tags, "seiran-beta.org"),
        vec!["atasinti"]
    );
}

#[test]
fn note_input_extract_mentioned_local_usernames_ignores_same_name_actor_on_foreign_host() {
    let tags = vec![
        obj(vec![("type", txt("Mention")), ("href", txt("https://mstdn.jp/users/atasinti"))]),
        obj(vec![("type", txt("Mention")), ("href", txt("https://seiran-beta.org/users/atasinti"))]),
    ];
    assert_eq!(
        extract_mentioned_local_usernames(&tags, "seiran-beta.org"),
        vec!["atasinti"]
    );
}

#[test]
fn inbound_activity_process_extract_mentioned_local_usernames_empty_when_only_foreign_host_tags() {
    let tags = vec![obj(vec![("type", txt("Mention")), ("href", txt("https://fedibird.com/users/momozou"))])];
    assert!(extract_mentioned_local_usernames(&tags, "seiran-beta.org").is_empty());
}

#[test]
fn note_input_extract_mentioned_local_usernames_empty_when_only_foreign_host_tags() {
    let tags = vec![obj(vec![("type", txt("Mention")), ("href", txt("https://fedibird.com/users/momozou"))])];
    assert!(extract_mentioned_local_usernames(&tags, "seiran-beta.org").is_empty());
}

#[test]
fn inbound_activity_process_extracts_misskey_quote_url_and_strips_re_fallback() {
    let uri = "https://seiran.example/notes/123";
    let note = obj(vec![("quoteUrl", txt(uri)), ("_misskey_quote", txt(uri))]);
    assert_eq!(extract_ap_quote_uri(&note, &[]).as_deref(), Some(uri));
    assert_eq!(
        strip_quote_fallback_line(
            "引用ポストのテスト\nRE: [https://seiran.example/notes/123](https://seiran.example/notes/123)",
            uri,
        ),
        "引用ポストのテスト"
    );
}

#[test]
fn note_input_extracts_misskey_quote_url_and_strips_re_fallback() {
    let uri = "https://seiran.example/notes/123";
    let note = obj(vec![("quoteUrl", txt(uri)), ("_misskey_quote", txt(uri))]);
    assert_eq!(extract_ap_quote_uri(&note, &[]).as_deref(), Some(uri));
    assert_eq!(
        strip_quote_fallback_line(
            "引用ポストのテスト\nRE: [https://seiran.example/notes/123](https://seiran.example/notes/123)",
            uri,
        ),
        "引用ポストのテスト"
    );
}

#[test]
fn inbound_activity_process_extracts_fedibird_quote_tag_and_strips_qt_fallback() {
    let uri = "https://seiran.example/notes/123";
    let note = obj(vec![]);
    let tags = vec![obj(vec![("type", txt("Link")), ("rel", txt("https://misskey-hub.net/ns#_misskey_quote")), ("href", txt(uri))])];
    assert_eq!(extract_ap_quote_uri(&note, &tags).as_deref(), Some(uri));
    assert_eq!(
        strip_quote_fallback_line(
            "引用ポストのテスト\nQT: [https://seiran.example/notes/123](https://seiran.example/notes/123)",
            uri,
        ),
        "引用ポストのテスト"
    );
}

#[test]
fn note_input_extracts_fedibird_quote_tag_and_strips_qt_fallback() {
    let uri = "https://seiran.example/notes/123";
    let note = obj(vec![]);
    let tags = vec![obj(vec![("type", txt("Link")), ("rel", txt("https://misskey-hub.net/ns#_misskey_quote")), ("href", txt(uri))])];
    assert_eq!(extract_ap_quote_uri(&note, &tags).as_deref(), Some(uri));
    assert_eq!(
        strip_quote_fallback_line(
            "引用ポストのテスト\nQT: [https://seiran.example/notes/123](https://seiran.example/notes/123)",
            uri,
        ),
        "引用ポストのテスト"
    );
}

#[test]
fn inbound_activity_process_does_not_strip_unrelated_re_line() {
    assert_eq!(
        strip_quote_fallback_line(
            "本文\nRE: [別URL](https://example.com/other)",
            "https://seiran.example/notes/123",
        ),
        "本文\nRE: [別URL](https://example.com/other)"
    );
}

#[test]
fn note_input_does_not_strip_unrelated_re_line() {
    assert_eq!(
        strip_quote_fallback_line(
            "本文\nRE: [別URL](https://example.com/other)",
            "https://seiran.example/notes/123",
        ),
        "本文\nRE: [別URL](https://example.com/other)"
    );
}

#[test]
fn inbound_activity_process_bsky_app_url_to_at_uri_valid() {
    assert_eq!(
        bsky_app_url_to_at_uri("https://bsky.app/profile/did:plc:abc123/post/xyz789"),
        Some("at://did:plc:abc123/app.bsky.feed.post/xyz789".to_string())
    );
}

#[test]
fn note_input_bsky_app_url_to_at_uri_valid() {
    assert_eq!(
        bsky_app_url_to_at_uri("https://bsky.app/profile/did:plc:abc123/post/xyz789"),
        Some("at://did:plc:abc123/app.bsky.feed.post/xyz789".to_string())
    );
}

#[test]
fn inbound_activity_process_bsky_app_url_to_at_uri_wrong_label() {
    assert_eq!(
        bsky_app_url_to_at_uri("https://bsky.app/profile/did:plc:abc123/likes/xyz789"),
        None
    );
}

#[test]
fn note_input_bsky_app_url_to_at_uri_wrong_label() {
    assert_eq!(
        bsky_app_url_to_at_uri("https://bsky.app/profile/did:plc:abc123/likes/xyz789"),
        None
    );
}

#[test]
fn inbound_activity_process_bsky_app_url_to_at_uri_not_bsky_app() {
    assert_eq!(bsky_app_url_to_at_uri("https://example.com/notes/1"), None);
    assert_eq!(bsky_app_url_to_at_uri(""), None);
}

#[test]
fn note_input_bsky_app_url_to_at_uri_not_bsky_app() {
    assert_eq!(bsky_app_url_to_at_uri("https://example.com/notes/1"), None);
    assert_eq!(bsky_app_url_to_at_uri(""), None);
}

#[test]
fn inbound_activity_process_normalizes_question_poll_without_trusting_negative_counts() {
    let question = obj(vec![("type", txt("Question")), ("oneOf", arr(vec![obj(vec![("name", txt("紅茶")), ("replies", obj(vec![("totalItems", num(3))]))]), obj(vec![("name", txt("珈琲")), ("replies", obj(vec![("totalItems", num(-2))]))])])), ("endTime", txt("2026-07-28T00:00:00Z")), ("votersCount", num(3))]);
    let expected = obj(vec![("multiple", Json::Bool(false)), ("options", arr(vec![obj(vec![("name", txt("紅茶")), ("votes", num(3))]), obj(vec![("name", txt("珈琲")), ("votes", num(0))])])), ("endTime", txt("2026-07-28T00:00:00Z")), ("closed", Json::Null), ("votersCount", num(3))]);
    assert!(normalize_ap_poll(&question).unwrap().same(&expected));
}

#[test]
fn note_input_normalizes_question_poll_without_trusting_negative_counts() {
    let question = obj(vec![("type", txt("Question")), ("oneOf", arr(vec![obj(vec![("name", txt("紅茶")), ("replies", obj(vec![("totalItems", num(3))]))]), obj(vec![("name", txt("珈琲")), ("replies", obj(vec![("totalItems", num(-2))]))])])), ("endTime", txt("2026-07-28T00:00:00Z")), ("votersCount", num(3))]);
    let expected = obj(vec![("multiple", Json::Bool(false)), ("options", arr(vec![obj(vec![("name", txt("紅茶")), ("votes", num(3))]), obj(vec![("name", txt("珈琲")), ("votes", num(0))])])), ("endTime", txt("2026-07-28T00:00:00Z")), ("closed", Json::Null), ("votersCount", num(3))]);
    assert!(normalize_ap_poll(&question).unwrap().same(&expected));
}

#[test]
fn strips_fedibird_qt_fallback_when_body_url_is_permalink_form() {
    let quote_uri = "https://fedibird.com/users/asata/statuses/117195892358865036";
    assert_eq!(
        strip_quote_fallback_line(
            "本文\nQT: [https://fedibird.com/@asata/117195892358865036](https://fedibird.com/@asata/117195892358865036) [[参照]](https://fedibird.com/@asata/117195910938900437/references)",
            quote_uri,
        ),
        "本文"
    );
}

#[test]
fn does_not_strip_when_host_differs_even_if_id_matches() {
    let quote_uri = "https://fedibird.com/users/asata/statuses/117195892358865036";
    let body = "本文\nRE: [https://other.example/notes/117195892358865036](https://other.example/notes/117195892358865036)";
    assert_eq!(strip_quote_fallback_line(body, quote_uri), body);
}

#[test]
fn strips_kmyblue_re_fallback_at_leading_line() {
    let quote_uri = "https://kblue.10rino.net/users/mz/statuses/117200184727293348";
    let body = "RE: [https://kblue.10rino.net/@mz/117200184727293348](https://kblue.10rino.net/@mz/117200184727293348)\n\nすみません永久不滅ポイントは永久不滅のままで";
    assert_eq!(
        strip_quote_fallback_line_leading(body, quote_uri),
        "すみません永久不滅ポイントは永久不滅のままで"
    );
}

#[test]
fn strips_kmyblue_colonless_re_fallback_at_tail() {
    let quote_uri =
        "https://kb.mu7ou.com/ap/users/116805310384210610/statuses/117017885539545746";
    let body = "一時的に見えるようにした :bunhdlurk:\n\nRE [https://kb.mu7ou.com/@m/117017885539545746](https://kb.mu7ou.com/@m/117017885539545746)";
    assert_eq!(
        strip_quote_fallback_line(body, quote_uri),
        "一時的に見えるようにした :bunhdlurk:"
    );
}
