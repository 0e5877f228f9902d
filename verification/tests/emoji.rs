use seiran_common::jobs::inbound_activity_process::emoji::{
    extract_emoji_tag_url, has_same_origin, has_unresolved_emoji_shortcodes,
};
use seiran_common::json::{Json, Member};

fn txt(s: &str) -> Json {
    Json::Str(s.to_string())
}

fn arr(v: Vec<Json>) -> Json {
    Json::Arr(v)
}

fn obj(v: Vec<(&str, Json)>) -> Json {
    Json::Obj(
        v.into_iter()
            .map(|(k, value)| Member { key: k.to_string(), value })
            .collect(),
    )
}

/// The words between two colons in a text.
fn shortcodes(body: &str) -> Vec<String> {
    let pieces: Vec<&str> = body.split(':').collect();
    let mut out = Vec::new();
    for i in 1..pieces.len().max(1) {
        let word = pieces[i];
        let closed = i + 1 < pieces.len();
        let plain = !word.is_empty() && word.chars().all(|c| c.is_ascii_alphanumeric() || c == '_');
        if closed && plain {
            out.push(word.to_string());
        }
    }
    out
}

#[test]
fn inbound_activity_process_detects_shortcode_missing_from_embedded_note_tags() {
    assert!(has_unresolved_emoji_shortcodes(
        &[],
        &shortcodes("暑くて\u{200b}:tokeru:\u{200b}どころか蒸発する"),
    ));
}

#[test]
fn emoji_detects_shortcode_missing_from_embedded_note_tags() {
    assert!(has_unresolved_emoji_shortcodes(
        &[],
        &shortcodes("暑くて\u{200b}:tokeru:\u{200b}どころか蒸発する"),
    ));
}

#[test]
fn inbound_activity_process_does_not_fetch_when_every_shortcode_has_an_emoji_tag() {
    let tags = vec![obj(vec![("type", txt("Emoji")), ("name", txt(":tokeru:")), ("icon", obj(vec![("url", txt("https://example.com/tokeru.png"))]))])];
    assert!(!has_unresolved_emoji_shortcodes(
        &tags,
        &shortcodes("暑くて\u{200b}:tokeru:\u{200b}どころか蒸発する"),
    ));
}

#[test]
fn emoji_does_not_fetch_when_every_shortcode_has_an_emoji_tag() {
    let tags = vec![obj(vec![("type", txt("Emoji")), ("name", txt(":tokeru:")), ("icon", obj(vec![("url", txt("https://example.com/tokeru.png"))]))])];
    assert!(!has_unresolved_emoji_shortcodes(
        &tags,
        &shortcodes("暑くて\u{200b}:tokeru:\u{200b}どころか蒸発する"),
    ));
}

#[test]
fn inbound_activity_process_ignores_plain_colon_text_without_a_shortcode() {
    assert!(!has_unresolved_emoji_shortcodes(
        &[],
        &shortcodes("時刻は12:34です https://example.com/a:b"),
    ));
}

#[test]
fn emoji_ignores_plain_colon_text_without_a_shortcode() {
    assert!(!has_unresolved_emoji_shortcodes(
        &[],
        &shortcodes("時刻は12:34です https://example.com/a:b"),
    ));
}

#[test]
fn inbound_activity_process_canonical_note_fetch_is_limited_to_actor_origin() {
    assert!(has_same_origin(
        "https://misskey.example/notes/1",
        "https://misskey.example/users/alice",
    ));
    assert!(!has_same_origin(
        "http://127.0.0.1/internal",
        "https://misskey.example/users/alice",
    ));
}

#[test]
fn emoji_canonical_note_fetch_is_limited_to_actor_origin() {
    assert!(has_same_origin(
        "https://misskey.example/notes/1",
        "https://misskey.example/users/alice",
    ));
    assert!(!has_same_origin(
        "http://127.0.0.1/internal",
        "https://misskey.example/users/alice",
    ));
}

#[test]
fn inbound_activity_process_extract_emoji_tag_url_finds_matching_custom_emoji() {
    let activity = obj(vec![("type", txt("Like")), ("content", txt(":blobcat:")), ("_misskey_reaction", txt(":blobcat:")), ("tag", arr(vec![obj(vec![("id", txt("https://misskey.example/emojis/blobcat")), ("type", txt("Emoji")), ("name", txt(":blobcat:")), ("icon", obj(vec![("type", txt("Image")), ("mediaType", txt("image/png")), ("url", txt("https://misskey.example/files/blobcat.png"))]))])]))]);
    assert_eq!(
        extract_emoji_tag_url(&activity, ":blobcat:"),
        Some("https://misskey.example/files/blobcat.png".to_string())
    );
}

#[test]
fn emoji_extract_emoji_tag_url_finds_matching_custom_emoji() {
    let activity = obj(vec![("type", txt("Like")), ("content", txt(":blobcat:")), ("_misskey_reaction", txt(":blobcat:")), ("tag", arr(vec![obj(vec![("id", txt("https://misskey.example/emojis/blobcat")), ("type", txt("Emoji")), ("name", txt(":blobcat:")), ("icon", obj(vec![("type", txt("Image")), ("mediaType", txt("image/png")), ("url", txt("https://misskey.example/files/blobcat.png"))]))])]))]);
    assert_eq!(
        extract_emoji_tag_url(&activity, ":blobcat:"),
        Some("https://misskey.example/files/blobcat.png".to_string())
    );
}

#[test]
fn inbound_activity_process_extract_emoji_tag_url_ignores_non_matching_name() {
    let activity = obj(vec![("tag", arr(vec![obj(vec![("type", txt("Emoji")), ("name", txt(":other:")), ("icon", obj(vec![("url", txt("https://example.com/other.png"))]))])]))]);
    assert_eq!(extract_emoji_tag_url(&activity, ":blobcat:"), None);
}

#[test]
fn emoji_extract_emoji_tag_url_ignores_non_matching_name() {
    let activity = obj(vec![("tag", arr(vec![obj(vec![("type", txt("Emoji")), ("name", txt(":other:")), ("icon", obj(vec![("url", txt("https://example.com/other.png"))]))])]))]);
    assert_eq!(extract_emoji_tag_url(&activity, ":blobcat:"), None);
}

#[test]
fn inbound_activity_process_extract_emoji_tag_url_ignores_non_emoji_tag_type() {
    let activity = obj(vec![("tag", arr(vec![obj(vec![("type", txt("Mention")), ("name", txt(":blobcat:")), ("icon", obj(vec![("url", txt("https://example.com/x.png"))]))])]))]);
    assert_eq!(extract_emoji_tag_url(&activity, ":blobcat:"), None);
}

#[test]
fn emoji_extract_emoji_tag_url_ignores_non_emoji_tag_type() {
    let activity = obj(vec![("tag", arr(vec![obj(vec![("type", txt("Mention")), ("name", txt(":blobcat:")), ("icon", obj(vec![("url", txt("https://example.com/x.png"))]))])]))]);
    assert_eq!(extract_emoji_tag_url(&activity, ":blobcat:"), None);
}

#[test]
fn inbound_activity_process_extract_emoji_tag_url_no_tag_field() {
    let activity = obj(vec![("content", txt("👍"))]);
    assert_eq!(extract_emoji_tag_url(&activity, "👍"), None);
}

#[test]
fn emoji_extract_emoji_tag_url_no_tag_field() {
    let activity = obj(vec![("content", txt("👍"))]);
    assert_eq!(extract_emoji_tag_url(&activity, "👍"), None);
}

#[test]
fn extract_emoji_tag_url_unicode_emoji_content_has_no_tag_match() {
    let activity = obj(vec![("content", txt("🎉")), ("tag", arr(vec![obj(vec![("type", txt("Emoji")), ("name", txt(":blobcat:")), ("icon", obj(vec![("url", txt("https://example.com/blobcat.png"))]))])]))]);
    assert_eq!(extract_emoji_tag_url(&activity, "🎉"), None);
}

#[test]
fn extract_emoji_tag_url_handles_hosted_name() {
    let activity = obj(vec![("tag", arr(vec![obj(vec![("type", txt("Emoji")), ("name", txt(":otu2@seiran-beta.org:")), ("icon", obj(vec![("url", txt("https://seiran-beta.org/files/otu2.png"))]))])]))]);
    assert_eq!(
        extract_emoji_tag_url(&activity, "otu2"),
        Some("https://seiran-beta.org/files/otu2.png".to_string())
    );
}
