use seiran_common::link_target::{extract_link_targets, parse_target, ParsedTarget};

#[test]
fn extract_urls_dedupes_and_finds_bare_and_href_urls() {
    let text = r#"見て <a href="https://mastodon.social/@alice">こちら</a> あと https://mastodon.social/@alice も同じ"#;
    assert_eq!(
        extract_link_targets(text),
        vec!["https://mastodon.social/@alice"]
    );
}

#[test]
fn extract_mentions_finds_fedi_acct_and_bsky_handle_and_dedupes() {
    let text = "よろしく @alice@mastodon.social です。Bskyは@bob.bsky.social、あと@alice@mastodon.socialも同じ人。メールuser@example.comは無視。";
    assert_eq!(
        extract_link_targets(text),
        vec!["@alice@mastodon.social", "@bob.bsky.social"]
    );
}

#[test]
fn extract_mentions_ignores_email_like_text() {
    assert!(extract_link_targets("contact: user@example.com").is_empty());
}

#[test]
fn parses_bsky_post_url() {
    let ParsedTarget::BskyPost(uri) =
        parse_target("https://bsky.app/profile/alice.test/post/3abc").unwrap()
    else {
        panic!("post expected");
    };
    assert_eq!(uri, "at://alice.test/app.bsky.feed.post/3abc");
}

#[test]
fn rejects_unrelated_bsky_url_and_non_post_at_uri() {
    assert!(parse_target("https://bsky.app/settings").is_none());
    assert!(parse_target("at://did:plc:x/app.bsky.actor.profile/self").is_none());
}
