use seiran_common::jobs::inbound_activity_process::note_save::extract_link_card_urls;

#[test]
fn inbound_activity_process_extract_link_card_urls_finds_multiple_and_dedups() {
    let body = "見て [記事](https://example.com/a) それと [同じ記事](https://example.com/a) [別記事](https://example.com/b)";
    let urls = extract_link_card_urls(body, 5);
    assert_eq!(
        urls,
        vec![
            "https://example.com/a".to_string(),
            "https://example.com/b".to_string()
        ]
    );
}

#[test]
fn note_save_extract_link_card_urls_finds_multiple_and_dedups() {
    let body = "見て [記事](https://example.com/a) それと [同じ記事](https://example.com/a) [別記事](https://example.com/b)";
    let urls = extract_link_card_urls(body, 5);
    assert_eq!(
        urls,
        vec![
            "https://example.com/a".to_string(),
            "https://example.com/b".to_string()
        ]
    );
}

#[test]
fn inbound_activity_process_extract_link_card_urls_ignores_hashtag_links() {
    let body = "[#foo](https://example.social/tags/foo) [記事](https://example.com/a)";
    let urls = extract_link_card_urls(body, 5);
    assert_eq!(urls, vec!["https://example.com/a".to_string()]);
}

#[test]
fn note_save_extract_link_card_urls_ignores_hashtag_links() {
    let body = "[#foo](https://example.social/tags/foo) [記事](https://example.com/a)";
    let urls = extract_link_card_urls(body, 5);
    assert_eq!(urls, vec!["https://example.com/a".to_string()]);
}

#[test]
fn inbound_activity_process_extract_link_card_urls_ignores_image_markdown() {
    let body = "![alt](https://example.com/pic.png) [記事](https://example.com/a)";
    let urls = extract_link_card_urls(body, 5);
    assert_eq!(urls, vec!["https://example.com/a".to_string()]);
}

#[test]
fn note_save_extract_link_card_urls_ignores_image_markdown() {
    let body = "![alt](https://example.com/pic.png) [記事](https://example.com/a)";
    let urls = extract_link_card_urls(body, 5);
    assert_eq!(urls, vec!["https://example.com/a".to_string()]);
}

#[test]
fn inbound_activity_process_extract_link_card_urls_respects_max() {
    let body =
        "[a](https://example.com/1) [b](https://example.com/2) [c](https://example.com/3)";
    let urls = extract_link_card_urls(body, 2);
    assert_eq!(urls.len(), 2);
}

#[test]
fn note_save_extract_link_card_urls_respects_max() {
    let body =
        "[a](https://example.com/1) [b](https://example.com/2) [c](https://example.com/3)";
    let urls = extract_link_card_urls(body, 2);
    assert_eq!(urls.len(), 2);
}
