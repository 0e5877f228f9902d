use seiran_common::jobs::inbound_activity_process::content::{
    ap_content_to_markdown_body, sanitize_ap_content_html, strip_html,
    strip_quote_fallback_line_html,
};
use seiran_common::json::{Json, Member};

fn txt(s: &str) -> Json {
    Json::Str(s.to_string())
}

fn arr(v: Vec<Json>) -> Json {
    Json::Arr(v)
}

fn obj(v: Vec<(&str, Json)>) -> Json {
    Json::Obj(
        v.into_iter()
            .map(|(k, value)| Member { key: k.to_string(), value })
            .collect(),
    )
}

#[test]
fn inbound_activity_process_ap_content_to_markdown_body_converts_plain_link() {
    let html = r#"<p>見て <a href="https://example.com/foo">example.com/foo</a> だよ</p>"#;
    let body = ap_content_to_markdown_body(html, &[], "example.social");
    assert_eq!(body, "見て [example.com/foo](https://example.com/foo) だよ");
}

#[test]
fn content_ap_content_to_markdown_body_converts_plain_link() {
    let html = r#"<p>見て <a href="https://example.com/foo">example.com/foo</a> だよ</p>"#;
    let body = ap_content_to_markdown_body(html, &[], "example.social");
    assert_eq!(body, "見て [example.com/foo](https://example.com/foo) だよ");
}

#[test]
fn inbound_activity_process_ap_content_to_markdown_body_mention_becomes_plain_handle_text() {
    let html = r#"<p><a href="https://example.social/users/alice" class="u-url mention">@<span>alice</span></a> こんにちは</p>"#;
    let tags = vec![obj(vec![("type", txt("Mention")), ("href", txt("https://example.social/users/alice")), ("name", txt("@alice@example.social"))])];
    let body = ap_content_to_markdown_body(html, &tags, "example.social");
    assert_eq!(body, "@alice@example.social こんにちは");
}

#[test]
fn content_ap_content_to_markdown_body_mention_becomes_plain_handle_text() {
    let html = r#"<p><a href="https://example.social/users/alice" class="u-url mention">@<span>alice</span></a> こんにちは</p>"#;
    let tags = vec![obj(vec![("type", txt("Mention")), ("href", txt("https://example.social/users/alice")), ("name", txt("@alice@example.social"))])];
    let body = ap_content_to_markdown_body(html, &tags, "example.social");
    assert_eq!(body, "@alice@example.social こんにちは");
}

#[test]
fn inbound_activity_process_ap_content_to_markdown_body_mention_class_with_mismatched_href_falls_back_to_tag_username_match() {
    let html =
        r#"<p><a href="https://example.social/@bob" class="u-url mention">@bob</a> hi</p>"#;
    let tags = vec![obj(vec![("type", txt("Mention")), ("href", txt("https://example.social/users/bob")), ("name", txt("@bob@example.social"))])];
    let body = ap_content_to_markdown_body(html, &tags, "example.social");
    assert_eq!(body, "@bob@example.social hi");
}

#[test]
fn content_ap_content_to_markdown_body_mention_class_with_mismatched_href_falls_back_to_tag_username_match() {
    let html =
        r#"<p><a href="https://example.social/@bob" class="u-url mention">@bob</a> hi</p>"#;
    let tags = vec![obj(vec![("type", txt("Mention")), ("href", txt("https://example.social/users/bob")), ("name", txt("@bob@example.social"))])];
    let body = ap_content_to_markdown_body(html, &tags, "example.social");
    assert_eq!(body, "@bob@example.social hi");
}

#[test]
fn inbound_activity_process_ap_content_to_markdown_body_mention_class_without_tag_entry_gets_sender_domain_appended() {
    let html =
        r#"<p><a href="https://example.social/@carol" class="u-url mention">@carol</a> yo</p>"#;
    let body = ap_content_to_markdown_body(html, &[], "example.social");
    assert_eq!(body, "@carol@example.social yo");
}

#[test]
fn content_ap_content_to_markdown_body_mention_class_without_tag_entry_gets_sender_domain_appended() {
    let html =
        r#"<p><a href="https://example.social/@carol" class="u-url mention">@carol</a> yo</p>"#;
    let body = ap_content_to_markdown_body(html, &[], "example.social");
    assert_eq!(body, "@carol@example.social yo");
}

#[test]
fn inbound_activity_process_ap_content_to_markdown_body_self_mention_with_domain_omitted_name_gets_qualified() {
    let html = r#"<a href="https://reax.work/@yuba" class="u-url mention">@yuba</a>"#;
    let tags = vec![obj(vec![("type", txt("Mention")), ("href", txt("https://reax.work/users/9dohp6knpn")), ("name", txt("@yuba"))])];
    let body = ap_content_to_markdown_body(html, &tags, "reax.work");
    assert_eq!(body, "@yuba@reax.work");
}

#[test]
fn content_ap_content_to_markdown_body_self_mention_with_domain_omitted_name_gets_qualified() {
    let html = r#"<a href="https://reax.work/@yuba" class="u-url mention">@yuba</a>"#;
    let tags = vec![obj(vec![("type", txt("Mention")), ("href", txt("https://reax.work/users/9dohp6knpn")), ("name", txt("@yuba"))])];
    let body = ap_content_to_markdown_body(html, &tags, "reax.work");
    assert_eq!(body, "@yuba@reax.work");
}

#[test]
fn inbound_activity_process_ap_content_to_markdown_body_same_username_different_hosts_do_not_cross_match() {
    let html = r#"<a href="https://reax.work/@yuba" class="u-url mention">@yuba</a><br /><a href="https://fedibird.com/@yuba" class="u-url mention">@yuba@fedibird.com</a>"#;
    let tags = vec![
        obj(vec![("type", txt("Mention")), ("href", txt("https://reax.work/users/9dohp6knpn")), ("name", txt("@yuba"))]),
        obj(vec![("type", txt("Mention")), ("href", txt("https://fedibird.com/users/yuba")), ("name", txt("@yuba@fedibird.com"))]),
    ];
    let body = ap_content_to_markdown_body(html, &tags, "reax.work");
    assert_eq!(body, "@yuba@reax.work\n@yuba@fedibird.com");
}

#[test]
fn content_ap_content_to_markdown_body_same_username_different_hosts_do_not_cross_match() {
    let html = r#"<a href="https://reax.work/@yuba" class="u-url mention">@yuba</a><br /><a href="https://fedibird.com/@yuba" class="u-url mention">@yuba@fedibird.com</a>"#;
    let tags = vec![
        obj(vec![("type", txt("Mention")), ("href", txt("https://reax.work/users/9dohp6knpn")), ("name", txt("@yuba"))]),
        obj(vec![("type", txt("Mention")), ("href", txt("https://fedibird.com/users/yuba")), ("name", txt("@yuba@fedibird.com"))]),
    ];
    let body = ap_content_to_markdown_body(html, &tags, "reax.work");
    assert_eq!(body, "@yuba@reax.work\n@yuba@fedibird.com");
}

#[test]
fn inbound_activity_process_ap_content_to_markdown_body_non_mention_link_with_mismatched_tags_stays_a_link() {
    let html = r#"<a href="https://example.com/article">記事</a>"#;
    let body = ap_content_to_markdown_body(html, &[], "example.social");
    assert_eq!(body, "[記事](https://example.com/article)");
}

#[test]
fn content_ap_content_to_markdown_body_non_mention_link_with_mismatched_tags_stays_a_link() {
    let html = r#"<a href="https://example.com/article">記事</a>"#;
    let body = ap_content_to_markdown_body(html, &[], "example.social");
    assert_eq!(body, "[記事](https://example.com/article)");
}

#[test]
fn inbound_activity_process_ap_content_to_markdown_body_hashtag_anchor_becomes_link_to_remote_tag_page() {
    let html = r#"<a href="https://example.social/tags/foo" rel="tag">#foo</a>"#;
    let body = ap_content_to_markdown_body(html, &[], "example.social");
    assert_eq!(body, "[#foo](https://example.social/tags/foo)");
}

#[test]
fn content_ap_content_to_markdown_body_hashtag_anchor_becomes_link_to_remote_tag_page() {
    let html = r#"<a href="https://example.social/tags/foo" rel="tag">#foo</a>"#;
    let body = ap_content_to_markdown_body(html, &[], "example.social");
    assert_eq!(body, "[#foo](https://example.social/tags/foo)");
}

#[test]
fn inbound_activity_process_ap_content_to_markdown_body_real_mastodon_hashtag_anchor_with_mention_class_not_misparsed() {
    let html = r#"<a href="https://example.social/tags/foo" class="mention hashtag" rel="tag">#foo</a>"#;
    let body = ap_content_to_markdown_body(html, &[], "example.social");
    assert_eq!(body, "[#foo](https://example.social/tags/foo)");
}

#[test]
fn content_ap_content_to_markdown_body_real_mastodon_hashtag_anchor_with_mention_class_not_misparsed() {
    let html = r#"<a href="https://example.social/tags/foo" class="mention hashtag" rel="tag">#foo</a>"#;
    let body = ap_content_to_markdown_body(html, &[], "example.social");
    assert_eq!(body, "[#foo](https://example.social/tags/foo)");
}

#[test]
fn inbound_activity_process_ap_content_to_markdown_body_unclosed_anchor_does_not_panic() {
    let html = r#"text <a href="https://example.com">no closing tag"#;
    let body = ap_content_to_markdown_body(html, &[], "example.social");
    assert_eq!(body, "text [no closing tag](https://example.com)");
}

#[test]
fn content_ap_content_to_markdown_body_unclosed_anchor_does_not_panic() {
    let html = r#"text <a href="https://example.com">no closing tag"#;
    let body = ap_content_to_markdown_body(html, &[], "example.social");
    assert_eq!(body, "text [no closing tag](https://example.com)");
}

#[test]
fn inbound_activity_process_ap_content_to_markdown_body_preserves_markdown_like_plain_text() {
    let html = r#"<p>参考: [seiran](https://example.com/seiran)</p>"#;
    let body = ap_content_to_markdown_body(html, &[], "example.social");
    assert_eq!(body, "参考: [seiran](https://example.com/seiran)");
}

#[test]
fn content_ap_content_to_markdown_body_preserves_markdown_like_plain_text() {
    let html = r#"<p>参考: [seiran](https://example.com/seiran)</p>"#;
    let body = ap_content_to_markdown_body(html, &[], "example.social");
    assert_eq!(body, "参考: [seiran](https://example.com/seiran)");
}

#[test]
fn inbound_activity_process_ap_content_to_markdown_body_preserves_paragraph_and_br_newlines() {
    let html = "<p>1行目です</p><p>2行目<br>3行目です</p>";
    let body = ap_content_to_markdown_body(html, &[], "example.social");
    assert_eq!(body, "1行目です\n\n2行目\n3行目です");
}

#[test]
fn content_ap_content_to_markdown_body_preserves_paragraph_and_br_newlines() {
    let html = "<p>1行目です</p><p>2行目<br>3行目です</p>";
    let body = ap_content_to_markdown_body(html, &[], "example.social");
    assert_eq!(body, "1行目です\n\n2行目\n3行目です");
}

#[test]
fn inbound_activity_process_ap_content_to_markdown_body_collapses_excessive_blank_lines() {
    let html = "<p>foo</p><p></p><p></p><p>bar</p>";
    let body = ap_content_to_markdown_body(html, &[], "example.social");
    assert_eq!(body, "foo\n\nbar");
}

#[test]
fn content_ap_content_to_markdown_body_collapses_excessive_blank_lines() {
    let html = "<p>foo</p><p></p><p></p><p>bar</p>";
    let body = ap_content_to_markdown_body(html, &[], "example.social");
    assert_eq!(body, "foo\n\nbar");
}

#[test]
fn inbound_activity_process_sanitize_ap_content_html_preserves_blockquote() {
    let html = "<p><blockquote><span>quoted text</span></blockquote>after</p>";
    let out = sanitize_ap_content_html(html, &[], "example.social");
    assert_eq!(
        out,
        "<p></p><blockquote>quoted text</blockquote>after<p></p>"
    );
}

#[test]
fn content_sanitize_ap_content_html_preserves_blockquote() {
    let html = "<p><blockquote><span>quoted text</span></blockquote>after</p>";
    let out = sanitize_ap_content_html(html, &[], "example.social");
    assert_eq!(
        out,
        "<p></p><blockquote>quoted text</blockquote>after<p></p>"
    );
}

#[test]
fn inbound_activity_process_sanitize_ap_content_html_preserves_ruby() {
    let html = "<ruby>漢字<rp>(</rp><rt>かんじ</rt><rp>)</rp></ruby>";
    let out = sanitize_ap_content_html(html, &[], "example.social");
    assert_eq!(out, html);
}

#[test]
fn content_sanitize_ap_content_html_preserves_ruby() {
    let html = "<ruby>漢字<rp>(</rp><rt>かんじ</rt><rp>)</rp></ruby>";
    let out = sanitize_ap_content_html(html, &[], "example.social");
    assert_eq!(out, html);
}

#[test]
fn inbound_activity_process_sanitize_ap_content_html_preserves_inline_formatting() {
    let html = "<b>bold</b><i>italic</i><s>strike</s><code>code</code><pre>pre</pre>";
    let out = sanitize_ap_content_html(html, &[], "example.social");
    assert_eq!(out, html);
}

#[test]
fn content_sanitize_ap_content_html_preserves_inline_formatting() {
    let html = "<b>bold</b><i>italic</i><s>strike</s><code>code</code><pre>pre</pre>";
    let out = sanitize_ap_content_html(html, &[], "example.social");
    assert_eq!(out, html);
}

#[test]
fn inbound_activity_process_sanitize_ap_content_html_rewrites_mention_href() {
    let html = r#"<a href="https://remote.example/@bob" class="u-url mention">@bob@remote.example</a>"#;
    let tags = vec![obj(vec![("type", txt("Mention")), ("href", txt("https://remote.example/@bob")), ("name", txt("@bob@remote.example"))])];
    let out = sanitize_ap_content_html(html, &tags, "remote.example");
    assert_eq!(
        out,
        r#"<a href="/@bob@remote.example">@bob@remote.example</a>"#
    );
}

#[test]
fn content_sanitize_ap_content_html_rewrites_mention_href() {
    let html = r#"<a href="https://remote.example/@bob" class="u-url mention">@bob@remote.example</a>"#;
    let tags = vec![obj(vec![("type", txt("Mention")), ("href", txt("https://remote.example/@bob")), ("name", txt("@bob@remote.example"))])];
    let out = sanitize_ap_content_html(html, &tags, "remote.example");
    assert_eq!(
        out,
        r#"<a href="/@bob@remote.example">@bob@remote.example</a>"#
    );
}

#[test]
fn inbound_activity_process_sanitize_ap_content_html_rewrites_hashtag_href() {
    let html = r#"<a href="https://remote.example/tags/foo" rel="tag">#foo</a>"#;
    let out = sanitize_ap_content_html(html, &[], "remote.example");
    assert_eq!(out, r#"<a href="/tags/foo">#foo</a>"#);
}

#[test]
fn content_sanitize_ap_content_html_rewrites_hashtag_href() {
    let html = r#"<a href="https://remote.example/tags/foo" rel="tag">#foo</a>"#;
    let out = sanitize_ap_content_html(html, &[], "remote.example");
    assert_eq!(out, r#"<a href="/tags/foo">#foo</a>"#);
}

#[test]
fn inbound_activity_process_sanitize_ap_content_html_keeps_ordinary_link_href_but_drops_rel_target() {
    let html =
        r#"<a href="https://example.com/" rel="nofollow noopener" target="_blank">link</a>"#;
    let out = sanitize_ap_content_html(html, &[], "example.social");
    assert_eq!(out, r#"<a href="https://example.com/">link</a>"#);
}

#[test]
fn content_sanitize_ap_content_html_keeps_ordinary_link_href_but_drops_rel_target() {
    let html =
        r#"<a href="https://example.com/" rel="nofollow noopener" target="_blank">link</a>"#;
    let out = sanitize_ap_content_html(html, &[], "example.social");
    assert_eq!(out, r#"<a href="https://example.com/">link</a>"#);
}

#[test]
fn inbound_activity_process_sanitize_ap_content_html_strips_disallowed_tag_and_script() {
    let html = "<script>alert(1)</script><span>plain</span>";
    let out = sanitize_ap_content_html(html, &[], "example.social");
    assert_eq!(out, "plain");
}

#[test]
fn content_sanitize_ap_content_html_strips_disallowed_tag_and_script() {
    let html = "<script>alert(1)</script><span>plain</span>";
    let out = sanitize_ap_content_html(html, &[], "example.social");
    assert_eq!(out, "plain");
}

#[test]
fn inbound_activity_process_sanitize_ap_content_html_rejects_javascript_scheme() {
    let html = r#"<a href="javascript:alert(1)">click</a>"#;
    let out = sanitize_ap_content_html(html, &[], "example.social");
    assert!(!out.contains("javascript:"), "got: {out}");
}

#[test]
fn content_sanitize_ap_content_html_rejects_javascript_scheme() {
    let html = r#"<a href="javascript:alert(1)">click</a>"#;
    let out = sanitize_ap_content_html(html, &[], "example.social");
    assert!(!out.contains("javascript:"), "got: {out}");
}

#[test]
fn inbound_activity_process_sanitize_ap_content_html_strips_class_attribute() {
    let html = r#"<p class="foo">text</p>"#;
    let out = sanitize_ap_content_html(html, &[], "example.social");
    assert_eq!(out, "<p>text</p>");
}

#[test]
fn content_sanitize_ap_content_html_strips_class_attribute() {
    let html = r#"<p class="foo">text</p>"#;
    let out = sanitize_ap_content_html(html, &[], "example.social");
    assert_eq!(out, "<p>text</p>");
}

#[test]
fn inbound_activity_process_sanitize_ap_content_html_keeps_only_text_align_style() {
    let html = r#"<div style="text-align: center">c</div><div style="color: red">r</div>"#;
    let out = sanitize_ap_content_html(html, &[], "example.social");
    assert_eq!(
        out,
        r#"<div style="text-align: center">c</div><div>r</div>"#
    );
}

#[test]
fn content_sanitize_ap_content_html_keeps_only_text_align_style() {
    let html = r#"<div style="text-align: center">c</div><div style="color: red">r</div>"#;
    let out = sanitize_ap_content_html(html, &[], "example.social");
    assert_eq!(
        out,
        r#"<div style="text-align: center">c</div><div>r</div>"#
    );
}

#[test]
fn inbound_activity_process_strip_quote_fallback_line_html_removes_trailing_re_line() {
    let html = "<p>本文<br>RE: <a href=\"https://q.example/1\">https://q.example/1</a></p>";
    let out = strip_quote_fallback_line_html(html, "https://q.example/1");
    assert_eq!(out, "<p>本文");
}

#[test]
fn content_strip_quote_fallback_line_html_removes_trailing_re_line() {
    let html = "<p>本文<br>RE: <a href=\"https://q.example/1\">https://q.example/1</a></p>";
    let out = strip_quote_fallback_line_html(html, "https://q.example/1");
    assert_eq!(out, "<p>本文");
}

#[test]
fn inbound_activity_process_strip_quote_fallback_line_html_keeps_unrelated_content() {
    let html = "<p>本文<br>RE: not a match</p>";
    let out = strip_quote_fallback_line_html(html, "https://q.example/1");
    assert_eq!(out, html);
}

#[test]
fn content_strip_quote_fallback_line_html_keeps_unrelated_content() {
    let html = "<p>本文<br>RE: not a match</p>";
    let out = strip_quote_fallback_line_html(html, "https://q.example/1");
    assert_eq!(out, html);
}

#[test]
fn inbound_activity_process_test_strip_html_simple() {
    assert_eq!(strip_html("<p>Hello, world!</p>"), "Hello, world!");
    assert_eq!(
        strip_html("<b>bold</b> and <i>italic</i>"),
        "bold and italic"
    );
}

#[test]
fn content_test_strip_html_simple() {
    assert_eq!(strip_html("<p>Hello, world!</p>"), "Hello, world!");
    assert_eq!(
        strip_html("<b>bold</b> and <i>italic</i>"),
        "bold and italic"
    );
}

#[test]
fn inbound_activity_process_test_strip_html_entities() {
    assert_eq!(strip_html("<p>a &amp; b</p>"), "a & b");
    assert_eq!(strip_html("&lt;script&gt;"), "<script>");
    assert_eq!(strip_html("&quot;quoted&quot;"), "\"quoted\"");
    assert_eq!(strip_html("it&#39;s"), "it's");
    assert_eq!(strip_html("VisualArt&#039;s"), "VisualArt's");
    assert_eq!(strip_html("VisualArt&#x27;s"), "VisualArt's");
    assert_eq!(strip_html("VisualArt&apos;s"), "VisualArt's");
    assert_eq!(strip_html("a&nbsp;b"), "a b");
}

#[test]
fn content_test_strip_html_entities() {
    assert_eq!(strip_html("<p>a &amp; b</p>"), "a & b");
    assert_eq!(strip_html("&lt;script&gt;"), "<script>");
    assert_eq!(strip_html("&quot;quoted&quot;"), "\"quoted\"");
    assert_eq!(strip_html("it&#39;s"), "it's");
    assert_eq!(strip_html("VisualArt&#039;s"), "VisualArt's");
    assert_eq!(strip_html("VisualArt&#x27;s"), "VisualArt's");
    assert_eq!(strip_html("VisualArt&apos;s"), "VisualArt's");
    assert_eq!(strip_html("a&nbsp;b"), "a b");
}

#[test]
fn inbound_activity_process_test_strip_html_empty() {
    assert_eq!(strip_html(""), "");
    assert_eq!(strip_html("   "), "");
    assert_eq!(strip_html("<br/>"), "");
}

#[test]
fn content_test_strip_html_empty() {
    assert_eq!(strip_html(""), "");
    assert_eq!(strip_html("   "), "");
    assert_eq!(strip_html("<br/>"), "");
}
