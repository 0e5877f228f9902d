use seiran_common::mention::{scan_hashtag, scan_url};

#[test]
fn scan_url_detects_https() {
    let chars: Vec<char> = "https://example.com/path".chars().collect();
    let end = scan_url(&chars, 0).unwrap();
    let url: String = chars[0..end].iter().collect();
    assert_eq!(url, "https://example.com/path");
}

#[test]
fn scan_url_detects_http() {
    let chars: Vec<char> = "http://example.com".chars().collect();
    let end = scan_url(&chars, 0).unwrap();
    let url: String = chars[0..end].iter().collect();
    assert_eq!(url, "http://example.com");
}

#[test]
fn scan_url_stops_at_whitespace_and_delimiters() {
    for (input, expected) in [
        ("https://x.com 続き", "https://x.com"),
        ("https://x.com)続き", "https://x.com"),
        ("https://x.com]続き", "https://x.com"),
        ("https://x.com\n続き", "https://x.com"),
        ("(https://x.comを見て)", "https://x.comを見て"),
    ] {
        let chars: Vec<char> = input.chars().collect();
        let start = chars.iter().position(|&c| c == 'h').unwrap();
        let end = scan_url(&chars, start).unwrap();
        let url: String = chars[start..end].iter().collect();
        assert_eq!(url, expected, "input={:?}", input);
    }
}

#[test]
fn scan_url_returns_none_for_non_url_h_word() {
    let chars: Vec<char> = "hello world".chars().collect();
    assert!(scan_url(&chars, 0).is_none());
}

#[test]
fn scan_url_returns_none_for_bare_scheme() {
    let chars: Vec<char> = "https:// ".chars().collect();
    assert!(scan_url(&chars, 0).is_none());
}

#[test]
fn email_at_sign_should_not_start_mention() {
    let text = "contact admin@example.com please";
    let chars: Vec<char> = text.chars().collect();
    let mut skipped = false;
    let mut i = 0;
    while i < chars.len() {
        if chars[i] == '@' && i > 0 {
            let prev = chars[i - 1];
            if prev.is_ascii_alphanumeric() || prev == '_' {
                skipped = true;
            }
        }
        i += 1;
    }
    assert!(skipped, "`@` in email should be detected as preceded by word char");
}

#[test]
fn scan_hashtag_detects_ascii_tag() {
    let chars: Vec<char> = "#foo bar".chars().collect();
    let (tag, end) = scan_hashtag(&chars, 0).unwrap();
    assert_eq!(tag, "foo");
    assert_eq!(end, 4);
}

#[test]
fn scan_hashtag_detects_japanese_tag_directly_after_text() {
    let chars: Vec<char> = "今日も#猫 かわいい".chars().collect();
    let hash_idx = chars.iter().position(|&c| c == '#').unwrap();
    let (tag, _end) = scan_hashtag(&chars, hash_idx).unwrap();
    assert_eq!(tag, "猫");
}

#[test]
fn scan_hashtag_rejects_url_fragment() {
    let chars: Vec<char> = "https://x.com/a#frag".chars().collect();
    let hash_idx = chars.iter().position(|&c| c == '#').unwrap();
    assert!(scan_hashtag(&chars, hash_idx).is_none());
}

#[test]
fn scan_hashtag_rejects_pure_numeric() {
    let chars: Vec<char> = "#2026".chars().collect();
    assert!(scan_hashtag(&chars, 0).is_none());
}

#[test]
fn mention_guard_does_not_skip_at_after_cjk_char() {
    let prev_char = 'ト'; // 「リモート」の末尾（カタカナ）
    assert!(prev_char.is_alphanumeric(), "カタカナは Unicode 版 is_alphanumeric() では真になる");
    assert!(
        !prev_char.is_ascii_alphanumeric(),
        "ASCII版では偽になり、@ をメンション開始として正しく認識できる"
    );
}
