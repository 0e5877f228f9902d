use seiran_common::local_domain::domain_candidate_from_host;

#[test]
fn accepts_plain_domain() {
    assert_eq!(
        domain_candidate_from_host("seiran-beta.org"),
        Some("seiran-beta.org".to_string())
    );
}

#[test]
fn strips_port_and_lowercases() {
    assert_eq!(
        domain_candidate_from_host("Seiran-Beta.org:3000"),
        Some("seiran-beta.org".to_string())
    );
}

#[test]
fn strips_trailing_dot() {
    assert_eq!(
        domain_candidate_from_host("seiran-beta.org."),
        Some("seiran-beta.org".to_string())
    );
}

#[test]
fn rejects_localhost() {
    assert_eq!(domain_candidate_from_host("localhost"), None);
    assert_eq!(domain_candidate_from_host("localhost:3000"), None);
    assert_eq!(domain_candidate_from_host("LOCALHOST"), None);
}

#[test]
fn rejects_ipv4() {
    assert_eq!(domain_candidate_from_host("127.0.0.1"), None);
    assert_eq!(domain_candidate_from_host("192.168.1.1:8080"), None);
}

#[test]
fn rejects_ipv6() {
    assert_eq!(domain_candidate_from_host("::1"), None);
    assert_eq!(domain_candidate_from_host("[::1]"), None);
    assert_eq!(domain_candidate_from_host("[::1]:8080"), None);
}

#[test]
fn rejects_empty() {
    assert_eq!(domain_candidate_from_host(""), None);
    assert_eq!(domain_candidate_from_host("   "), None);
}
