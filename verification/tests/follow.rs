use seiran_common::jobs::inbound_activity_process::follow::parse_local_follow_activity_id;

#[test]
fn inbound_activity_process_parses_local_and_remote_actor_ids() {
    assert_eq!(
        parse_local_follow_activity_id(
            "https://seiran.example/activities/follow/123-456",
            "seiran.example",
        ),
        Some((123, 456))
    );
}

#[test]
fn follow_parses_local_and_remote_actor_ids() {
    assert_eq!(
        parse_local_follow_activity_id(
            "https://seiran.example/activities/follow/123-456",
            "seiran.example",
        ),
        Some((123, 456))
    );
}

#[test]
fn inbound_activity_process_rejects_foreign_or_legacy_follow_activity_ids() {
    assert_eq!(
        parse_local_follow_activity_id(
            "https://other.example/activities/follow/123-456",
            "seiran.example",
        ),
        None
    );
    assert_eq!(
        parse_local_follow_activity_id(
            "https://seiran.example/activities/follow/456",
            "seiran.example",
        ),
        None
    );
}

#[test]
fn follow_rejects_foreign_or_legacy_follow_activity_ids() {
    assert_eq!(
        parse_local_follow_activity_id(
            "https://other.example/activities/follow/123-456",
            "seiran.example",
        ),
        None
    );
    assert_eq!(
        parse_local_follow_activity_id(
            "https://seiran.example/activities/follow/456",
            "seiran.example",
        ),
        None
    );
}
