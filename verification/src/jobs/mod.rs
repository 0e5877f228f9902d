//! The decisions of the background jobs. Each job's module says what the job
//! does with what it found; looking things up and sending them is up to the
//! caller.

pub mod account_withdraw_unfollow_all;
pub mod actor_history_sync;
pub mod actor_metadata_resolve;
pub mod also_known_as_sync;
pub mod also_known_as_verify;
pub mod ap_delivery;
pub mod at_migration;
pub mod atp_repository_publish;
pub mod bridge_user_link_resolve;
pub mod bsky_dm_reaction;
pub mod bsky_dm_send;
pub mod bsky_post_commit_deferred;
pub mod bsky_video_poll;
pub mod fetch_bridge_original;
pub mod follow_import;
pub mod follow_requests_bulk_accept;
pub mod inbound_activity_process;
pub mod link_card_embed_resolve;
pub mod link_resolve;
pub mod ogp_fetch;
pub mod poll_fetch;
pub mod post_merge_cleanup;
pub mod proxy_follow_sync;
pub mod relay_follow_sync;
pub mod remote_actor_resolve;
pub mod remote_follow_list_sync;
pub mod remote_instance_info_resolve;
pub mod remote_profile_refresh;
