//! Copying posts to an account on another server of the AT network.

use crate::text;
use vstd::prelude::*;

verus! {

/// Whether a change is copied: only new posts are.
pub fn is_published(commit_type: &str) -> (r: bool)
    ensures
        r == (commit_type@ == "create_post"@),
{
    text::same_str(commit_type, "create_post")
}

/// The account that posts are copied to.
#[derive(Debug)]
pub struct PublishAccount {
    pub handle: String,
    pub password: String,
    pub pds_url: String,
}

/// The account that posts are copied to, where one is configured. Its server is
/// `bsky.social` unless another one is given.
pub fn publish_account(handle: Option<String>, password: Option<String>, pds_url: Option<String>) -> (r:
    Option<PublishAccount>)
    ensures
        match (handle, password) {
            (Some(h), Some(p)) => {
                &&& r matches Some(a)
                &&& a.handle == h
                &&& a.password == p
                &&& a.pds_url@ == (match pds_url {
                    Some(u) => u@,
                    None => "https://bsky.social"@,
                })
            },
            _ => r is None,
        },
{
    match (handle, password) {
        (Some(handle), Some(password)) => {
            let pds_url: String = match pds_url {
                Some(u) => u,
                None => "https://bsky.social".to_owned(),
            };
            Some(PublishAccount { handle, password, pds_url })
        },
        _ => None,
    }
}

} // verus!
