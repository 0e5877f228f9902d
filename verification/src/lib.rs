pub mod ap;
pub mod cooldown;
pub mod decimal;
pub mod ip_literal;
pub mod jobs;
pub mod json;
pub mod lang;
pub mod link_target;
pub mod local_domain;
pub mod mention;
pub mod origin;
pub mod outside;
pub mod spacing;
pub mod text;

pub use lang::{is_supported_language, SUPPORTED_LANGUAGES};
pub use local_domain::{domain_candidate_from_host, resolve_local_domain, DomainPlaces, LocalDomain};
use vstd::prelude::*;

verus! {

/// How many fields a profile has at most.
pub const MAX_PROFILE_FIELDS: usize = 4;

/// How many other accounts an account names as its own at most.
pub const MAX_ALSO_KNOWN_AS: usize = 10;

} // verus!
