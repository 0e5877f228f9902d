//! The origin of a web address.

use crate::outside;
use crate::outside::{Origin, OriginModel, UrlModel, UrlParts};
use crate::text;
use vstd::prelude::*;

verus! {

/// The origin of an address inside at most `depth` others, the address itself
/// included.
pub open spec fn origin_within(s: Seq<char>, depth: nat) -> OriginModel
    decreases depth,
{
    if depth == 0 {
        OriginModel::Opaque
    } else {
        match outside::parsed_url(s) {
            None => OriginModel::Opaque,
            Some(u) => if u.scheme == "blob"@ {
                origin_within(u.path, (depth - 1) as nat)
            } else {
                outside::own_origin(u)
            },
        }
    }
}

/// The origin of an address; nothing where the text is no address. An address with
/// the scheme `blob` has the origin of the address that its path is. Each of them
/// takes up some of the text, so there are never more than it has characters.
pub open spec fn origin_of(s: Seq<char>) -> Option<OriginModel> {
    match outside::parsed_url(s) {
        None => None,
        Some(_) => Some(origin_within(s, s.len() + 1)),
    }
}

/// The two origins are the same. One that is opaque is the same as no other.
pub open spec fn same_origin(left: Option<OriginModel>, right: Option<OriginModel>) -> bool {
    left == right && left is Some && left->0 is Tuple
}

/// What an optional origin stands for.
pub open spec fn origin_view(o: Option<Origin>) -> Option<OriginModel> {
    match o {
        Some(x) => Some(x@),
        None => None,
    }
}

/// What a parsed address stands for.
pub open spec fn url_view(u: Option<UrlParts>) -> Option<UrlModel> {
    match u {
        Some(p) => Some(p@),
        None => None,
    }
}

/// The origin of an address; nothing where the text is no address.
pub fn read_origin(s: &str) -> (r: Option<Origin>)
    ensures
        origin_view(r) == origin_of(s@),
{
    let mut left: usize = text::chars_of(s).len();
    let mut inner: UrlParts = match outside::parse_url(s) {
        Some(u) => u,
        None => {
            return None;
        },
    };
    if !text::same_str(inner.scheme.as_str(), "blob") {
        return Some(outside::url_origin(s));
    }
    loop
        invariant
            inner@.scheme == "blob"@,
            origin_of(s@) == Some(origin_within(inner@.path, left as nat)),
        decreases left,
    {
        if left == 0 {
            return Some(Origin::Opaque);
        }
        let next: UrlParts = match outside::parse_url(inner.path.as_str()) {
            Some(u) => u,
            None => {
                return Some(Origin::Opaque);
            },
        };
        if !text::same_str(next.scheme.as_str(), "blob") {
            return Some(outside::url_origin(inner.path.as_str()));
        }
        left -= 1;
        inner = next;
    }
}

/// Whether two origins are the same.
pub fn origins_agree(left: &Option<Origin>, right: &Option<Origin>) -> (r: bool)
    ensures
        r == same_origin(origin_view(*left), origin_view(*right)),
{
    match (left, right) {
        (
            Some(Origin::Tuple { scheme: s, host: h, port: p }),
            Some(Origin::Tuple { scheme: t, host: i, port: q }),
        ) => text::same_str(s.as_str(), t.as_str()) && text::same_str(h.as_str(), i.as_str()) && *p
            == *q,
        _ => false,
    }
}

// ---------------------------------------------------------------------------
// Laws.
// ---------------------------------------------------------------------------
/// Whether two addresses have the same origin does not depend on which is named
/// first.
pub proof fn law_same_origin_is_mutual(left: Option<OriginModel>, right: Option<OriginModel>)
    ensures
        same_origin(left, right) == same_origin(right, left),
{
}

/// An address whose scheme has no origin of its own is of the origin of no
/// address, not even of itself.
pub proof fn law_opaque_origin_is_no_other(s: Seq<char>, other: Seq<char>)
    requires
        outside::parsed_url(s) matches Some(u) && u.scheme != "blob"@
            && !outside::has_tuple_origin(u.scheme),
    ensures
        !same_origin(origin_of(s), origin_of(other)),
{
}

/// Two addresses are of one origin exactly where they agree in scheme, host and port,
/// and the scheme is one whose addresses have an origin at all; what the rest of
/// the addresses is makes no difference.
pub proof fn law_origin_is_scheme_host_and_port(a: Seq<char>, b: Seq<char>)
    requires
        outside::parsed_url(a) is Some,
        outside::parsed_url(b) is Some,
        outside::parsed_url(a)->0.scheme != "blob"@,
        outside::parsed_url(b)->0.scheme != "blob"@,
    ensures
        ({
            let u = outside::parsed_url(a)->0;
            let v = outside::parsed_url(b)->0;
            same_origin(origin_of(a), origin_of(b)) <==> u.scheme == v.scheme && u.host == v.host
                && u.port == v.port && u.host is Some && u.port is Some
                && outside::has_tuple_origin(u.scheme)
        }),
{
}

/// An address inside a `blob` address stands for it; what is no address is of no
/// origin.
pub proof fn law_blob_is_of_what_it_holds(s: Seq<char>, other: Seq<char>)
    ensures
        outside::parsed_url(s) is None ==> origin_of(s) is None && !same_origin(
            origin_of(s),
            origin_of(other),
        ),
        outside::parsed_url(s) is Some && outside::parsed_url(s)->0.scheme == "blob"@
            && outside::parsed_url(outside::parsed_url(s)->0.path) is Some && outside::parsed_url(
            outside::parsed_url(s)->0.path,
        )->0.scheme != "blob"@ && s.len() > 0 ==> origin_of(s) == origin_of(
            outside::parsed_url(s)->0.path,
        ),
{
    reveal_with_fuel(origin_within, 3);
}

} // verus!
