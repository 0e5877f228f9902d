//! Sending activities of local actors to their followers.

use crate::jobs::proxy_follow_sync;
use crate::text;
use vstd::prelude::*;

verus! {

/// A reaction that is replaced by another one.
pub struct PrevApReaction {
    pub activity_id: String,
    pub content: String,
}

/// What is to be sent.
pub enum ApDeliveryKind {
    PostToFollowers {
        post_id: i64,
        body: Option<String>,
        quote_url: Option<String>,
        in_reply_to: Option<String>,
    },
    Announce { post_id: i64, original_ap_object_id: String },
    UndoAnnounce { announce_post_id: i64, original_ap_object_id: String },
    Reaction {
        post_id: i64,
        activity_id: String,
        content: String,
        undo_prev: Option<PrevApReaction>,
    },
    UndoReaction { post_id: i64, prev_activity_id: String, content: String },
    UpdateActor,
    DeleteActor,
}

/// One thing that is sent.
pub enum DeliveryStep {
    Post {
        post_id: i64,
        body: Option<String>,
        quote_url: Option<String>,
        in_reply_to: Option<String>,
    },
    Announce { post_id: i64, original_ap_object_id: String },
    UndoAnnounce { announce_post_id: i64, original_ap_object_id: String },
    Reaction { post_id: i64, activity_id: String, content: String },
    /// Where `best_effort`, a failure does not keep what follows from being sent.
    UndoReaction { post_id: i64, activity_id: String, content: String, best_effort: bool },
    UpdateActor { public_pem: String },
    DeleteActor,
}

/// What is sent, in order. A reaction that replaces another one takes that one
/// back first.
pub open spec fn steps_for(kind: ApDeliveryKind, public_pem: Option<String>) -> Seq<DeliveryStep> {
    match kind {
        ApDeliveryKind::PostToFollowers { post_id, body, quote_url, in_reply_to } => seq![
            DeliveryStep::Post { post_id, body, quote_url, in_reply_to },
        ],
        ApDeliveryKind::Announce { post_id, original_ap_object_id } => seq![
            DeliveryStep::Announce { post_id, original_ap_object_id },
        ],
        ApDeliveryKind::UndoAnnounce { announce_post_id, original_ap_object_id } => seq![
            DeliveryStep::UndoAnnounce { announce_post_id, original_ap_object_id },
        ],
        ApDeliveryKind::Reaction { post_id, activity_id, content, undo_prev } => (match undo_prev {
            Some(prev) => seq![
                DeliveryStep::UndoReaction {
                    post_id,
                    activity_id: prev.activity_id,
                    content: prev.content,
                    best_effort: true,
                },
            ],
            None => seq![],
        }) + seq![DeliveryStep::Reaction { post_id, activity_id, content }],
        ApDeliveryKind::UndoReaction { post_id, prev_activity_id, content } => seq![
            DeliveryStep::UndoReaction {
                post_id,
                activity_id: prev_activity_id,
                content,
                best_effort: false,
            },
        ],
        ApDeliveryKind::UpdateActor => match public_pem {
            Some(p) if p@.len() > 0 => seq![DeliveryStep::UpdateActor { public_pem: p }],
            _ => seq![],
        },
        ApDeliveryKind::DeleteActor => seq![DeliveryStep::DeleteActor],
    }
}

/// What is sent, in order. Nothing is sent without a key to sign with, and no
/// changed actor without its public key.
pub fn plan_delivery(
    kind: ApDeliveryKind,
    private_pem: Option<&str>,
    public_pem: Option<String>,
) -> (r: Vec<DeliveryStep>)
    ensures
        r@ == (if proxy_follow_sync::usable(text::str_view(private_pem)) is Some {
            steps_for(kind, public_pem)
        } else {
            seq![]
        }),
{
    let mut out: Vec<DeliveryStep> = Vec::new();
    if proxy_follow_sync::usable_key(private_pem).is_none() {
        return out;
    }
    match kind {
        ApDeliveryKind::PostToFollowers { post_id, body, quote_url, in_reply_to } => {
            out.push(DeliveryStep::Post { post_id, body, quote_url, in_reply_to });
        },
        ApDeliveryKind::Announce { post_id, original_ap_object_id } => {
            out.push(DeliveryStep::Announce { post_id, original_ap_object_id });
        },
        ApDeliveryKind::UndoAnnounce { announce_post_id, original_ap_object_id } => {
            out.push(DeliveryStep::UndoAnnounce { announce_post_id, original_ap_object_id });
        },
        ApDeliveryKind::Reaction { post_id, activity_id, content, undo_prev } => {
            match undo_prev {
                Some(prev) => {
                    out.push(
                        DeliveryStep::UndoReaction {
                            post_id,
                            activity_id: prev.activity_id,
                            content: prev.content,
                            best_effort: true,
                        },
                    );
                },
                None => {},
            }
            out.push(DeliveryStep::Reaction { post_id, activity_id, content });
        },
        ApDeliveryKind::UndoReaction { post_id, prev_activity_id, content } => {
            out.push(
                DeliveryStep::UndoReaction {
                    post_id,
                    activity_id: prev_activity_id,
                    content,
                    best_effort: false,
                },
            );
        },
        ApDeliveryKind::UpdateActor => {
            match public_pem {
                Some(p) => {
                    if !p.as_str().is_empty() {
                        out.push(DeliveryStep::UpdateActor { public_pem: p });
                    }
                },
                None => {},
            }
        },
        ApDeliveryKind::DeleteActor => {
            out.push(DeliveryStep::DeleteActor);
        },
    }
    assert(out@ =~= steps_for(kind, public_pem));
    out
}

// ---------------------------------------------------------------------------
// Laws.
// ---------------------------------------------------------------------------
/// A reaction that replaces another one is sent whatever becomes of taking the
/// other one back: only that first step may fail in vain.
pub proof fn law_replaced_reaction_is_taken_back_first(
    post_id: i64,
    activity_id: String,
    content: String,
    prev: PrevApReaction,
    public_pem: Option<String>,
)
    ensures
        ({
            let steps = steps_for(
                ApDeliveryKind::Reaction { post_id, activity_id, content, undo_prev: Some(prev) },
                public_pem,
            );
            &&& steps.len() == 2
            &&& steps[0] == (DeliveryStep::UndoReaction {
                post_id,
                activity_id: prev.activity_id,
                content: prev.content,
                best_effort: true,
            })
            &&& steps[1] == (DeliveryStep::Reaction { post_id, activity_id, content })
        }),
{
}

/// A job of one kind delivers that and nothing else: what it was given is what goes
/// out. A new profile goes out only under a key.
pub proof fn law_each_kind_delivers_itself(kind: ApDeliveryKind, public_pem: Option<String>)
    ensures
        ({
            let steps = steps_for(kind, public_pem);
            match kind {
                ApDeliveryKind::PostToFollowers { post_id, body, quote_url, in_reply_to } => {
                    &&& steps.len() == 1
                    &&& steps[0] matches DeliveryStep::Post {
                        post_id: p,
                        body: b,
                        quote_url: q,
                        in_reply_to: r,
                    }
                    &&& p == post_id
                    &&& b == body
                    &&& q == quote_url
                    &&& r == in_reply_to
                },
                ApDeliveryKind::Announce { post_id, original_ap_object_id } => {
                    &&& steps.len() == 1
                    &&& steps[0] matches DeliveryStep::Announce {
                        post_id: p,
                        original_ap_object_id: o,
                    }
                    &&& p == post_id
                    &&& o == original_ap_object_id
                },
                ApDeliveryKind::UndoAnnounce { announce_post_id, original_ap_object_id } => {
                    &&& steps.len() == 1
                    &&& steps[0] matches DeliveryStep::UndoAnnounce {
                        announce_post_id: p,
                        original_ap_object_id: o,
                    }
                    &&& p == announce_post_id
                    &&& o == original_ap_object_id
                },
                ApDeliveryKind::Reaction { post_id, activity_id, content, undo_prev } => {
                    &&& steps.len() == (if undo_prev is Some {
                        2int
                    } else {
                        1int
                    })
                    &&& steps.last() matches DeliveryStep::Reaction {
                        post_id: p,
                        activity_id: i,
                        content: c,
                    }
                    &&& p == post_id
                    &&& i == activity_id
                    &&& c == content
                },
                ApDeliveryKind::UndoReaction { post_id, prev_activity_id, content } => {
                    &&& steps.len() == 1
                    &&& steps[0] matches DeliveryStep::UndoReaction {
                        post_id: p,
                        activity_id: i,
                        content: c,
                        best_effort,
                    }
                    &&& p == post_id
                    &&& i == prev_activity_id
                    &&& c == content
                    &&& !best_effort
                },
                ApDeliveryKind::UpdateActor => {
                    &&& steps.len() == (if public_pem is Some && public_pem->0@.len() > 0 {
                        1int
                    } else {
                        0int
                    })
                    &&& steps.len() > 0 ==> (steps[0] matches DeliveryStep::UpdateActor {
                        public_pem: p,
                    } && Some(p) == public_pem)
                },
                ApDeliveryKind::DeleteActor => steps.len() == 1 && steps[0] is DeleteActor,
            }
        }),
{
}

} // verus!
