//! Reactions to messages on the AT network.

use crate::json;
use crate::json::{Json, JsonModel};
use crate::text;
use vstd::prelude::*;

verus! {

/// What is done with a message.
pub enum MessageAction {
    AddReaction(String),
    RemoveReaction(String),
    Hide,
}

impl MessageAction {
    /// The method of the chat service that does it.
    pub open spec fn method(self) -> Seq<char> {
        match self {
            MessageAction::AddReaction(_) => "chat.bsky.convo.addReaction"@,
            MessageAction::RemoveReaction(_) => "chat.bsky.convo.removeReaction"@,
            MessageAction::Hide => "chat.bsky.convo.deleteMessageForSelf"@,
        }
    }

    /// The method of the chat service that does it.
    pub fn xrpc_path(&self) -> (r: &'static str)
        ensures
            r@ == self.method(),
    {
        match self {
            MessageAction::AddReaction(_) => "chat.bsky.convo.addReaction",
            MessageAction::RemoveReaction(_) => "chat.bsky.convo.removeReaction",
            MessageAction::Hide => "chat.bsky.convo.deleteMessageForSelf",
        }
    }

    /// The reaction, where there is one.
    pub open spec fn value(self) -> Option<Seq<char>> {
        match self {
            MessageAction::AddReaction(v) => Some(v@),
            MessageAction::RemoveReaction(v) => Some(v@),
            MessageAction::Hide => None,
        }
    }
}

/// The body of the request: the message, and the reaction where there is one.
pub open spec fn action_body(action: MessageAction, convo_id: Seq<char>, message_id: Seq<char>) -> JsonModel {
    JsonModel::Obj(
        seq![
            json::member_of("convoId"@, JsonModel::Str(convo_id)),
            json::member_of("messageId"@, JsonModel::Str(message_id)),
        ] + (match action.value() {
            Some(v) => seq![json::member_of("value"@, JsonModel::Str(v))],
            None => seq![],
        }),
    )
}

/// The body of the request; none where the message has not arrived at the chat
/// service yet.
pub fn send_action(action: &MessageAction, convo_id: &str, message_id: Option<&str>) -> (r: Option<
    Json,
>)
    ensures
        json::opt_model(r) == (match text::str_view(message_id) {
            Some(m) => Some(action_body(*action, convo_id@, m)),
            None => None,
        }),
{
    let m: &str = match message_id {
        Some(m) => m,
        None => {
            return None;
        },
    };
    let mut ms: Vec<json::Member> = vec![
        json::member("convoId", json::text_json(convo_id)),
        json::member("messageId", json::text_json(m)),
    ];
    match action {
        MessageAction::AddReaction(v) => {
            ms.push(json::member("value", json::text_json(v.as_str())));
        },
        MessageAction::RemoveReaction(v) => {
            ms.push(json::member("value", json::text_json(v.as_str())));
        },
        MessageAction::Hide => {},
    }
    assert(json::member_models(ms@) =~= action_body(*action, convo_id@, m@)->Obj_0);
    Some(json::object(ms))
}

// ---------------------------------------------------------------------------
// Laws.
// ---------------------------------------------------------------------------

/// Each action has a method of its own, and its body names the conversation and the
/// message; a reaction is sent with its emoji.
pub proof fn law_action_names_its_message(
    action: MessageAction,
    convo_id: Seq<char>,
    message_id: Seq<char>,
)
    ensures
        ({
            let b = action_body(action, convo_id, message_id);
            &&& b.text_at("convoId"@) == Some(convo_id)
            &&& b.text_at("messageId"@) == Some(message_id)
            &&& match action {
                MessageAction::AddReaction(v) => b.text_at("value"@) == Some(v@)
                    && action.method() == "chat.bsky.convo.addReaction"@,
                MessageAction::RemoveReaction(v) => b.text_at("value"@) == Some(v@)
                    && action.method() == "chat.bsky.convo.removeReaction"@,
                MessageAction::Hide => b.member("value"@) is None && action.method()
                    == "chat.bsky.convo.deleteMessageForSelf"@,
            }
        }),
{
    reveal_strlit("convoId");
    reveal_strlit("messageId");
    reveal_strlit("value");
    assert("convoId"@.len() == 7);
    assert("messageId"@.len() == 9);
    assert("value"@.len() == 5);
    reveal_with_fuel(json::first_member, 4);
}

} // verus!
