//! Sending messages to accounts of the AT network.

use crate::json;
use crate::json::{Json, JsonModel};
use crate::text;
use vstd::prelude::*;

verus! {

/// The chat service.
pub const CHAT_SERVICE_HOST: &'static str = "https://api.bsky.chat";

/// For whom requests to the chat service are signed.
pub const CHAT_SERVICE_AUD: &'static str = "did:web:api.bsky.chat";

/// A message that is to be sent.
pub struct OutgoingMessage {
    pub body: String,
    pub thread_root_post_id: i64,
    pub sender_did: String,
    pub sender_pem: String,
}

/// The message, where all that sending it takes is there.
pub fn sendable_message(
    body: String,
    thread_root_post_id: Option<i64>,
    sender_did: Option<String>,
    sender_pem: Option<String>,
) -> (r: Option<OutgoingMessage>)
    ensures
        r == (match (thread_root_post_id, sender_did, sender_pem) {
            (Some(root), Some(did), Some(pem)) => Some(
                OutgoingMessage {
                    body,
                    thread_root_post_id: root,
                    sender_did: did,
                    sender_pem: pem,
                },
            ),
            _ => None,
        }),
{
    match (thread_root_post_id, sender_did, sender_pem) {
        (Some(root), Some(did), Some(pem)) => Some(
            OutgoingMessage {
                body,
                thread_root_post_id: root,
                sender_did: did,
                sender_pem: pem,
            },
        ),
        _ => None,
    }
}

/// The body of the request that sends a message.
pub open spec fn message_body(convo_id: Seq<char>, body: Seq<char>) -> JsonModel {
    JsonModel::Obj(
        seq![
            json::member_of("convoId"@, JsonModel::Str(convo_id)),
            json::member_of(
                "message"@,
                JsonModel::Obj(seq![json::member_of("text"@, JsonModel::Str(body))]),
            ),
        ],
    )
}

/// The body of the request that sends a message.
pub fn make_message_body(convo_id: &str, body: &str) -> (r: Json)
    ensures
        r@ == message_body(convo_id@, body@),
{
    let inner: Vec<json::Member> = vec![json::member("text", json::text_json(body))];
    let ghost shown = message_body(convo_id@, body@)->Obj_0;
    assert(json::member_models(inner@) =~= shown[1].value->Obj_0);
    let ms: Vec<json::Member> = vec![
        json::member("convoId", json::text_json(convo_id)),
        json::member("message", json::object(inner)),
    ];
    assert(json::member_models(ms@) =~= shown);
    json::object(ms)
}

/// The address at which the conversation of two accounts is asked for.
pub fn convo_url(sender_did: &str, peer_did: &str) -> (r: String)
    ensures
        r@ == CHAT_SERVICE_HOST@ + "/xrpc/chat.bsky.convo.getConvoForMembers?members="@
            + sender_did@ + "&members="@ + peer_did@,
{
    text::cat5(
        CHAT_SERVICE_HOST,
        "/xrpc/chat.bsky.convo.getConvoForMembers?members=",
        sender_did,
        "&members=",
        peer_did,
    )
}

/// The conversation that the chat service names, or why it names none.
pub open spec fn convo_id(answer: JsonModel, body_text: Seq<char>) -> Result<Seq<char>, Seq<char>> {
    match answer.at("convo"@).text_at("id"@) {
        Some(id) => Ok(id),
        None => Err("getConvoForMembers応答にconvo.idが無い: "@ + body_text),
    }
}

/// The conversation that the chat service names. `body_text` is the answer as it
/// came.
pub fn read_convo_id(answer: &Json, body_text: &str) -> (r: Result<String, String>)
    ensures
        (match r {
            Ok(id) => Ok(id@),
            Err(e) => Err(e@),
        }) == convo_id(answer@, body_text@),
{
    match answer.get("convo") {
        Some(c) => match c.text_at("id") {
            Some(id) => {
                return Ok(id.to_owned());
            },
            None => {},
        },
        None => {},
    }
    Err(text::cat("getConvoForMembers応答にconvo.idが無い: ", body_text))
}

/// What came of a request.
#[derive(Debug, Clone, Copy, PartialEq, Eq, Structural)]
pub enum SendOutcome {
    Sent,
    /// The service will not take it; asking again would not help.
    Rejected,
}

/// What came of a request, by the status of the answer. Anything but success and
/// rejection is an error, after which the request is made again.
pub open spec fn send_outcome(
    method: Seq<char>,
    status: u16,
    status_text: Seq<char>,
    body_text: Seq<char>,
) -> Result<SendOutcome, Seq<char>> {
    if 200 <= status < 300 {
        Ok(SendOutcome::Sent)
    } else if status == 400 {
        Ok(SendOutcome::Rejected)
    } else {
        Err(method + "失敗 status="@ + status_text + " body="@ + body_text)
    }
}

/// What came of a request. `status_text` is how the status reads.
pub fn judge_reply(method: &str, status: u16, status_text: &str, body_text: &str) -> (r: Result<
    SendOutcome,
    String,
>)
    ensures
        (match r {
            Ok(o) => Ok(o),
            Err(e) => Err(e@),
        }) == send_outcome(method@, status, status_text@, body_text@),
{
    if 200 <= status && status < 300 {
        Ok(SendOutcome::Sent)
    } else if status == 400 {
        Ok(SendOutcome::Rejected)
    } else {
        Err(text::cat5(method, "失敗 status=", status_text, " body=", body_text))
    }
}

// ---------------------------------------------------------------------------
// Laws.
// ---------------------------------------------------------------------------

/// A message is sent into its conversation with its text.
pub proof fn law_message_carries_its_text(convo: Seq<char>, body: Seq<char>)
    ensures
        message_body(convo, body).text_at("convoId"@) == Some(convo),
        message_body(convo, body).at("message"@).text_at("text"@) == Some(body),
{
    reveal_strlit("convoId");
    reveal_strlit("message");
    reveal_strlit("text");
    assert("convoId"@.len() == 7);
    assert("message"@.len() == 7);
    assert("text"@.len() == 4);
    assert("convoId"@[0] != "message"@[0]);
    reveal_with_fuel(json::first_member, 3);
}

/// The conversation is the one that the answer names; an answer that names none is
/// refused.
pub proof fn law_conversation_is_read(answer: JsonModel, body_text: Seq<char>, id: Seq<char>)
    ensures
        answer.at("convo"@).text_at("id"@) == Some(id) ==> convo_id(answer, body_text) == Ok::<
            Seq<char>,
            Seq<char>,
        >(id),
        answer.at("convo"@).text_at("id"@) is None ==> convo_id(answer, body_text) is Err,
{
}

/// A message is sent where the service says so, given up where the service calls it
/// wrong, and tried again otherwise.
pub proof fn law_reply_decides(
    method: Seq<char>,
    status: u16,
    status_text: Seq<char>,
    body_text: Seq<char>,
)
    ensures
        send_outcome(method, status, status_text, body_text) == Ok::<SendOutcome, Seq<char>>(
            SendOutcome::Sent,
        ) <==> status / 100 == 2,
        send_outcome(method, status, status_text, body_text) == Ok::<SendOutcome, Seq<char>>(
            SendOutcome::Rejected,
        ) <==> status == 400,
        send_outcome(method, status, status_text, body_text) is Err <==> status / 100 != 2
            && status != 400,
{
}

} // verus!
