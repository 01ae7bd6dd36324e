//! The request body sent to the service: only the last message goes out,
//! as new user content, with its message id, its parent's id and, where the
//! caller continues a conversation, the conversation id.
use vstd::prelude::*;
use crate::json::{json_quoted, quote};
use crate::payload::{opt_view, FetchOption, Message};

verus! {

/// Relies on uuid::Uuid::new_v4 and its `Display`: a fresh random id in
/// hyphenated form. Nothing is promised of its value.
#[verifier::external_body]
fn fresh_id() -> (r: String) {
    uuid::Uuid::new_v4().to_string()
}

/// The fields of the body of one request.
#[derive(Clone, Debug)]
pub struct OutboundBody {
    pub action: String,
    pub message_id: String,
    pub content: String,
    pub model: String,
    pub parent_message_id: String,
    pub conversation_id: Option<String>,
}

/// The action taken where the caller names none: `next`.
pub open spec fn default_action() -> Seq<char> {
    seq!['n', 'e', 'x', 't']
}

/// One member of a JSON object: its key, then the JSON text of its value.
pub open spec fn member_text(m: (Seq<char>, Seq<char>)) -> Seq<char> {
    json_quoted(m.0) + ":"@ + m.1
}

/// The members written one after another, separated by commas.
pub open spec fn members_text(ms: Seq<(Seq<char>, Seq<char>)>) -> Seq<char>
    decreases ms.len(),
{
    if ms.len() == 0 {
        Seq::empty()
    } else if ms.len() == 1 {
        member_text(ms[0])
    } else {
        members_text(ms.drop_last()) + ","@ + member_text(ms.last())
    }
}

/// The JSON object with members `ms`, in that order.
pub open spec fn object_text(ms: Seq<(Seq<char>, Seq<char>)>) -> Seq<char> {
    "{"@ + members_text(ms) + "}"@
}

/// The JSON array that holds the one outgoing message.
pub open spec fn messages_text(b: OutboundBody) -> Seq<char> {
    "["@ + object_text(
        seq![
            ("id"@, json_quoted(b.message_id@)),
            ("role"@, json_quoted("user"@)),
            ("content"@, object_text(
                seq![
                    ("content_type"@, json_quoted("text"@)),
                    ("parts"@, "["@ + json_quoted(b.content@) + "]"@),
                ],
            )),
        ],
    ) + "]"@
}

/// The members of the body, in the order they are written; the
/// conversation id is a member only where there is one.
pub open spec fn body_members(b: OutboundBody) -> Seq<(Seq<char>, Seq<char>)> {
    let base = seq![
        ("action"@, json_quoted(b.action@)),
        ("messages"@, messages_text(b)),
        ("model"@, json_quoted(b.model@)),
        ("parent_message_id"@, json_quoted(b.parent_message_id@)),
    ];
    match b.conversation_id {
        Some(c) => base.push(("conversation_id"@, json_quoted(c@))),
        None => base,
    }
}

pub open spec fn member_views(ms: Seq<(String, String)>) -> Seq<(Seq<char>, Seq<char>)> {
    ms.map_values(|m: (String, String)| (m.0@, m.1@))
}

/// The JSON object text of members given as (key, value text) pairs.
fn write_object(members: &Vec<(String, String)>) -> (r: String)
    ensures
        r@ == object_text(member_views(members@)),
{
    let ghost ms = member_views(members@);
    let mut out = String::from_str("{");
    let mut i: usize = 0;
    while i < members.len()
        invariant
            i <= members.len(),
            ms == member_views(members@),
            out@ == "{"@ + members_text(ms.take(i as int)),
        decreases members.len() - i,
    {
        let ghost before = out@;
        if i > 0 {
            out.append(",");
        }
        let key = quote(members[i].0.as_str());
        out.append(key.as_str());
        out.append(":");
        out.append(members[i].1.as_str());
        proof {
            let m = ms[i as int];
            assert(m == (members@[i as int].0@, members@[i as int].1@));
            assert(ms.take(i + 1).drop_last() =~= ms.take(i as int));
            assert(ms.take(i + 1).last() == m);
            if i == 0 {
                assert(ms.take(0) =~= Seq::<(Seq<char>, Seq<char>)>::empty());
                assert(out@ =~= "{"@ + member_text(m));
            } else {
                assert(out@ =~= "{"@ + (members_text(ms.take(i as int)) + ","@ + member_text(m)));
            }
        }
        i += 1;
    }
    proof {
        assert(ms.take(i as int) =~= ms);
    }
    out.append("}");
    out
}

fn member(key: &str, value: String) -> (r: (String, String))
    ensures
        r.0@ == key@,
        r.1@ == value@,
{
    (String::from_str(key), value)
}

fn bracketed(item: String) -> (r: String)
    ensures
        r@ == "["@ + item@ + "]"@,
{
    let mut out = String::from_str("[");
    out.append(item.as_str());
    out.append("]");
    out
}

impl OutboundBody {
    /// The JSON text of the body.
    pub fn text(&self) -> (r: String)
        ensures
            r@ == object_text(body_members(*self)),
    {
        let mut content: Vec<(String, String)> = Vec::new();
        content.push(member("content_type", quote("text")));
        content.push(member("parts", bracketed(quote(self.content.as_str()))));
        let mut message: Vec<(String, String)> = Vec::new();
        message.push(member("id", quote(self.message_id.as_str())));
        message.push(member("role", quote("user")));
        message.push(member("content", write_object(&content)));
        let mut members: Vec<(String, String)> = Vec::new();
        members.push(member("action", quote(self.action.as_str())));
        members.push(member("messages", bracketed(write_object(&message))));
        members.push(member("model", quote(self.model.as_str())));
        members.push(member("parent_message_id", quote(self.parent_message_id.as_str())));
        match &self.conversation_id {
            Some(c) => members.push(member("conversation_id", quote(c.as_str()))),
            None => {},
        }
        proof {
            assert(member_views(content@) =~= seq![
                ("content_type"@, json_quoted("text"@)),
                ("parts"@, "["@ + json_quoted(self.content@) + "]"@),
            ]);
            assert(member_views(message@) =~= seq![
                ("id"@, json_quoted(self.message_id@)),
                ("role"@, json_quoted("user"@)),
                ("content"@, object_text(member_views(content@))),
            ]);
            assert(member_views(members@) =~= body_members(*self));
        }
        write_object(&members)
    }
}

/// The body for the conversation `messages`, whose last message goes out.
/// A message id or parent id that the options leave out is taken from
/// `fresh_message_id` or `fresh_parent_id`.
pub fn outbound_body(
    messages: &Vec<Message>,
    option: &FetchOption,
    fresh_message_id: String,
    fresh_parent_id: String,
) -> (r: OutboundBody)
    requires
        messages@.len() > 0,
    ensures
        r.content@ == messages@.last().content@,
        r.model@ == option.model@,
        r.action@ == match option.action {
            Some(a) => a@,
            None => default_action(),
        },
        r.message_id@ == match option.messageId {
            Some(m) => m@,
            None => fresh_message_id@,
        },
        r.parent_message_id@ == match option.parentMessageId {
            Some(m) => m@,
            None => fresh_parent_id@,
        },
        opt_view(r.conversation_id) == opt_view(option.conversationId),
{
    let message_id = match &option.messageId {
        Some(m) => m.clone(),
        None => fresh_message_id,
    };
    let parent_message_id = match &option.parentMessageId {
        Some(m) => m.clone(),
        None => fresh_parent_id,
    };
    let action = match &option.action {
        Some(a) => a.clone(),
        None => {
            proof {
                reveal_strlit("next");
            }
            let a = String::from_str("next");
            assert(a@ =~= default_action());
            a
        },
    };
    let conversation_id = match &option.conversationId {
        Some(c) => Some(c.clone()),
        None => None,
    };
    OutboundBody {
        action,
        message_id,
        content: messages[messages.len() - 1].content.clone(),
        model: option.model.clone(),
        parent_message_id,
        conversation_id,
    }
}

/// The body for the conversation `messages`, with a fresh random id for a
/// message id or parent id that the options leave out.
pub fn build_outbound(messages: &Vec<Message>, option: &FetchOption) -> (r: OutboundBody)
    requires
        messages@.len() > 0,
    ensures
        r.content@ == messages@.last().content@,
        r.model@ == option.model@,
        r.action@ == match option.action {
            Some(a) => a@,
            None => default_action(),
        },
        option.messageId matches Some(m) ==> r.message_id@ == m@,
        option.parentMessageId matches Some(m) ==> r.parent_message_id@ == m@,
        opt_view(r.conversation_id) == opt_view(option.conversationId),
{
    let fresh_message_id = match &option.messageId {
        Some(_) => String::new(),
        None => fresh_id(),
    };
    let fresh_parent_id = match &option.parentMessageId {
        Some(_) => String::new(),
        None => fresh_id(),
    };
    outbound_body(messages, option, fresh_message_id, fresh_parent_id)
}

/// Without a conversation id the body has no `conversation_id` member at
/// all; with one, it is the last member.
pub proof fn lemma_conversation_id_member(b: OutboundBody)
    ensures
        b.conversation_id is None ==> forall|i: int|
            0 <= i < body_members(b).len() ==> (#[trigger] body_members(b)[i]).0
                != "conversation_id"@,
        b.conversation_id matches Some(c) ==> body_members(b).last() == (
            "conversation_id"@,
            json_quoted(c@),
        ),
{
    reveal_strlit("conversation_id");
    reveal_strlit("action");
    reveal_strlit("messages");
    reveal_strlit("model");
    reveal_strlit("parent_message_id");
    if b.conversation_id is None {
        assert forall|i: int| 0 <= i < body_members(b).len() implies (#[trigger] body_members(
            b,
        )[i]).0 != "conversation_id"@ by {
            assert(body_members(b)[i].0.len() != "conversation_id"@.len() || body_members(b)[i].0[0]
                != "conversation_id"@[0]);
        }
    }
}

} // verus!
