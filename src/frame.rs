//! Reading one server-sent-event frame: the end sentinel, a fragment of the
//! reply, or a line that is not JSON and is passed over.
use vstd::prelude::*;
use crate::json::{is_json, json_str_at, JsonDoc};
use crate::payload::{opt_view, or_empty, ProgressPayload, ProgressView};

verus! {

/// The text of the frame that ends a stream: `[DONE]`.
pub open spec fn done_marker() -> Seq<char> {
    seq!['[', 'D', 'O', 'N', 'E', ']']
}

/// The four fields that a fragment may carry, each absent where the frame
/// does not have it as a string.
#[derive(Clone, Debug)]
pub struct FrameFields {
    pub content: Option<String>,
    pub role: Option<String>,
    pub finish_reason: Option<String>,
    pub conversation_id: Option<String>,
}

/// What a frame is.
#[derive(Clone, Debug)]
pub enum Frame {
    Done,
    Fragment(FrameFields),
    Skip,
}

pub open spec fn content_of(text: Seq<char>) -> Option<Seq<char>> {
    json_str_at(text, "/message/content/parts/0"@)
}

pub open spec fn role_of(text: Seq<char>) -> Option<Seq<char>> {
    json_str_at(text, "/message/author/role"@)
}

pub open spec fn finish_reason_of(text: Seq<char>) -> Option<Seq<char>> {
    json_str_at(text, "/message/metadata/finish_details/type"@)
}

pub open spec fn conversation_id_of(text: Seq<char>) -> Option<Seq<char>> {
    json_str_at(text, "/conversation_id"@)
}

/// The fields read from a frame's text.
pub open spec fn fields_match(f: FrameFields, text: Seq<char>) -> bool {
    &&& opt_view(f.content) == content_of(text)
    &&& opt_view(f.role) == role_of(text)
    &&& opt_view(f.finish_reason) == finish_reason_of(text)
    &&& opt_view(f.conversation_id) == conversation_id_of(text)
}

/// The progress record for a fragment with the given fields: a missing
/// field reads as the empty text, and the conversation id is always given.
pub open spec fn progress_from(
    id: u64,
    message_id: Seq<char>,
    content: Option<Seq<char>>,
    role: Option<Seq<char>>,
    finish_reason: Option<Seq<char>>,
    conversation_id: Option<Seq<char>>,
) -> ProgressView {
    ProgressView {
        id,
        detail: or_empty(content),
        role: or_empty(role),
        finish_reason: or_empty(finish_reason),
        conversation_id: Some(or_empty(conversation_id)),
        parent_message_id: message_id,
    }
}

/// The progress record published for the frame `text`, which is JSON.
pub open spec fn progress_of(id: u64, message_id: Seq<char>, text: Seq<char>) -> ProgressView {
    progress_from(
        id,
        message_id,
        content_of(text),
        role_of(text),
        finish_reason_of(text),
        conversation_id_of(text),
    )
}

/// Whether `data` is exactly the end sentinel.
pub fn is_done(data: &str) -> (r: bool)
    ensures
        r == (data@ == done_marker()),
{
    let n = data.unicode_len();
    if n != 6 {
        return false;
    }
    let r = data.get_char(0) == '[' && data.get_char(1) == 'D' && data.get_char(2) == 'O'
        && data.get_char(3) == 'N' && data.get_char(4) == 'E' && data.get_char(5) == ']';
    assert(r ==> data@ =~= done_marker());
    r
}

fn take_or_empty(o: Option<String>) -> (r: String)
    ensures
        r@ == or_empty(opt_view(o)),
{
    match o {
        Some(s) => s,
        None => String::new(),
    }
}

/// Reads one frame's data text.
pub fn parse_frame(data: &str) -> (r: Frame)
    ensures
        (r is Done) == (data@ == done_marker()),
        (r is Skip) == (data@ != done_marker() && !is_json(data@)),
        r matches Frame::Fragment(f) ==> fields_match(f, data@),
{
    if is_done(data) {
        return Frame::Done;
    }
    match JsonDoc::parse(data) {
        None => Frame::Skip,
        Some(doc) => Frame::Fragment(
            FrameFields {
                content: doc.str_at("/message/content/parts/0"),
                role: doc.str_at("/message/author/role"),
                finish_reason: doc.str_at("/message/metadata/finish_details/type"),
                conversation_id: doc.str_at("/conversation_id"),
            },
        ),
    }
}

/// The progress record for a fragment of request `id`, whose outgoing
/// message had the id `message_id`.
pub fn progress_payload(id: u64, message_id: &String, fields: FrameFields) -> (r: ProgressPayload)
    ensures
        r@ == progress_from(
            id,
            message_id@,
            opt_view(fields.content),
            opt_view(fields.role),
            opt_view(fields.finish_reason),
            opt_view(fields.conversation_id),
        ),
{
    ProgressPayload {
        id,
        detail: take_or_empty(fields.content),
        role: take_or_empty(fields.role),
        finish_reason: take_or_empty(fields.finish_reason),
        conversation_id: Some(take_or_empty(fields.conversation_id)),
        parent_message_id: message_id.clone(),
    }
}

} // verus!
