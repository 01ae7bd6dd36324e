//! The records exchanged with the user interface.
use vstd::prelude::*;

verus! {

/// `Some(s@)` for `Some(s)`.
pub open spec fn opt_view(o: Option<String>) -> Option<Seq<char>> {
    match o {
        Some(s) => Some(s@),
        None => None,
    }
}

/// The text held, or the empty text where there is none.
pub open spec fn or_empty(o: Option<Seq<char>>) -> Seq<char> {
    match o {
        Some(s) => s,
        None => Seq::empty(),
    }
}

/// One chat message of the conversation handed in by the caller.
#[derive(Clone, Debug)]
pub struct Message {
    pub role: String,
    pub content: String,
}

/// The options of one completion request (the sampling temperature, which
/// the exchange passes through untouched, stays with the caller).
#[allow(non_snake_case)]
#[derive(Clone, Debug)]
pub struct FetchOption {
    pub proxy: Option<String>,
    pub host: String,
    pub apiKey: String,
    pub model: String,
    pub conversationId: Option<String>,
    pub parentMessageId: Option<String>,
    pub messageId: Option<String>,
    pub action: Option<String>,
    pub timeoutMs: Option<String>,
}

/// One progress record, published for each fragment of the reply.
#[derive(Clone, Debug, PartialEq, Eq)]
pub struct ProgressPayload {
    pub id: u64,
    pub detail: String,
    pub role: String,
    pub finish_reason: String,
    pub conversation_id: Option<String>,
    pub parent_message_id: String,
}

/// What a progress record says, as mathematical values.
pub struct ProgressView {
    pub id: u64,
    pub detail: Seq<char>,
    pub role: Seq<char>,
    pub finish_reason: Seq<char>,
    pub conversation_id: Option<Seq<char>>,
    pub parent_message_id: Seq<char>,
}

impl View for ProgressPayload {
    type V = ProgressView;

    open spec fn view(&self) -> ProgressView {
        ProgressView {
            id: self.id,
            detail: self.detail@,
            role: self.role@,
            finish_reason: self.finish_reason@,
            conversation_id: opt_view(self.conversation_id),
            parent_message_id: self.parent_message_id@,
        }
    }
}

} // verus!
