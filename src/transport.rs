//! What the HTTP request carries besides its body: the headers, the proxy
//! and the time limit.
use vstd::prelude::*;
use crate::body::{body_members, build_outbound, default_action, object_text, OutboundBody};
use crate::payload::{opt_view, FetchOption, Message};

verus! {

/// The bound on the whole request, in seconds.
pub const TIMEOUT_SECS: u64 = 600;

/// Everything the transport needs to send one request.
#[derive(Clone, Debug)]
pub struct RequestPlan {
    /// Where the request is posted.
    pub url: String,
    /// The proxy that all traffic goes through, where there is one.
    pub proxy: Option<String>,
    /// The value of the `Authorization` header.
    pub authorization: String,
    /// The value of the `User-Agent` header.
    pub user_agent: String,
    /// The bound on the whole request, in seconds.
    pub timeout_secs: u64,
    /// The fields of the body.
    pub body: OutboundBody,
    /// The JSON text of the body.
    pub body_text: String,
}

/// The `Authorization` header for the credential `api_key`.
pub fn bearer(api_key: &str) -> (r: String)
    ensures
        r@ == "Bearer "@ + api_key@,
{
    let mut r = String::from_str("Bearer ");
    r.append(api_key);
    r
}

/// The `User-Agent` header on the operating system `os`.
pub fn user_agent(os: &str) -> (r: String)
    ensures
        r@ == "ChatGPT-Tauri ("@ + os@ + ")"@,
{
    let mut r = String::from_str("ChatGPT-Tauri (");
    r.append(os);
    r.append(")");
    r
}

/// The proxy to use: none where the option is absent or empty.
pub fn proxy_of(proxy: &Option<String>) -> (r: Option<String>)
    ensures
        r matches Some(p) ==> proxy matches Some(q) && p@ == q@ && q@.len() > 0,
        r is None ==> proxy is None || proxy->Some_0@.len() == 0,
{
    match proxy {
        Some(p) => {
            if p.as_str().unicode_len() > 0 {
                Some(p.clone())
            } else {
                None
            }
        },
        None => None,
    }
}

/// The request for the conversation `messages` with options `option`, sent
/// from the operating system `os`.
pub fn plan_request(messages: &Vec<Message>, option: &FetchOption, os: &str) -> (r: RequestPlan)
    requires
        messages@.len() > 0,
    ensures
        r.url@ == option.host@,
        r.proxy matches Some(p) ==> option.proxy matches Some(q) && p@ == q@ && q@.len() > 0,
        r.proxy is None ==> option.proxy is None || option.proxy->Some_0@.len() == 0,
        r.authorization@ == "Bearer "@ + option.apiKey@,
        r.user_agent@ == "ChatGPT-Tauri ("@ + os@ + ")"@,
        r.timeout_secs == TIMEOUT_SECS,
        r.body.content@ == messages@.last().content@,
        r.body.model@ == option.model@,
        r.body.action@ == match option.action {
            Some(a) => a@,
            None => default_action(),
        },
        opt_view(r.body.conversation_id) == opt_view(option.conversationId),
        option.messageId matches Some(m) ==> r.body.message_id@ == m@,
        option.parentMessageId matches Some(m) ==> r.body.parent_message_id@ == m@,
        r.body_text@ == object_text(body_members(r.body)),
{
    let body = build_outbound(messages, option);
    let body_text = body.text();
    RequestPlan {
        url: option.host.clone(),
        proxy: proxy_of(&option.proxy),
        authorization: bearer(option.apiKey.as_str()),
        user_agent: user_agent(os),
        timeout_secs: TIMEOUT_SECS,
        body,
        body_text,
    }
}

} // verus!
