use vstd::prelude::*;
use crate::completion::{opt_view, ProviderReply};

verus! {

/// Whether a byte string is a JSON document.
pub uninterp spec fn is_json(body: Seq<u8>) -> bool;

/// The text of the JSON string that `pointer` (a JSON pointer) addresses in the
/// JSON document `body`; `None` where the body is not JSON, nothing is at the
/// pointer, or what is there is not a string.
pub uninterp spec fn json_str_at(body: Seq<u8>, pointer: Seq<char>) -> Option<Seq<char>>;

/// Relies on serde_json::from_slice: fails, with serde_json's description of
/// the fault, exactly where the body is not JSON.
#[verifier::external_body]
fn json_fault(body: &[u8]) -> (r: Option<String>)
    ensures
        r.is_none() <==> is_json(body@),
{
    serde_json::from_slice::<serde_json::Value>(body).err().map(|e| e.to_string())
}

/// Relies on serde_json::from_slice, then `Value::pointer` and `Value::as_str`:
/// the string at a JSON pointer of a JSON document.
#[verifier::external_body]
fn json_str(body: &[u8], pointer: &str) -> (r: Option<String>)
    ensures
        opt_view(r) == json_str_at(body@, pointer@),
{
    serde_json::from_slice::<serde_json::Value>(body)
        .ok()
        .and_then(|v| v.pointer(pointer).and_then(|x| x.as_str()).map(|s| s.to_string()))
}

/// Where the provider's reply holds the completion text:
/// `/choices/0/message/content`.
pub open spec fn completion_pointer() -> Seq<char> {
    seq![
        '/', 'c', 'h', 'o', 'i', 'c', 'e', 's', '/', '0', '/', 'm', 'e', 's', 's', 'a', 'g', 'e',
        '/', 'c', 'o', 'n', 't', 'e', 'n', 't',
    ]
}

/// What a reply body means: a parse failure where it is not JSON, else the
/// text at `choices[0].message.content`, where it holds a string there.
pub open spec fn reply_text_matches(body: Seq<u8>, r: ProviderReply) -> bool {
    match r {
        ProviderReply::Malformed(_) => !is_json(body),
        ProviderReply::Answered(text) => is_json(body) && opt_view(text) == json_str_at(
            body,
            completion_pointer(),
        ),
        ProviderReply::Unreachable(_) => false,
    }
}

/// Reads the provider's reply body.
pub fn read_reply(body: &[u8]) -> (r: ProviderReply)
    ensures
        reply_text_matches(body@, r),
{
    match json_fault(body) {
        Some(cause) => ProviderReply::Malformed(cause),
        None => {
            proof { reveal_strlit("/choices/0/message/content"); }
            let pointer = "/choices/0/message/content";
            assert(pointer@ =~= completion_pointer());
            ProviderReply::Answered(json_str(body, pointer))
        },
    }
}

/// Reads what came back from the provider: a transport failure, or a body.
pub fn receive_reply(received: Result<Vec<u8>, String>) -> (r: ProviderReply)
    ensures
        received.is_err() ==> r == ProviderReply::Unreachable(received.unwrap_err()),
        received.is_ok() ==> reply_text_matches(received.unwrap()@, r),
{
    match received {
        Err(cause) => ProviderReply::Unreachable(cause),
        Ok(body) => read_reply(body.as_slice()),
    }
}

} // verus!
