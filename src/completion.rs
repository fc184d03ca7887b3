use vstd::prelude::*;
use crate::error::{ErrorKind, Flow, PipelineError};
use crate::store::{history_of, ConversationLog};
use crate::timestamp::{parse_timestamp, timestamp_of_text};
use crate::turn::{context_of, models, project_context, Message, Role, Turn, TurnModel};

verus! {

/// A request for a completion on behalf of a user.
#[derive(Clone, Debug)]
pub struct CompletionRequest {
    pub user_id: String,
    pub prompt: String,
}

/// The generated text, addressed to the user it was requested for.
#[derive(Clone, Debug)]
pub struct CompletionResponse {
    pub completion: String,
    pub user_id: String,
}

/// A turn as the conversation store hands it back. A missing attribute makes
/// the record malformed. The timestamp is the RFC 3339 text it was stored under.
#[derive(Clone, Debug)]
pub struct StoredRecord {
    pub timestamp: Option<String>,
    pub role: Option<String>,
    pub content: Option<String>,
}

/// What the completion provider's reply amounts to.
#[derive(Clone, Debug)]
pub enum ProviderReply {
    /// The provider could not be reached; the cause is attached.
    Unreachable(String),
    /// The reply body is not JSON; the cause is attached.
    Malformed(String),
    /// The reply is JSON; the completion text, where the reply holds one.
    Answered(Option<String>),
}

pub open spec fn opt_view(o: Option<String>) -> Option<Seq<char>> {
    match o {
        Some(s) => Some(s@),
        None => None,
    }
}

/// The turn a stored record stands for, or `None` for a malformed record: one
/// without a readable timestamp, without a role of user or assistant, or
/// without content.
pub open spec fn decoded_turn(user_id: Seq<char>, rec: StoredRecord) -> Option<TurnModel> {
    let ts = match rec.timestamp {
        Some(t) => timestamp_of_text(t@),
        None => None,
    };
    match (ts, crate::turn::role_from_text(opt_view(rec.role)), rec.content) {
        (Some(ts), Some(role), Some(c)) => Some(
            TurnModel { user_id, timestamp: ts, role, content: c@ },
        ),
        _ => None,
    }
}

/// Every record decodes.
pub open spec fn all_decode(user_id: Seq<char>, recs: Seq<StoredRecord>) -> bool {
    forall|i: int| 0 <= i < recs.len() ==> (#[trigger] decoded_turn(user_id, recs[i])).is_some()
}

pub fn decode_record(user_id: &String, rec: &StoredRecord) -> (r: Option<Turn>)
    ensures
        match r {
            Some(t) => decoded_turn(user_id@, *rec) == Some(t@),
            None => decoded_turn(user_id@, *rec).is_none(),
        },
{
    let ts = match &rec.timestamp {
        Some(text) => match parse_timestamp(text.as_str()) {
            Some(ts) => ts,
            None => return None,
        },
        None => return None,
    };
    let role = match Role::parse(&rec.role) {
        Some(role) => role,
        None => return None,
    };
    let content = match &rec.content {
        Some(c) => c.clone(),
        None => return None,
    };
    Some(Turn::new(user_id.clone(), ts, role, content))
}

/// Turns the records of a user's history into turns, in the same order. A
/// malformed record fails the whole fetch.
pub fn decode_history(user_id: &String, records: &Vec<StoredRecord>) -> (r: Result<
    Vec<Turn>,
    PipelineError,
>)
    ensures
        r.is_ok() <==> all_decode(user_id@, records@),
        r.is_ok() ==> models(r.unwrap()@).len() == records@.len() && forall|i: int|
            0 <= i < records@.len() ==> Some(#[trigger] models(r.unwrap()@)[i]) == decoded_turn(
                user_id@,
                records@[i],
            ),
        r.is_err() ==> r.unwrap_err().flow == Flow::Completion && r.unwrap_err().kind
            == ErrorKind::HistoryFetch,
{
    let mut out: Vec<Turn> = Vec::new();
    let mut i: usize = 0;
    while i < records.len()
        invariant
            i <= records@.len(),
            out@.len() == i,
            forall|k: int|
                0 <= k < i ==> Some(#[trigger] out@[k]@) == decoded_turn(user_id@, records@[k]),
        decreases records@.len() - i,
    {
        match decode_record(user_id, &records[i]) {
            Some(t) => out.push(t),
            None => {
                proof { reveal_strlit("malformed history record"); }
                return Err(
                    PipelineError::new(
                        Flow::Completion,
                        ErrorKind::HistoryFetch,
                        String::from_str("malformed history record"),
                    ),
                );
            },
        }
        i = i + 1;
    }
    proof {
        assert forall|i: int| 0 <= i < records@.len() implies (#[trigger] decoded_turn(
            user_id@,
            records@[i],
        )).is_some() by {
            assert(Some(out@[i]@) == decoded_turn(user_id@, records@[i]));
        }
    }
    Ok(out)
}

/// Decides what to send to the provider once the history fetch has answered:
/// the history's context, in order, or a history-fetch error, in which case
/// no completion is attempted.
pub fn history_context(fetched: Result<Vec<Turn>, String>) -> (r: Result<
    Vec<Message>,
    PipelineError,
>)
    ensures
        fetched.is_ok() ==> r.is_ok() && r.unwrap()@.map_values(|m: Message| m@) == context_of(
            models(fetched.unwrap()@),
        ),
        fetched.is_err() ==> r.is_err() && r.unwrap_err().flow == Flow::Completion
            && r.unwrap_err().kind == ErrorKind::HistoryFetch && r.unwrap_err().cause
            == fetched.unwrap_err(),
{
    match fetched {
        Ok(turns) => Ok(project_context(&turns)),
        Err(cause) => Err(PipelineError::new(Flow::Completion, ErrorKind::HistoryFetch, cause)),
    }
}

/// The context for a completion on behalf of a user of the in-process log:
/// that user's history, in ascending time order, as role and content.
pub fn log_context(log: &ConversationLog, request: &CompletionRequest) -> (r: Vec<Message>)
    requires
        log.wf(),
    ensures
        r@.map_values(|m: Message| m@) == context_of(history_of(log@, request.user_id@)),
{
    let turns = log.history(&request.user_id);
    project_context(&turns)
}

/// The text of a provider reply and what it means for the flow: the reply's
/// completion (empty where the reply holds none), or a transport or parse
/// error carrying the cause.
pub open spec fn completion_text(reply: ProviderReply) -> Option<Seq<char>> {
    match reply {
        ProviderReply::Answered(Some(t)) => Some(t@),
        ProviderReply::Answered(None) => Some(Seq::<char>::empty()),
        _ => None,
    }
}

/// Decides the outcome of the completion flow from the provider's reply.
pub fn completion_outcome(request: CompletionRequest, reply: ProviderReply) -> (r: Result<
    CompletionResponse,
    PipelineError,
>)
    ensures
        r.is_ok() <==> completion_text(reply).is_some(),
        r.is_ok() ==> r.unwrap().completion@ == completion_text(reply).unwrap()
            && r.unwrap().user_id == request.user_id,
        r.is_err() ==> r.unwrap_err().flow == Flow::Completion,
        reply is Unreachable ==> r.unwrap_err().kind == ErrorKind::CompletionTransport
            && r.unwrap_err().cause == reply->Unreachable_0,
        reply is Malformed ==> r.unwrap_err().kind == ErrorKind::CompletionParse
            && r.unwrap_err().cause == reply->Malformed_0,
{
    match reply {
        ProviderReply::Unreachable(cause) => Err(
            PipelineError::new(Flow::Completion, ErrorKind::CompletionTransport, cause),
        ),
        ProviderReply::Malformed(cause) => Err(
            PipelineError::new(Flow::Completion, ErrorKind::CompletionParse, cause),
        ),
        ProviderReply::Answered(text) => {
            let completion = match text {
                Some(t) => t,
                None => String::new(),
            };
            Ok(CompletionResponse { completion, user_id: request.user_id })
        },
    }
}

/// With no stored turn, the provider is still called, with an empty context,
/// and whatever it answers is the completion: empty text where its reply
/// holds none.
pub proof fn lemma_empty_history_completion(user_id: Seq<char>)
    ensures
        context_of(history_of(Seq::<TurnModel>::empty(), user_id)) == Seq::<
            (Role, Seq<char>),
        >::empty(),
        completion_text(ProviderReply::Answered(None)) == Some(Seq::<char>::empty()),
        forall|t: String| completion_text(ProviderReply::Answered(Some(t))) == Some(t@),
{
    crate::store::lemma_empty_history(user_id);
    assert(context_of(Seq::<TurnModel>::empty()) =~= Seq::<(Role, Seq<char>)>::empty());
}

} // verus!
