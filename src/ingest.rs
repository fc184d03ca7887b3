use vstd::prelude::*;
use crate::error::{ErrorKind, Flow, PipelineError};
use crate::store::{has_key, inserted, later_than_all, ConversationLog};
use crate::timestamp::{parse_timestamp, stored_text_of, timestamp_of_text, timestamp_text};
use crate::turn::{role_text, Role, Turn, TurnModel};

verus! {

/// A message to record: who sent it and what it says. The same record is the
/// confirmation that ingest hands back.
#[derive(Clone, Debug)]
pub struct IngestRequest {
    pub user_id: String,
    pub message: String,
}

/// Ingest accepts only a non-empty user id and a non-empty message.
pub open spec fn ingest_valid(user_id: Seq<char>, message: Seq<char>) -> bool {
    user_id.len() > 0 && message.len() > 0
}

/// The turn that ingest stores for a message received at `timestamp`.
pub open spec fn user_turn(user_id: Seq<char>, timestamp: u64, message: Seq<char>) -> TurnModel {
    TurnModel { user_id, timestamp, role: Role::User, content: message }
}

/// The timestamp for a new turn of a user whose latest turn is at `latest`:
/// `now` where the clock has moved past it, else one microsecond after it, so
/// that a user's turns stay in strictly increasing time order even on a coarse
/// clock. `None` where no later timestamp exists.
pub open spec fn fresh_after(now: u64, latest: Option<u64>) -> Option<u64> {
    match latest {
        None => Some(now),
        Some(l) => if now > l {
            Some(now)
        } else if l < u64::MAX {
            Some((l + 1) as u64)
        } else {
            None
        },
    }
}

pub fn fresh_timestamp(now: u64, latest: Option<u64>) -> (r: Option<u64>)
    ensures
        r == fresh_after(now, latest),
{
    match latest {
        None => Some(now),
        Some(l) => {
            if now > l {
                Some(now)
            } else if l < u64::MAX {
                Some(l + 1)
            } else {
                None
            }
        },
    }
}

/// Checks a request before any outside call is made.
pub fn validate_ingest(request: &IngestRequest) -> (r: Result<(), PipelineError>)
    ensures
        r.is_ok() <==> ingest_valid(request.user_id@, request.message@),
        r.is_err() ==> r.unwrap_err().flow == Flow::Ingest && r.unwrap_err().kind
            == ErrorKind::InvalidInput,
{
    if request.user_id.as_str().is_empty() {
        proof { reveal_strlit("user id is empty"); }
        return Err(
            PipelineError::new(
                Flow::Ingest,
                ErrorKind::InvalidInput,
                String::from_str("user id is empty"),
            ),
        );
    }
    if request.message.as_str().is_empty() {
        proof { reveal_strlit("message is empty"); }
        return Err(
            PipelineError::new(
                Flow::Ingest,
                ErrorKind::InvalidInput,
                String::from_str("message is empty"),
            ),
        );
    }
    Ok(())
}

/// Reads the timestamp text of a user's latest stored turn, as the store
/// hands it back (`None` for a user with no turn). A text that names no
/// instant fails the write.
pub fn latest_from_store(text: Option<String>) -> (r: Result<Option<u64>, PipelineError>)
    ensures
        match text {
            None => r == Ok::<Option<u64>, PipelineError>(None),
            Some(t) => match timestamp_of_text(t@) {
                Some(ts) => r == Ok::<Option<u64>, PipelineError>(Some(ts)),
                None => r.is_err() && r.unwrap_err().flow == Flow::Ingest && r.unwrap_err().kind
                    == ErrorKind::StorageWrite,
            },
        },
{
    match text {
        None => Ok(None),
        Some(t) => match parse_timestamp(t.as_str()) {
            Some(ts) => Ok(Some(ts)),
            None => {
                proof { reveal_strlit("unreadable timestamp of the latest turn"); }
                Err(
                    PipelineError::new(
                        Flow::Ingest,
                        ErrorKind::StorageWrite,
                        String::from_str("unreadable timestamp of the latest turn"),
                    ),
                )
            },
        },
    }
}

/// Checks a request and builds the user turn that must be appended for it,
/// timed after the user's latest turn (`latest`). Fails with a storage-write
/// error where no later timestamp exists.
pub fn ingest_turn(request: &IngestRequest, now: u64, latest: Option<u64>) -> (r: Result<
    Turn,
    PipelineError,
>)
    ensures
        r.is_ok() <==> ingest_valid(request.user_id@, request.message@) && fresh_after(
            now,
            latest,
        ).is_some(),
        r.is_ok() ==> r.unwrap()@ == user_turn(
            request.user_id@,
            fresh_after(now, latest).unwrap(),
            request.message@,
        ),
        r.is_err() ==> r.unwrap_err().flow == Flow::Ingest,
        r.is_err() ==> (r.unwrap_err().kind == ErrorKind::InvalidInput <==> !ingest_valid(
            request.user_id@,
            request.message@,
        )),
        r.is_err() && ingest_valid(request.user_id@, request.message@) ==> r.unwrap_err().kind
            == ErrorKind::StorageWrite,
{
    match validate_ingest(request) {
        Ok(()) => {},
        Err(e) => return Err(e),
    }
    match fresh_timestamp(now, latest) {
        Some(ts) => Ok(Turn::new(request.user_id.clone(), ts, Role::User, request.message.clone())),
        None => {
            proof { reveal_strlit("no timestamp after the latest turn"); }
            Err(
                PipelineError::new(
                    Flow::Ingest,
                    ErrorKind::StorageWrite,
                    String::from_str("no timestamp after the latest turn"),
                ),
            )
        },
    }
}

/// A turn as the conversation store keeps it: text attributes, the timestamp
/// as the RFC 3339 text that the store sorts by.
#[derive(Clone, Debug)]
pub struct TurnRecord {
    pub user_id: String,
    pub timestamp: String,
    pub role: String,
    pub content: String,
}

/// The record under which a turn is written. A timestamp with no calendar
/// text cannot be written, which fails the write.
pub fn encode_turn(turn: &Turn) -> (r: Result<TurnRecord, PipelineError>)
    ensures
        r.is_ok() <==> stored_text_of(turn.timestamp).is_some(),
        r.is_ok() ==> r.unwrap().user_id@ == turn.user_id@ && Some(r.unwrap().timestamp@)
            == stored_text_of(turn.timestamp) && r.unwrap().role@ == role_text(turn.role)
            && r.unwrap().content@ == turn.content@,
        r.is_err() ==> r.unwrap_err().flow == Flow::Ingest && r.unwrap_err().kind
            == ErrorKind::StorageWrite,
{
    match timestamp_text(turn.timestamp) {
        Some(timestamp) => Ok(
            TurnRecord {
                user_id: turn.user_id.clone(),
                timestamp,
                role: turn.role.name(),
                content: turn.content.clone(),
            },
        ),
        None => {
            proof { reveal_strlit("timestamp outside the calendar"); }
            Err(
                PipelineError::new(
                    Flow::Ingest,
                    ErrorKind::StorageWrite,
                    String::from_str("timestamp outside the calendar"),
                ),
            )
        },
    }
}

/// Decides the outcome of ingest from the store's answer to the append: the
/// request itself on success, a storage-write error carrying the store's
/// cause otherwise.
pub fn ingest_outcome(request: IngestRequest, appended: Result<(), String>) -> (r: Result<
    IngestRequest,
    PipelineError,
>)
    ensures
        appended.is_ok() ==> r == Ok::<IngestRequest, PipelineError>(request),
        appended.is_err() ==> r.is_err() && r.unwrap_err().flow == Flow::Ingest
            && r.unwrap_err().kind == ErrorKind::StorageWrite && r.unwrap_err().cause
            == appended.unwrap_err(),
{
    match appended {
        Ok(()) => Ok(request),
        Err(cause) => Err(PipelineError::new(Flow::Ingest, ErrorKind::StorageWrite, cause)),
    }
}

/// Ingests a message into the log: exactly one user turn is appended, timed
/// at or after `now` and after every earlier turn of the user, and the request
/// is handed back unchanged; or nothing is stored and the failure is reported.
pub fn ingest(log: &mut ConversationLog, request: IngestRequest, now: u64) -> (r: Result<
    IngestRequest,
    PipelineError,
>)
    requires
        old(log).wf(),
    ensures
        final(log).wf(),
        !ingest_valid(request.user_id@, request.message@) ==> final(log)@ == old(log)@
            && r.is_err() && r.unwrap_err().kind == ErrorKind::InvalidInput,
        ingest_valid(request.user_id@, request.message@) && has_key(
            old(log)@,
            request.user_id@,
            u64::MAX,
        ) ==> final(log)@ == old(log)@ && r.is_err() && r.unwrap_err().kind
            == ErrorKind::StorageWrite,
        ingest_valid(request.user_id@, request.message@) && !has_key(
            old(log)@,
            request.user_id@,
            u64::MAX,
        ) ==> r == Ok::<IngestRequest, PipelineError>(request) && exists|ts: u64|
            ts >= now && later_than_all(old(log)@, request.user_id@, ts) && inserted(
                old(log)@,
                final(log)@,
                #[trigger] user_turn(request.user_id@, ts, request.message@),
            ),
        r.is_err() ==> r.unwrap_err().flow == Flow::Ingest,
{
    let latest = log.latest_timestamp(&request.user_id);
    let turn = match ingest_turn(&request, now, latest) {
        Ok(t) => t,
        Err(e) => return Err(e),
    };
    let ghost ts = turn.timestamp;
    proof {
        assert(later_than_all(log@, request.user_id@, ts));
        if has_key(log@, request.user_id@, ts) {
            let i = choose|i: int|
                0 <= i < log@.len() && log@[i].user_id == request.user_id@ && log@[i].timestamp
                    == ts;
        }
    }
    match log.append(turn) {
        Ok(()) => Ok(request),
        Err(e) => Err(e),
    }
}

} // verus!
