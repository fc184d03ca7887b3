use vstd::prelude::*;

verus! {

/// The flow in which a failure happened.
#[derive(Clone, Copy, Debug, PartialEq, Eq, Structural)]
pub enum Flow {
    Ingest,
    Completion,
    Synthesis,
}

/// What went wrong, and at which stage.
#[derive(Clone, Copy, Debug, PartialEq, Eq, Structural)]
pub enum ErrorKind {
    /// The request itself is not acceptable (an empty user id or message).
    InvalidInput,
    /// A required credential or identifier is not configured.
    Configuration,
    StorageWrite,
    HistoryFetch,
    CompletionTransport,
    CompletionParse,
    Synthesis,
    Publish,
}

/// The single terminal failure of a flow: where it happened, what kind it is,
/// and the cause that the failing stage reported.
#[derive(Clone, Debug)]
pub struct PipelineError {
    pub flow: Flow,
    pub kind: ErrorKind,
    pub cause: String,
}

impl PipelineError {
    pub fn new(flow: Flow, kind: ErrorKind, cause: String) -> (r: PipelineError)
        ensures
            r.flow == flow,
            r.kind == kind,
            r.cause == cause,
    {
        PipelineError { flow, kind, cause }
    }
}

/// Reads a setting that a flow cannot run without. An absent or empty value is
/// a configuration error of that flow, raised before any outside call.
pub fn required_setting(flow: Flow, name: &str, value: Option<String>) -> (r: Result<
    String,
    PipelineError,
>)
    ensures
        match value {
            Some(v) => v@.len() > 0 ==> r == Ok::<String, PipelineError>(v),
            None => true,
        },
        r.is_err() <==> (value.is_none() || value.unwrap()@.len() == 0),
        r.is_err() ==> r.unwrap_err().flow == flow && r.unwrap_err().kind
            == ErrorKind::Configuration && r.unwrap_err().cause@ == name@,
{
    match value {
        Some(v) => {
            if v.as_str().is_empty() {
                Err(PipelineError::new(flow, ErrorKind::Configuration, name.to_owned()))
            } else {
                Ok(v)
            }
        },
        None => Err(PipelineError::new(flow, ErrorKind::Configuration, name.to_owned())),
    }
}

} // verus!
