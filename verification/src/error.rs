//! The library's error type.
use crate::text::{chars_to_string, push_str, starts_with, str_chars};
use crate::primitives::json_error_text;
use vstd::prelude::*;

verus! {

/// What can go wrong in the swarm kernel.
#[derive(Debug)]
pub enum HiveError {
    SignatureError(String),
    SerializationError(serde_json::Error),
    TaskExecutionError(String),
    EscrowError(String),
    AgentError(String),
    StateError(String),
    TimeoutError(String),
}

/// An error, with its message as a character sequence.
pub enum HiveErrorView {
    Signature(Seq<char>),
    Serialization,
    TaskExecution(Seq<char>),
    Escrow(Seq<char>),
    Agent(Seq<char>),
    State(Seq<char>),
    Timeout(Seq<char>),
}

impl View for HiveError {
    type V = HiveErrorView;

    open spec fn view(&self) -> HiveErrorView {
        match self {
            HiveError::SignatureError(m) => HiveErrorView::Signature(m@),
            HiveError::SerializationError(_) => HiveErrorView::Serialization,
            HiveError::TaskExecutionError(m) => HiveErrorView::TaskExecution(m@),
            HiveError::EscrowError(m) => HiveErrorView::Escrow(m@),
            HiveError::AgentError(m) => HiveErrorView::Agent(m@),
            HiveError::StateError(m) => HiveErrorView::State(m@),
            HiveError::TimeoutError(m) => HiveErrorView::Timeout(m@),
        }
    }
}

impl From<serde_json::Error> for HiveError {
    /// A JSON error, as a serialization error.
    fn from(e: serde_json::Error) -> (r: HiveError) {
        HiveError::SerializationError(e)
    }
}

impl vstd::std_specs::convert::FromSpecImpl<serde_json::Error> for HiveError {
    open spec fn obeys_from_spec() -> bool {
        true
    }

    open spec fn from_spec(e: serde_json::Error) -> HiveError {
        HiveError::SerializationError(e)
    }
}

/// A result, with its error as a view.
pub open spec fn result_view<T>(r: Result<T, HiveError>) -> Result<T, HiveErrorView> {
    match r {
        Ok(t) => Ok(t),
        Err(e) => Err(e@),
    }
}

/// The full message of an error: a prefix naming its kind, then its detail.
/// (A serialization error's detail comes from `serde_json` and is not modelled.)
pub open spec fn error_message(e: HiveErrorView) -> Seq<char> {
    match e {
        HiveErrorView::Signature(m) => "Cryptographic signature verification failed: "@ + m,
        HiveErrorView::Serialization => "Serialization error: "@,
        HiveErrorView::TaskExecution(m) => "Task execution failed: "@ + m,
        HiveErrorView::Escrow(m) => "Escrow violation: "@ + m,
        HiveErrorView::Agent(m) => "Agent error: "@ + m,
        HiveErrorView::State(m) => "Invalid state transition: "@ + m,
        HiveErrorView::Timeout(m) => "Timeout or deadline expired: "@ + m,
    }
}

impl HiveError {
    /// The error's message, as its `Display` renders it.
    pub fn message(&self) -> (r: String)
        ensures
            self is SerializationError ==> starts_with(r@, error_message(self@)),
            !(self is SerializationError) ==> r@ == error_message(self@),
    {
        let (prefix, detail) = match self {
            HiveError::SignatureError(m) => ("Cryptographic signature verification failed: ", m.clone()),
            HiveError::SerializationError(e) => ("Serialization error: ", json_error_text(e)),
            HiveError::TaskExecutionError(m) => ("Task execution failed: ", m.clone()),
            HiveError::EscrowError(m) => ("Escrow violation: ", m.clone()),
            HiveError::AgentError(m) => ("Agent error: ", m.clone()),
            HiveError::StateError(m) => ("Invalid state transition: ", m.clone()),
            HiveError::TimeoutError(m) => ("Timeout or deadline expired: ", m.clone()),
        };
        let mut v: Vec<char> = Vec::new();
        push_str(&mut v, prefix);
        push_str(&mut v, detail.as_str());
        proof {
            if self is SerializationError {
                assert(v@.take(error_message(self@).len() as int) =~= error_message(self@));
            }
        }
        chars_to_string(&v)
    }
}

} // verus!
