//! What is sent back for a message.

use crate::server::error::HandlerError;
use vstd::prelude::*;

verus! {

/// The group that every subscriber of a subject joins, so that each message
/// goes to one of them only.
pub const DEFAULT_QUEUE_GROUP_NAME: &'static str = "v1.run_surl.workspace_responder";

/// What came of the task that handled a message.
#[derive(Debug)]
pub enum TaskResult {
    /// The handler returned what is to be sent back.
    Returned(Vec<u8>),
    /// The handler failed.
    Failed(HandlerError),
    /// The task came to an abrupt end.
    Panicked,
}

/// The server that handles the messages of a subject.
#[derive(Debug)]
pub struct BackendNatsServer;

impl BackendNatsServer {
    /// The bytes that are sent back where the handler failed.
    pub open spec fn placeholder() -> Seq<u8> {
        "Placeholder <An error occured>"@.map_values(|c: char| c as u8)
    }

    /// What is sent back for a message whose task ended with `result`:
    /// what the handler returned, or a placeholder where it failed. Nothing
    /// is sent back for a task that came to an abrupt end.
    pub open spec fn reply_of(result: TaskResult) -> Option<Seq<u8>> {
        match result {
            TaskResult::Returned(bytes) => Some(bytes@),
            TaskResult::Failed(_) => Some(Self::placeholder()),
            TaskResult::Panicked => None,
        }
    }

    /// Chooses what is sent back for a message.
    pub fn error_wrap(result: TaskResult) -> (r: Option<Vec<u8>>)
        ensures
            match r {
                Some(bytes) => Self::reply_of(result) == Some(bytes@),
                None => Self::reply_of(result) is None,
            },
    {
        match result {
            TaskResult::Returned(bytes) => Some(bytes),
            TaskResult::Failed(_) => {
                let text = "Placeholder <An error occured>";
                proof {
                    reveal_strlit("Placeholder <An error occured>");
                }
                let bytes = text.as_bytes_vec();
                proof {
                    vstd::string::is_ascii_spec_bytes(text);
                    assert(bytes@ =~= Self::placeholder());
                }
                Some(bytes)
            },
            TaskResult::Panicked => None,
        }
    }
}

} // verus!
