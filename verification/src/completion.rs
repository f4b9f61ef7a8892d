//! What the service answers to a request that is not streamed.

use crate::err::{Error, ErrorView};
use crate::types::{ChatMessage, ChatMessageView, Role};
use vstd::prelude::*;

verus! {

/// How many tokens a request and its answer took.
#[derive(Clone, Copy, Debug, PartialEq, Eq, Structural)]
pub struct TokenUsage {
    pub prompt_tokens: u32,
    pub completion_tokens: u32,
    pub total_tokens: u32,
}

/// One of the completions of an answer.
#[derive(Debug, PartialEq, Eq)]
pub struct MessageChoice {
    pub message: ChatMessage,
    pub finish_reason: String,
    pub index: u32,
}

/// A finished answer: its completions and what they cost.
#[derive(Debug, PartialEq, Eq)]
pub struct CompletionResponse {
    pub message_id: Option<String>,
    pub created_timestamp: Option<u64>,
    pub model: String,
    pub usage: TokenUsage,
    pub message_choices: Vec<MessageChoice>,
}

/// The error that the service reports in place of an answer.
#[derive(Debug, PartialEq, Eq)]
pub struct CompletionError {
    pub message: String,
    pub error_type: String,
}

/// What the service sends back: an answer or an error of its own.
#[derive(Debug, PartialEq, Eq)]
pub enum ServerResponse {
    Error { error: CompletionError },
    Completion(CompletionResponse),
}

/// The message that a completion adds to a conversation: its content and
/// function call, written by the assistant.
pub open spec fn reply_of(message: ChatMessageView) -> ChatMessageView {
    ChatMessageView {
        role: Role::Assistant,
        content: message.content,
        function_call: message.function_call,
    }
}

/// The message that an answer adds to a conversation: that of its first
/// completion, where it has one.
pub open spec fn first_reply(response: CompletionResponse) -> Option<ChatMessageView> {
    if response.message_choices@.len() > 0 {
        Some(reply_of(response.message_choices@[0].message@))
    } else {
        None
    }
}

/// The error that stands for an error of the service.
pub open spec fn backend_error(error: CompletionError) -> ErrorView {
    ErrorView::BackendError { message: error.message@, error_type: error.error_type@ }
}

impl CompletionResponse {
    /// The message of the first completion, as the assistant's.
    pub fn first_message(&self) -> (reply: Option<ChatMessage>)
        ensures
            match reply {
                Some(message) => first_reply(*self) == Some(message@),
                None => first_reply(*self) is None,
            },
    {
        if self.message_choices.len() > 0 {
            let message = &self.message_choices[0].message;
            let function_call = match &message.function_call {
                Some(call) => Some(call.clone()),
                None => None,
            };
            Some(
                ChatMessage {
                    role: Role::Assistant,
                    content: message.content.clone(),
                    function_call,
                },
            )
        } else {
            None
        }
    }
}

impl ServerResponse {
    /// Tells an answer from an error of the service: the answer is handed
    /// on as it is, the error as a backend error with the same message and
    /// type.
    pub fn into_result(self) -> (result: Result<CompletionResponse, Error>)
        ensures
            match self {
                ServerResponse::Completion(completion) => result == Ok::<
                    CompletionResponse,
                    Error,
                >(completion),
                ServerResponse::Error { error } => result is Err && result->Err_0@
                    == backend_error(error),
            },
    {
        match self {
            ServerResponse::Completion(completion) => Ok(completion),
            ServerResponse::Error { error } => Err(
                Error::BackendError { message: error.message, error_type: error.error_type },
            ),
        }
    }
}

} // verus!
