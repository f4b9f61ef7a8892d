//! A conversation: the history of its messages, which only grows, and the
//! turns that add to it.
//!
//! A conversation does not talk to the service itself. Whoever drives it
//! issues a send, which adds the user's message to the history, submits the
//! history, and hands back what came of it. The user's message is added
//! when the send is issued, streamed or not, and stays whatever the
//! outcome; an answer adds the assistant's message, an error adds nothing.

use crate::completion::{backend_error, first_reply, CompletionResponse, ServerResponse};
use crate::err::{Error, ErrorView};
use crate::types::{
    history_view, system_message, user_message, ChatMessage, ChatMessageView, Role,
};
use vstd::prelude::*;

verus! {

/// What the error for an answer without a completion says.
pub open spec fn no_completion_message() -> Seq<char> {
    "Completion response holds no choice"@
}

/// The direction that opens a conversation where the caller gives none.
pub open spec fn default_direction() -> Seq<char> {
    "You are ChatGPT, an AI model developed by OpenAI. Answer as concisely as possible."@
}

/// What a send that was answered with `response` returns: the answer
/// itself, a backend error for an error of the service, and a parsing error
/// for an answer without a completion.
pub open spec fn send_outcome(response: ServerResponse, result: Result<CompletionResponse, Error>)
    -> bool {
    match response {
        ServerResponse::Completion(completion) => if first_reply(completion) is Some {
            result == Ok::<CompletionResponse, Error>(completion)
        } else {
            result is Err && result->Err_0@ == ErrorView::ParsingError(no_completion_message())
        },
        ServerResponse::Error { error } => result is Err && result->Err_0@ == backend_error(
            error,
        ),
    }
}

/// The history after a send that was answered with `response`: one message
/// longer, by the first completion, for an answer that has one, and as it
/// was otherwise.
pub open spec fn history_after(history: Seq<ChatMessageView>, response: ServerResponse) -> Seq<
    ChatMessageView,
> {
    match response {
        ServerResponse::Completion(completion) => match first_reply(completion) {
            Some(reply) => history.push(reply),
            None => history,
        },
        ServerResponse::Error { error } => history,
    }
}

/// A conversation with the service.
pub struct Conversation {
    history: Vec<ChatMessage>,
    awaiting: bool,
}

impl Conversation {
    /// The messages so far, oldest first.
    pub closed spec fn messages(&self) -> Seq<ChatMessageView> {
        history_view(self.history@)
    }

    /// Whether a send was issued that has no outcome yet.
    pub closed spec fn awaiting_response(&self) -> bool {
        self.awaiting
    }

    /// Starts a conversation with the message that directs the model.
    pub fn new(direction: String) -> (conversation: Conversation)
        ensures
            conversation.messages() == seq![system_message(direction@)],
            !conversation.awaiting_response(),
    {
        let mut history: Vec<ChatMessage> = Vec::new();
        history.push(ChatMessage::system(direction));
        assert(history_view(history@) =~= seq![system_message(direction@)]);
        Conversation { history, awaiting: false }
    }

    /// Starts a conversation with the direction used where none is given.
    pub fn new_default() -> (conversation: Conversation)
        ensures
            conversation.messages() == seq![system_message(default_direction())],
            !conversation.awaiting_response(),
    {
        Conversation::new(
            "You are ChatGPT, an AI model developed by OpenAI. Answer as concisely as possible.".to_owned(),
        )
    }

    /// Takes up a conversation with the history it had.
    pub fn new_with_history(history: Vec<ChatMessage>) -> (conversation: Conversation)
        ensures
            conversation.messages() == history_view(history@),
            !conversation.awaiting_response(),
    {
        Conversation { history, awaiting: false }
    }

    /// The messages so far, oldest first.
    pub fn history(&self) -> (history: &Vec<ChatMessage>)
        ensures
            history_view(history@) == self.messages(),
    {
        &self.history
    }

    /// Whether a send was issued that has no outcome yet.
    pub fn is_awaiting(&self) -> (answer: bool)
        ensures
            answer == self.awaiting_response(),
    {
        self.awaiting
    }

    /// Adds a message to the end of the history.
    pub fn push_message(&mut self, message: ChatMessage)
        requires
            !old(self).awaiting_response(),
        ensures
            final(self).messages() == old(self).messages().push(message@),
            !final(self).awaiting_response(),
    {
        self.history.push(message);
        assert(history_view(self.history@) =~= history_view(old(self).history@).push(message@));
    }

    /// Issues a send: the user's message joins the history, which is then
    /// what to submit, and the conversation awaits the outcome.
    pub fn issue_send(&mut self, message: String)
        requires
            !old(self).awaiting_response(),
        ensures
            final(self).messages() == old(self).messages().push(user_message(message@)),
            final(self).awaiting_response(),
    {
        self.history.push(ChatMessage::user(message));
        self.awaiting = true;
        assert(history_view(self.history@) =~= history_view(old(self).history@).push(
            user_message(message@),
        ));
    }

    /// Issues a streamed send: the user's message joins the history, which
    /// is then what to submit. The events of the answer go to the caller,
    /// and nothing of them is added here, so the conversation awaits
    /// nothing.
    pub fn issue_streaming(&mut self, message: String)
        requires
            !old(self).awaiting_response(),
        ensures
            final(self).messages() == old(self).messages().push(user_message(message@)),
            !final(self).awaiting_response(),
    {
        self.history.push(ChatMessage::user(message));
        assert(history_view(self.history@) =~= history_view(old(self).history@).push(
            user_message(message@),
        ));
    }

    /// Ends a send with what the service sent back. An answer is returned
    /// as it is, and its first completion joins the history as the
    /// assistant's message. An error of the service is returned as a backend
    /// error and leaves the history as it was, and so does an answer without
    /// a completion, which is a parsing error.
    pub fn complete_send(&mut self, response: ServerResponse) -> (result: Result<
        CompletionResponse,
        Error,
    >)
        requires
            old(self).awaiting_response(),
        ensures
            send_outcome(response, result),
            final(self).messages() == history_after(old(self).messages(), response),
            !final(self).awaiting_response(),
    {
        self.awaiting = false;
        match response.into_result() {
            Ok(completion) => match completion.first_message() {
                Some(reply) => {
                    self.history.push(reply);
                    assert(history_view(self.history@) =~= history_view(old(self).history@).push(
                        reply@,
                    ));
                    Ok(completion)
                },
                None => Err(Error::ParsingError("Completion response holds no choice".to_owned())),
            },
            Err(error) => Err(error),
        }
    }

    /// Ends a send that the transport failed: the history stays as it was,
    /// and the failure is returned as a transport error.
    pub fn fail_send(&mut self, reason: String) -> (error: Error)
        requires
            old(self).awaiting_response(),
        ensures
            error@ == ErrorView::TransportError(reason@),
            final(self).messages() == old(self).messages(),
            !final(self).awaiting_response(),
    {
        self.awaiting = false;
        Error::TransportError(reason)
    }
}

/// An error of the service adds nothing to the history, and the send
/// returns a backend error with the message and type of that error.
pub proof fn law_backend_error_keeps_history(
    history: Seq<ChatMessageView>,
    response: ServerResponse,
    result: Result<CompletionResponse, Error>,
)
    requires
        response is Error,
        send_outcome(response, result),
    ensures
        history_after(history, response) == history,
        result is Err,
        result->Err_0@ == backend_error(response->error),
{
}

/// No outcome of a send takes a message away or changes one: the history
/// before it is the beginning of the history after it, which is longer by
/// one message at most.
pub proof fn law_history_only_grows(history: Seq<ChatMessageView>, response: ServerResponse)
    ensures
        history.is_prefix_of(history_after(history, response)),
        history_after(history, response).len() <= history.len() + 1,
{
}

} // verus!
