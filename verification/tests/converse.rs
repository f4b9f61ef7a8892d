use chatgpt::completion::{
    CompletionError, CompletionResponse, MessageChoice, ServerResponse, TokenUsage,
};
use chatgpt::converse::Conversation;
use chatgpt::err::Error;
use chatgpt::types::{collect_content, ChatMessage, FunctionCall, ResponseChunk, Role};

fn message(role: Role, content: &str) -> ChatMessage {
    ChatMessage { role, content: content.to_string(), function_call: None }
}

fn answer(messages: Vec<ChatMessage>) -> CompletionResponse {
    let mut choices = Vec::new();
    for (index, message) in messages.into_iter().enumerate() {
        choices.push(MessageChoice {
            message,
            finish_reason: "stop".to_string(),
            index: index as u32,
        });
    }
    CompletionResponse {
        message_id: Some("chatcmpl-1".to_string()),
        created_timestamp: Some(1_700_000_000),
        model: "gpt-3.5-turbo".to_string(),
        usage: TokenUsage { prompt_tokens: 9, completion_tokens: 3, total_tokens: 12 },
        message_choices: choices,
    }
}

fn backend_failure() -> ServerResponse {
    ServerResponse::Error {
        error: CompletionError {
            message: "You exceeded your current quota".to_string(),
            error_type: "insufficient_quota".to_string(),
        },
    }
}

#[test]
fn new_conversation_opens_with_the_direction() {
    let conversation = Conversation::new("Be brief.".to_string());
    assert_eq!(conversation.history(), &vec![message(Role::System, "Be brief.")]);
    assert!(!conversation.is_awaiting());
}

#[test]
fn default_direction_is_used_where_none_is_given() {
    let conversation = Conversation::new_default();
    assert_eq!(
        conversation.history(),
        &vec![message(
            Role::System,
            "You are ChatGPT, an AI model developed by OpenAI. Answer as concisely as possible."
        )]
    );
}

#[test]
fn restored_history_is_kept_as_it_is() {
    let history = vec![
        message(Role::System, "Be brief."),
        message(Role::User, "Hello"),
        message(Role::Assistant, "Hi"),
    ];
    let conversation = Conversation::new_with_history(history.clone());
    assert_eq!(conversation.history(), &history);
    assert!(!conversation.is_awaiting());
    let empty = Conversation::new_with_history(Vec::new());
    assert!(empty.history().is_empty());
}

#[test]
fn answered_send_adds_user_then_assistant() {
    let mut conversation = Conversation::new("Be brief.".to_string());
    conversation.issue_send("Hello".to_string());
    assert!(conversation.is_awaiting());
    assert_eq!(
        conversation.history(),
        &vec![message(Role::System, "Be brief."), message(Role::User, "Hello")]
    );
    let response = answer(vec![message(Role::Assistant, "Hi"), message(Role::Assistant, "Hey")]);
    let result = conversation.complete_send(ServerResponse::Completion(
        answer(vec![message(Role::Assistant, "Hi"), message(Role::Assistant, "Hey")]),
    ));
    assert_eq!(result, Ok(response));
    assert!(!conversation.is_awaiting());
    assert_eq!(
        conversation.history(),
        &vec![
            message(Role::System, "Be brief."),
            message(Role::User, "Hello"),
            message(Role::Assistant, "Hi"),
        ]
    );
}

#[test]
fn backend_error_adds_nothing() {
    let mut conversation = Conversation::new("Be brief.".to_string());
    conversation.issue_send("Hello".to_string());
    let before = conversation.history().clone();
    assert_eq!(before.len(), 2);
    let result = conversation.complete_send(backend_failure());
    assert_eq!(
        result,
        Err(Error::BackendError {
            message: "You exceeded your current quota".to_string(),
            error_type: "insufficient_quota".to_string(),
        })
    );
    assert_eq!(conversation.history(), &before);
    assert_eq!(conversation.history().len(), 2);
    assert!(!conversation.is_awaiting());
}

#[test]
fn answer_without_completion_is_a_parsing_error() {
    let mut conversation = Conversation::new("Be brief.".to_string());
    conversation.issue_send("Hello".to_string());
    let result = conversation.complete_send(ServerResponse::Completion(answer(Vec::new())));
    assert_eq!(
        result,
        Err(Error::ParsingError("Completion response holds no choice".to_string()))
    );
    assert_eq!(conversation.history().len(), 2);
    assert!(!conversation.is_awaiting());
}

#[test]
fn function_call_of_the_answer_joins_the_history() {
    let mut conversation = Conversation::new("Be brief.".to_string());
    conversation.issue_send("Weather in Paris?".to_string());
    let reply = ChatMessage {
        role: Role::Function,
        content: String::new(),
        function_call: Some(FunctionCall {
            name: "weather".to_string(),
            arguments: "{\"city\":\"Paris\"}".to_string(),
        }),
    };
    let result = conversation.complete_send(ServerResponse::Completion(answer(vec![reply])));
    assert!(result.is_ok());
    assert_eq!(
        conversation.history()[2],
        ChatMessage {
            role: Role::Assistant,
            content: String::new(),
            function_call: Some(FunctionCall {
                name: "weather".to_string(),
                arguments: "{\"city\":\"Paris\"}".to_string(),
            }),
        }
    );
}

#[test]
fn failed_transport_adds_nothing() {
    let mut conversation = Conversation::new("Be brief.".to_string());
    conversation.issue_send("Hello".to_string());
    let error = conversation.fail_send("connection refused".to_string());
    assert_eq!(error, Error::TransportError("connection refused".to_string()));
    assert_eq!(conversation.history().len(), 2);
    assert!(!conversation.is_awaiting());
    conversation.issue_send("Again".to_string());
    assert_eq!(conversation.history().len(), 3);
}

#[test]
fn streamed_send_adds_only_the_user_message() {
    let mut conversation = Conversation::new("Be brief.".to_string());
    conversation.issue_streaming("Hello".to_string());
    assert!(!conversation.is_awaiting());
    assert_eq!(
        conversation.history(),
        &vec![message(Role::System, "Be brief."), message(Role::User, "Hello")]
    );
    let events = vec![
        ResponseChunk::BeginResponse { role: Role::Assistant, response_index: 0 },
        ResponseChunk::Content { delta: "Hi".to_string(), response_index: 0 },
        ResponseChunk::Content { delta: " there".to_string(), response_index: 0 },
        ResponseChunk::CloseResponse { response_index: 0 },
        ResponseChunk::Done,
    ];
    assert_eq!(conversation.history().len(), 2);
    conversation.push_message(message(Role::Assistant, &collect_content(&events, 0)));
    assert_eq!(conversation.history()[2], message(Role::Assistant, "Hi there"));
}

#[test]
fn content_is_collected_for_each_response_apart() {
    let events = vec![
        ResponseChunk::BeginResponse { role: Role::Assistant, response_index: 0 },
        ResponseChunk::BeginResponse { role: Role::Assistant, response_index: 1 },
        ResponseChunk::Content { delta: "a".to_string(), response_index: 0 },
        ResponseChunk::Content { delta: "x".to_string(), response_index: 1 },
        ResponseChunk::Content { delta: "b".to_string(), response_index: 0 },
        ResponseChunk::CloseResponse { response_index: 0 },
        ResponseChunk::Content { delta: "y".to_string(), response_index: 1 },
        ResponseChunk::Done,
    ];
    assert_eq!(collect_content(&events, 0), "ab");
    assert_eq!(collect_content(&events, 1), "xy");
    assert_eq!(collect_content(&events, 2), "");
    assert_eq!(collect_content(&Vec::new(), 0), "");
}

#[test]
fn server_response_becomes_a_result() {
    let response = answer(vec![message(Role::Assistant, "Hi")]);
    assert_eq!(
        ServerResponse::Completion(answer(vec![message(Role::Assistant, "Hi")])).into_result(),
        Ok(response)
    );
    assert_eq!(
        backend_failure().into_result(),
        Err(Error::BackendError {
            message: "You exceeded your current quota".to_string(),
            error_type: "insufficient_quota".to_string(),
        })
    );
    assert_eq!(answer(Vec::new()).first_message(), None);
    assert_eq!(
        answer(vec![message(Role::User, "echo")]).first_message(),
        Some(message(Role::Assistant, "echo"))
    );
}

#[test]
fn errors_describe_themselves() {
    assert_eq!(
        Error::TransportError("timed out".to_string()).describe(),
        "Transport error: timed out"
    );
    assert_eq!(
        Error::ParsingError("bad".to_string()).describe(),
        "Error while parsing: bad"
    );
    assert_eq!(
        Error::BackendError { message: "no".to_string(), error_type: "quota".to_string() }
            .describe(),
        "Backend error (quota): no"
    );
    let error = Error::ParsingError("bad".to_string());
    assert_eq!(error.clone(), error);
}

#[test]
fn messages_are_built_and_copied() {
    assert_eq!(ChatMessage::user("Hello".to_string()), message(Role::User, "Hello"));
    assert_eq!(ChatMessage::system("Be brief.".to_string()), message(Role::System, "Be brief."));
    let with_call = ChatMessage {
        role: Role::Assistant,
        content: "c".to_string(),
        function_call: Some(FunctionCall { name: "f".to_string(), arguments: "{}".to_string() }),
    };
    assert_eq!(with_call.clone(), with_call);
    let chunk = ResponseChunk::Content { delta: "d".to_string(), response_index: 7 };
    assert_eq!(chunk.clone(), chunk);
}
