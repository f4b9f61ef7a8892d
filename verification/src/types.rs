//! Messages, roles and the events of a streamed response.

use vstd::prelude::*;

verus! {

/// Who wrote a message of a conversation.
#[derive(Clone, Copy, Debug, PartialEq, Eq, Structural)]
pub enum Role {
    System,
    Assistant,
    User,
    Function,
}

/// The name under which the service knows each role.
pub open spec fn role_name(role: Role) -> Seq<char> {
    match role {
        Role::System => "system"@,
        Role::Assistant => "assistant"@,
        Role::User => "user"@,
        Role::Function => "function"@,
    }
}

/// The role that `name` stands for, if it is the name of one.
pub open spec fn role_named(name: Seq<char>) -> Option<Role> {
    if name == "system"@ {
        Some(Role::System)
    } else if name == "assistant"@ {
        Some(Role::Assistant)
    } else if name == "user"@ {
        Some(Role::User)
    } else if name == "function"@ {
        Some(Role::Function)
    } else {
        None
    }
}

impl Role {
    /// The name of this role on the wire.
    pub fn name(self) -> (text: &'static str)
        ensures
            text@ == role_name(self),
    {
        match self {
            Role::System => "system",
            Role::Assistant => "assistant",
            Role::User => "user",
            Role::Function => "function",
        }
    }

    /// Reads a role from its name on the wire; `None` for any other text.
    pub fn from_name(name: &str) -> (role: Option<Role>)
        ensures
            role == role_named(name@),
    {
        let owned = name.to_owned();
        if owned == "system".to_owned() {
            Some(Role::System)
        } else if owned == "assistant".to_owned() {
            Some(Role::Assistant)
        } else if owned == "user".to_owned() {
            Some(Role::User)
        } else if owned == "function".to_owned() {
            Some(Role::Function)
        } else {
            None
        }
    }
}

/// Every role is found again from its name.
pub proof fn law_role_name_round_trip(role: Role)
    ensures
        role_named(role_name(role)) == Some(role),
{
    reveal_strlit("system");
    reveal_strlit("assistant");
    reveal_strlit("user");
    reveal_strlit("function");
    assert("system"@.len() == 6);
    assert("assistant"@.len() == 9);
    assert("user"@.len() == 4);
    assert("function"@.len() == 8);
}

/// A request of the model to have a function called.
#[derive(Debug, PartialEq, Eq)]
pub struct FunctionCall {
    pub name: String,
    pub arguments: String,
}

/// What a [`FunctionCall`] holds.
pub struct FunctionCallView {
    pub name: Seq<char>,
    pub arguments: Seq<char>,
}

impl View for FunctionCall {
    type V = FunctionCallView;

    open spec fn view(&self) -> FunctionCallView {
        FunctionCallView { name: self.name@, arguments: self.arguments@ }
    }
}

impl Clone for FunctionCall {
    fn clone(&self) -> (copy: Self)
        ensures
            copy@ == self@,
    {
        FunctionCall { name: self.name.clone(), arguments: self.arguments.clone() }
    }
}

/// One turn of a conversation.
#[derive(Debug, PartialEq, Eq)]
pub struct ChatMessage {
    pub role: Role,
    pub content: String,
    pub function_call: Option<FunctionCall>,
}

/// What a [`ChatMessage`] holds.
pub struct ChatMessageView {
    pub role: Role,
    pub content: Seq<char>,
    pub function_call: Option<FunctionCallView>,
}

impl View for ChatMessage {
    type V = ChatMessageView;

    open spec fn view(&self) -> ChatMessageView {
        ChatMessageView {
            role: self.role,
            content: self.content@,
            function_call: match self.function_call {
                Some(call) => Some(call@),
                None => None,
            },
        }
    }
}

impl Clone for ChatMessage {
    fn clone(&self) -> (copy: Self)
        ensures
            copy@ == self@,
    {
        let function_call = match &self.function_call {
            Some(call) => Some(call.clone()),
            None => None,
        };
        ChatMessage { role: self.role, content: self.content.clone(), function_call }
    }
}

/// The message a user sends: role `User`, the given text, no function call.
pub open spec fn user_message(content: Seq<char>) -> ChatMessageView {
    ChatMessageView { role: Role::User, content, function_call: None }
}

/// The message that opens a conversation: role `System` and the direction.
pub open spec fn system_message(content: Seq<char>) -> ChatMessageView {
    ChatMessageView { role: Role::System, content, function_call: None }
}

impl ChatMessage {
    /// A message of the user.
    pub fn user(content: String) -> (message: ChatMessage)
        ensures
            message@ == user_message(content@),
    {
        ChatMessage { role: Role::User, content, function_call: None }
    }

    /// A message that directs the model.
    pub fn system(content: String) -> (message: ChatMessage)
        ensures
            message@ == system_message(content@),
    {
        ChatMessage { role: Role::System, content, function_call: None }
    }
}

/// The messages of a history, each by its view, in order.
pub open spec fn history_view(history: Seq<ChatMessage>) -> Seq<ChatMessageView> {
    Seq::new(history.len(), |i: int| history[i]@)
}

/// One event of a streamed response.
#[derive(Debug, PartialEq, Eq)]
pub enum ResponseChunk {
    /// A piece of the text of the response with the given index.
    Content { delta: String, response_index: usize },
    /// A response begins, written by `role`.
    BeginResponse { role: Role, response_index: usize },
    /// The response with the given index is complete.
    CloseResponse { response_index: usize },
    /// The stream is over.
    Done,
}

/// What a [`ResponseChunk`] holds.
pub enum ResponseChunkView {
    Content { delta: Seq<char>, response_index: usize },
    BeginResponse { role: Role, response_index: usize },
    CloseResponse { response_index: usize },
    Done,
}

impl View for ResponseChunk {
    type V = ResponseChunkView;

    open spec fn view(&self) -> ResponseChunkView {
        match self {
            ResponseChunk::Content { delta, response_index } => ResponseChunkView::Content {
                delta: delta@,
                response_index: *response_index,
            },
            ResponseChunk::BeginResponse { role, response_index } => {
                ResponseChunkView::BeginResponse { role: *role, response_index: *response_index }
            },
            ResponseChunk::CloseResponse { response_index } => ResponseChunkView::CloseResponse {
                response_index: *response_index,
            },
            ResponseChunk::Done => ResponseChunkView::Done,
        }
    }
}

impl Clone for ResponseChunk {
    fn clone(&self) -> (copy: Self)
        ensures
            copy@ == self@,
    {
        match self {
            ResponseChunk::Content { delta, response_index } => ResponseChunk::Content {
                delta: delta.clone(),
                response_index: *response_index,
            },
            ResponseChunk::BeginResponse { role, response_index } => ResponseChunk::BeginResponse {
                role: *role,
                response_index: *response_index,
            },
            ResponseChunk::CloseResponse { response_index } => ResponseChunk::CloseResponse {
                response_index: *response_index,
            },
            ResponseChunk::Done => ResponseChunk::Done,
        }
    }
}

/// What one choice of a streamed payload carries besides its index.
#[derive(Debug, PartialEq, Eq)]
pub enum InboundChunkPayload {
    /// The role that writes the response.
    AnnounceRoles { role: Role },
    /// More text of the response.
    StreamContent { content: String },
    /// Nothing more: the response closes.
    Close,
}

/// What an [`InboundChunkPayload`] holds.
pub enum InboundChunkPayloadView {
    AnnounceRoles { role: Role },
    StreamContent { content: Seq<char> },
    Close,
}

impl View for InboundChunkPayload {
    type V = InboundChunkPayloadView;

    open spec fn view(&self) -> InboundChunkPayloadView {
        match self {
            InboundChunkPayload::AnnounceRoles { role } => InboundChunkPayloadView::AnnounceRoles {
                role: *role,
            },
            InboundChunkPayload::StreamContent { content } => {
                InboundChunkPayloadView::StreamContent { content: content@ }
            },
            InboundChunkPayload::Close => InboundChunkPayloadView::Close,
        }
    }
}

/// The event that a choice with the given index and payload stands for.
pub open spec fn chunk_of_choice(
    index: usize,
    delta: InboundChunkPayloadView,
) -> ResponseChunkView {
    match delta {
        InboundChunkPayloadView::AnnounceRoles { role } => ResponseChunkView::BeginResponse {
            role,
            response_index: index,
        },
        InboundChunkPayloadView::StreamContent { content } => ResponseChunkView::Content {
            delta: content,
            response_index: index,
        },
        InboundChunkPayloadView::Close => ResponseChunkView::CloseResponse {
            response_index: index,
        },
    }
}

/// The payload that a delta with the given `role` and `content` members
/// stands for: a role that is named wins, then a content, and a delta with
/// neither closes the response.
pub open spec fn payload_of_members(
    role: Option<Seq<char>>,
    content: Option<Seq<char>>,
) -> InboundChunkPayloadView {
    if role is Some && role_named(role->0) is Some {
        InboundChunkPayloadView::AnnounceRoles { role: role_named(role->0)->0 }
    } else if content is Some {
        InboundChunkPayloadView::StreamContent { content: content->0 }
    } else {
        InboundChunkPayloadView::Close
    }
}

impl InboundChunkPayload {
    /// Tells the three shapes of a delta apart by its `role` and `content`
    /// members, each given where the delta holds a text under that name.
    pub fn from_members(role: Option<&str>, content: Option<&str>) -> (payload: InboundChunkPayload)
        ensures
            payload@ == payload_of_members(
                match role {
                    Some(text) => Some(text@),
                    None => None,
                },
                match content {
                    Some(text) => Some(text@),
                    None => None,
                },
            ),
    {
        let named = match role {
            Some(text) => Role::from_name(text),
            None => None,
        };
        match named {
            Some(role) => InboundChunkPayload::AnnounceRoles { role },
            None => match content {
                Some(text) => InboundChunkPayload::StreamContent { content: text.to_owned() },
                None => InboundChunkPayload::Close,
            },
        }
    }
}

impl ResponseChunk {
    /// The event for a choice of a streamed payload.
    pub fn from_choice(index: usize, delta: InboundChunkPayload) -> (chunk: ResponseChunk)
        ensures
            chunk@ == chunk_of_choice(index, delta@),
    {
        match delta {
            InboundChunkPayload::AnnounceRoles { role } => ResponseChunk::BeginResponse {
                role,
                response_index: index,
            },
            InboundChunkPayload::StreamContent { content } => ResponseChunk::Content {
                delta: content,
                response_index: index,
            },
            InboundChunkPayload::Close => ResponseChunk::CloseResponse { response_index: index },
        }
    }
}

/// The events of a stream, each by its view, in order.
pub open spec fn chunks_view(events: Seq<ResponseChunk>) -> Seq<ResponseChunkView> {
    Seq::new(events.len(), |i: int| events[i]@)
}

/// The text of the response with the given index: the pieces of content
/// that the events carry for it, in their order, put together.
pub open spec fn content_of(events: Seq<ResponseChunkView>, index: usize) -> Seq<char>
    decreases events.len(),
{
    if events.len() == 0 {
        Seq::empty()
    } else {
        let before = content_of(events.drop_last(), index);
        match events.last() {
            ResponseChunkView::Content { delta, response_index } => if response_index == index {
                before + delta
            } else {
                before
            },
            _ => before,
        }
    }
}

/// Puts together the text that a stream carried for one response.
pub fn collect_content(events: &Vec<ResponseChunk>, index: usize) -> (content: String)
    ensures
        content@ == content_of(chunks_view(events@), index),
{
    let mut content = String::new();
    let mut seen: usize = 0;
    assert(chunks_view(events@).take(0) =~= Seq::empty());
    while seen < events.len()
        invariant
            seen <= events@.len(),
            content@ == content_of(chunks_view(events@).take(seen as int), index),
        decreases events@.len() - seen,
    {
        proof {
            let upto = chunks_view(events@).take(seen + 1);
            assert(upto.drop_last() =~= chunks_view(events@).take(seen as int));
            assert(upto.last() == events@[seen as int]@);
        }
        match &events[seen] {
            ResponseChunk::Content { delta, response_index } => {
                if *response_index == index {
                    content.append(delta.as_str());
                }
            },
            _ => {},
        }
        seen += 1;
    }
    assert(chunks_view(events@).take(seen as int) =~= chunks_view(events@));
    content
}

} // verus!
