//! A history as it is stored: in the compact binary encoding of `postcard`,
//! or as a JSON text.
//!
//! For the binary encoding a message is laid out as a row of plain values:
//! the number of its role, its content, and the name and arguments of its
//! function call where it has one. `postcard` encodes the rows.

use crate::err::{Error, ErrorView};
use crate::json::{
    elements, is_null, json_elements, json_is_null, json_member, json_parsed, json_quoted, member,
    parse, quote,
};
use crate::payload::{member_text, read_member_text};
use crate::types::{
    history_view, role_name, role_named, ChatMessage, ChatMessageView, FunctionCall,
    FunctionCallView, Role,
};
use vstd::prelude::*;

verus! {

/// The number that stands for a role in the binary encoding.
pub open spec fn role_code(role: Role) -> u32 {
    match role {
        Role::System => 0,
        Role::Assistant => 1,
        Role::User => 2,
        Role::Function => 3,
    }
}

/// The role that a number stands for, if it stands for one.
pub open spec fn role_of_code(code: u32) -> Option<Role> {
    if code == 0 {
        Some(Role::System)
    } else if code == 1 {
        Some(Role::Assistant)
    } else if code == 2 {
        Some(Role::User)
    } else if code == 3 {
        Some(Role::Function)
    } else {
        None
    }
}

/// The row that a message is stored as.
pub open spec fn row_of(message: ChatMessageView) -> (
    u32,
    Seq<char>,
    Option<(Seq<char>, Seq<char>)>,
) {
    (
        role_code(message.role),
        message.content,
        match message.function_call {
            Some(call) => Some((call.name, call.arguments)),
            None => None,
        },
    )
}

/// The message that a row stands for, where its number stands for a role.
pub open spec fn message_of(row: (u32, Seq<char>, Option<(Seq<char>, Seq<char>)>)) -> Option<
    ChatMessageView,
> {
    match role_of_code(row.0) {
        Some(role) => Some(
            ChatMessageView {
                role,
                content: row.1,
                function_call: match row.2 {
                    Some(call) => Some(FunctionCallView { name: call.0, arguments: call.1 }),
                    None => None,
                },
            },
        ),
        None => None,
    }
}

/// The rows that a history is stored as, in its order.
pub open spec fn rows_of(history: Seq<ChatMessageView>) -> Seq<
    (u32, Seq<char>, Option<(Seq<char>, Seq<char>)>),
> {
    Seq::new(history.len(), |i: int| row_of(history[i]))
}

/// The history that rows stand for, where each of them stands for a
/// message.
pub open spec fn history_of(rows: Seq<(u32, Seq<char>, Option<(Seq<char>, Seq<char>)>)>) -> Option<
    Seq<ChatMessageView>,
> {
    if forall|i: int| 0 <= i < rows.len() ==> (#[trigger] message_of(rows[i])) is Some {
        Some(Seq::new(rows.len(), |i: int| message_of(rows[i])->0))
    } else {
        None
    }
}

/// What a row holds.
pub open spec fn row_view(row: (u32, String, Option<(String, String)>)) -> (
    u32,
    Seq<char>,
    Option<(Seq<char>, Seq<char>)>,
) {
    (
        row.0,
        row.1@,
        match row.2 {
            Some(call) => Some((call.0@, call.1@)),
            None => None,
        },
    )
}

/// What rows hold, in order.
pub open spec fn rows_view(rows: Seq<(u32, String, Option<(String, String)>)>) -> Seq<
    (u32, Seq<char>, Option<(Seq<char>, Seq<char>)>),
> {
    Seq::new(rows.len(), |i: int| row_view(rows[i]))
}

/// What the error for a history that cannot be encoded says.
pub open spec fn unencodable_message() -> Seq<char> {
    "Conversation history could not be encoded"@
}

/// What the error for stored bytes that hold no history says.
pub open spec fn undecodable_message() -> Seq<char> {
    "Conversation history could not be decoded"@
}

/// The bytes that `postcard::to_allocvec` gives for a sequence of rows,
/// where it gives any.
pub uninterp spec fn postcard_encoded(
    rows: Seq<(u32, Seq<char>, Option<(Seq<char>, Seq<char>)>)>,
) -> Option<Seq<u8>>;

/// The rows that `postcard::from_bytes` reads as a sequence of rows from
/// the front of `bytes`, where it reads any.
pub uninterp spec fn postcard_decoded(bytes: Seq<u8>) -> Option<
    Seq<(u32, Seq<char>, Option<(Seq<char>, Seq<char>)>)>,
>;

/// Calls `postcard::to_allocvec` on the rows and drops its error. The
/// result is named [`postcard_encoded`].
#[verifier::external_body]
fn encode_rows(rows: &Vec<(u32, String, Option<(String, String)>)>) -> (bytes: Option<Vec<u8>>)
    ensures
        match bytes {
            Some(encoded) => postcard_encoded(rows_view(rows@)) == Some(encoded@),
            None => postcard_encoded(rows_view(rows@)) is None,
        },
{
    postcard::to_allocvec(rows).ok()
}

/// Calls `postcard::from_bytes` for a vector of rows and drops its error.
/// The result is named [`postcard_decoded`].
#[verifier::external_body]
fn decode_rows(bytes: &[u8]) -> (rows: Option<Vec<(u32, String, Option<(String, String)>)>>)
    ensures
        match rows {
            Some(decoded) => postcard_decoded(bytes@) == Some(rows_view(decoded@)),
            None => postcard_decoded(bytes@) is None,
        },
{
    postcard::from_bytes::<Vec<(u32, String, Option<(String, String)>)>>(bytes).ok()
}

impl Role {
    /// The number that stands for this role in the binary encoding.
    pub fn code(self) -> (code: u32)
        ensures
            code == role_code(self),
    {
        match self {
            Role::System => 0,
            Role::Assistant => 1,
            Role::User => 2,
            Role::Function => 3,
        }
    }

    /// The role that a number stands for; `None` for any other number.
    pub fn from_code(code: u32) -> (role: Option<Role>)
        ensures
            role == role_of_code(code),
    {
        if code == 0 {
            Some(Role::System)
        } else if code == 1 {
            Some(Role::Assistant)
        } else if code == 2 {
            Some(Role::User)
        } else if code == 3 {
            Some(Role::Function)
        } else {
            None
        }
    }
}

/// Lays a history out as rows.
pub fn history_rows(history: &Vec<ChatMessage>) -> (rows: Vec<
    (u32, String, Option<(String, String)>),
>)
    ensures
        rows_view(rows@) == rows_of(history_view(history@)),
{
    let mut rows: Vec<(u32, String, Option<(String, String)>)> = Vec::new();
    let mut done: usize = 0;
    while done < history.len()
        invariant
            done <= history@.len(),
            rows@.len() == done,
            forall|i: int| 0 <= i < done ==> row_view(#[trigger] rows@[i]) == row_of(history@[i]@),
        decreases history@.len() - done,
    {
        let message = &history[done];
        let call = match &message.function_call {
            Some(call) => Some((call.name.clone(), call.arguments.clone())),
            None => None,
        };
        rows.push((message.role.code(), message.content.clone(), call));
        done += 1;
    }
    assert(rows_view(rows@) =~= rows_of(history_view(history@)));
    rows
}

/// Reads a history from rows: `None` where the number of a row stands for
/// no role.
pub fn history_from_rows(rows: Vec<(u32, String, Option<(String, String)>)>) -> (history: Option<
    Vec<ChatMessage>,
>)
    ensures
        match history {
            Some(messages) => history_of(rows_view(rows@)) == Some(history_view(messages@)),
            None => history_of(rows_view(rows@)) is None,
        },
{
    let ghost stored = rows_view(rows@);
    let mut history: Vec<ChatMessage> = Vec::new();
    let mut done: usize = 0;
    while done < rows.len()
        invariant
            done <= rows@.len(),
            stored == rows_view(rows@),
            history@.len() == done,
            forall|i: int| 0 <= i < done ==> message_of(stored[i]) == Some(#[trigger] history@[i]@),
        decreases rows@.len() - done,
    {
        let row = &rows[done];
        match Role::from_code(row.0) {
            Some(role) => {
                let function_call = match &row.2 {
                    Some(call) => Some(
                        FunctionCall { name: call.0.clone(), arguments: call.1.clone() },
                    ),
                    None => None,
                };
                history.push(ChatMessage { role, content: row.1.clone(), function_call });
            },
            None => {
                assert(message_of(stored[done as int]) is None);
                return None;
            },
        }
        done += 1;
    }
    assert forall|i: int| 0 <= i < stored.len() implies (#[trigger] message_of(stored[i]))
        == Some(history@[i]@) by {}
    assert(history_of(stored)->0 =~= history_view(history@));
    Some(history)
}

/// A history is read back from its rows as it was.
pub proof fn law_rows_round_trip(history: Seq<ChatMessageView>)
    ensures
        history_of(rows_of(history)) == Some(history),
{
    let rows = rows_of(history);
    assert forall|i: int| 0 <= i < rows.len() implies (#[trigger] message_of(rows[i])) == Some(
        history[i],
    ) by {
        let message = history[i];
        assert(rows[i] == row_of(message));
        assert(role_of_code(role_code(message.role)) == Some(message.role));
    }
    assert(history_of(rows)->0 =~= history);
}

/// The history that stored bytes hold in the binary encoding, where they
/// hold one.
pub open spec fn postcard_history(bytes: Seq<u8>) -> Option<Seq<ChatMessageView>> {
    match postcard_decoded(bytes) {
        Some(rows) => history_of(rows),
        None => None,
    }
}

/// Encodes a history in the binary encoding: the bytes that `postcard`
/// gives for its rows, or a parsing error where it gives none.
pub fn history_to_postcard(history: &Vec<ChatMessage>) -> (result: Result<Vec<u8>, Error>)
    ensures
        match postcard_encoded(rows_of(history_view(history@))) {
            Some(bytes) => result is Ok && result->Ok_0@ == bytes,
            None => result is Err && result->Err_0@ == ErrorView::ParsingError(
                unencodable_message(),
            ),
        },
{
    let rows = history_rows(history);
    match encode_rows(&rows) {
        Some(bytes) => Ok(bytes),
        None => Err(Error::ParsingError("Conversation history could not be encoded".to_owned())),
    }
}

/// Reads a history from the binary encoding, or gives a parsing error
/// where the bytes hold none.
pub fn history_from_postcard(bytes: &[u8]) -> (result: Result<Vec<ChatMessage>, Error>)
    ensures
        match postcard_history(bytes@) {
            Some(history) => result is Ok && history_view(result->Ok_0@) == history,
            None => result is Err && result->Err_0@ == ErrorView::ParsingError(
                undecodable_message(),
            ),
        },
{
    let found = match decode_rows(bytes) {
        Some(rows) => history_from_rows(rows),
        None => None,
    };
    match found {
        Some(history) => Ok(history),
        None => Err(Error::ParsingError("Conversation history could not be decoded".to_owned())),
    }
}

/// The JSON object that a function call is stored as, where its texts can
/// be written.
pub open spec fn call_json(call: FunctionCallView) -> Option<Seq<char>> {
    match (json_quoted(call.name), json_quoted(call.arguments)) {
        (Some(name), Some(arguments)) => Some(
            "{\"name\":"@ + name + ",\"arguments\":"@ + arguments + "}"@,
        ),
        _ => None,
    }
}

/// The JSON object that a message is stored as: its role by name, its
/// content, and its function call where it has one.
pub open spec fn message_json(message: ChatMessageView) -> Option<Seq<char>> {
    match json_quoted(message.content) {
        Some(content) => {
            let head = "{\"role\":\""@ + role_name(message.role) + "\",\"content\":"@ + content;
            match message.function_call {
                Some(call) => match call_json(call) {
                    Some(written) => Some(head + ",\"function_call\":"@ + written + "}"@),
                    None => None,
                },
                None => Some(head + "}"@),
            }
        },
        None => None,
    }
}

/// The objects of the messages of a history, in its order, with a comma
/// between one and the next.
pub open spec fn messages_json(history: Seq<ChatMessageView>) -> Option<Seq<char>>
    decreases history.len(),
{
    if history.len() == 0 {
        Some(Seq::empty())
    } else {
        match (messages_json(history.drop_last()), message_json(history.last())) {
            (Some(before), Some(last)) => if history.len() == 1 {
                Some(last)
            } else {
                Some(before + ","@ + last)
            },
            _ => None,
        }
    }
}

/// The JSON text that a history is stored as: the array of its messages.
pub open spec fn history_json(history: Seq<ChatMessageView>) -> Option<Seq<char>> {
    match messages_json(history) {
        Some(inner) => Some("["@ + inner + "]"@),
        None => None,
    }
}

fn write_call(call: &FunctionCall) -> (text: Option<String>)
    ensures
        match text {
            Some(written) => call_json(call@) == Some(written@),
            None => call_json(call@) is None,
        },
{
    match (quote(call.name.as_str()), quote(call.arguments.as_str())) {
        (Some(name), Some(arguments)) => Some(
            "{\"name\":".to_owned().concat(name.as_str()).concat(",\"arguments\":").concat(
                arguments.as_str(),
            ).concat("}"),
        ),
        _ => None,
    }
}

/// Writes the JSON object of a message; `None` where one of its texts
/// cannot be written.
pub fn write_message(message: &ChatMessage) -> (text: Option<String>)
    ensures
        match text {
            Some(written) => message_json(message@) == Some(written@),
            None => message_json(message@) is None,
        },
{
    match quote(message.content.as_str()) {
        Some(content) => {
            let head = "{\"role\":\"".to_owned().concat(message.role.name()).concat(
                "\",\"content\":",
            ).concat(content.as_str());
            match &message.function_call {
                Some(call) => match write_call(call) {
                    Some(written) => Some(
                        head.concat(",\"function_call\":").concat(written.as_str()).concat("}"),
                    ),
                    None => None,
                },
                None => Some(head.concat("}")),
            }
        },
        None => None,
    }
}

/// Writes a history as a JSON text, or gives a parsing error where one of
/// its texts cannot be written.
pub fn history_to_json(history: &Vec<ChatMessage>) -> (result: Result<String, Error>)
    ensures
        match history_json(history_view(history@)) {
            Some(text) => result is Ok && result->Ok_0@ == text,
            None => result is Err && result->Err_0@ == ErrorView::ParsingError(
                unencodable_message(),
            ),
        },
{
    let ghost all = history_view(history@);
    let mut inner = String::new();
    let mut done: usize = 0;
    assert(all.take(0) =~= Seq::empty());
    while done < history.len()
        invariant
            done <= history@.len(),
            all == history_view(history@),
            messages_json(all.take(done as int)) == Some(inner@),
        decreases history@.len() - done,
    {
        proof {
            let upto = all.take(done + 1);
            assert(upto.drop_last() =~= all.take(done as int));
            assert(upto.last() == history@[done as int]@);
        }
        match write_message(&history[done]) {
            Some(written) => {
                if done > 0 {
                    inner.append(",");
                }
                inner.append(written.as_str());
            },
            None => {
                proof {
                    lemma_unwritten_stays(all, done + 1);
                }
                return Err(
                    Error::ParsingError("Conversation history could not be encoded".to_owned()),
                );
            },
        }
        done += 1;
    }
    assert(all.take(done as int) =~= all);
    Ok("[".to_owned().concat(inner.as_str()).concat("]"))
}

/// Where the beginning of a history cannot be written, the history cannot.
pub proof fn lemma_unwritten_stays(history: Seq<ChatMessageView>, upto: int)
    requires
        0 <= upto <= history.len(),
        messages_json(history.take(upto)) is None,
    ensures
        messages_json(history) is None,
    decreases history.len() - upto,
{
    if upto < history.len() {
        assert(history.take(upto + 1).drop_last() =~= history.take(upto));
        lemma_unwritten_stays(history, upto + 1);
    } else {
        assert(history.take(upto) =~= history);
    }
}

/// The function call that a JSON value stands for: an object with the
/// texts `name` and `arguments`.
pub open spec fn call_of_value(value: serde_json::Value) -> Option<FunctionCallView> {
    match (member_text(value, "name"@), member_text(value, "arguments"@)) {
        (Some(name), Some(arguments)) => Some(FunctionCallView { name, arguments }),
        _ => None,
    }
}

/// The function call that the member `function_call` of a message stands
/// for: none where the member is missing or `null`. The outer `None` is for
/// a member that is neither that nor a function call.
pub open spec fn call_of_message(value: serde_json::Value) -> Option<Option<FunctionCallView>> {
    match json_member(value, "function_call"@) {
        Some(call) => if json_is_null(call) {
            Some(None)
        } else {
            match call_of_value(call) {
                Some(read) => Some(Some(read)),
                None => None,
            }
        },
        None => Some(None),
    }
}

/// The message that a JSON value stands for: an object with the name of a
/// role under `role`, a text under `content` and, where it has the member,
/// a function call.
pub open spec fn message_of_value(value: serde_json::Value) -> Option<ChatMessageView> {
    match (member_text(value, "role"@), member_text(value, "content"@), call_of_message(value)) {
        (Some(role), Some(content), Some(function_call)) => match role_named(role) {
            Some(role) => Some(ChatMessageView { role, content, function_call }),
            None => None,
        },
        _ => None,
    }
}

/// The history that JSON values stand for, where each of them stands for a
/// message.
pub open spec fn history_of_values(items: Seq<serde_json::Value>) -> Option<Seq<ChatMessageView>> {
    if forall|i: int| 0 <= i < items.len() ==> (#[trigger] message_of_value(items[i])) is Some {
        Some(Seq::new(items.len(), |i: int| message_of_value(items[i])->0))
    } else {
        None
    }
}

/// The history that a JSON text holds: the text is an array, and each of
/// its elements stands for a message.
pub open spec fn json_history(text: Seq<u8>) -> Option<Seq<ChatMessageView>> {
    match json_parsed(text) {
        Some(document) => match json_elements(document) {
            Some(items) => history_of_values(items),
            None => None,
        },
        None => None,
    }
}

fn read_call(value: &serde_json::Value) -> (call: Option<FunctionCall>)
    ensures
        match call {
            Some(read) => call_of_value(*value) == Some(read@),
            None => call_of_value(*value) is None,
        },
{
    match (read_member_text(value, "name"), read_member_text(value, "arguments")) {
        (Some(name), Some(arguments)) => Some(
            FunctionCall { name: name.to_owned(), arguments: arguments.to_owned() },
        ),
        _ => None,
    }
}

fn read_call_of_message(value: &serde_json::Value) -> (call: Option<Option<FunctionCall>>)
    ensures
        match call {
            Some(Some(read)) => call_of_message(*value) == Some(Some(read@)),
            Some(None) => call_of_message(*value) == Some(None::<FunctionCallView>),
            None => call_of_message(*value) is None,
        },
{
    match member(value, "function_call") {
        Some(call) => if is_null(call) {
            Some(None)
        } else {
            match read_call(call) {
                Some(read) => Some(Some(read)),
                None => None,
            }
        },
        None => Some(None),
    }
}

/// Reads a message from a JSON value; `None` where the value stands for
/// none.
pub fn read_message(value: &serde_json::Value) -> (message: Option<ChatMessage>)
    ensures
        match message {
            Some(read) => message_of_value(*value) == Some(read@),
            None => message_of_value(*value) is None,
        },
{
    let role = match read_member_text(value, "role") {
        Some(name) => Role::from_name(name),
        None => None,
    };
    let content = read_member_text(value, "content");
    let call = read_call_of_message(value);
    match (role, content, call) {
        (Some(role), Some(content), Some(function_call)) => Some(
            ChatMessage { role, content: content.to_owned(), function_call },
        ),
        _ => None,
    }
}

/// Reads a history from a JSON text, or gives a parsing error where the
/// text holds none.
pub fn history_from_json(text: &[u8]) -> (result: Result<Vec<ChatMessage>, Error>)
    ensures
        match json_history(text@) {
            Some(history) => result is Ok && history_view(result->Ok_0@) == history,
            None => result is Err && result->Err_0@ == ErrorView::ParsingError(
                undecodable_message(),
            ),
        },
{
    let document = match parse(text) {
        Some(document) => document,
        None => {
            return Err(undecodable());
        },
    };
    let items = match elements(&document) {
        Some(items) => items,
        None => {
            return Err(undecodable());
        },
    };
    let mut history: Vec<ChatMessage> = Vec::new();
    let mut done: usize = 0;
    while done < items.len()
        invariant
            done <= items@.len(),
            history@.len() == done,
            json_history(text@) == history_of_values(items@),
            forall|i: int|
                0 <= i < done ==> message_of_value(items@[i]) == Some(#[trigger] history@[i]@),
        decreases items@.len() - done,
    {
        match read_message(&items[done]) {
            Some(message) => {
                history.push(message);
            },
            None => {
                assert(message_of_value(items@[done as int]) is None);
                return Err(undecodable());
            },
        }
        done += 1;
    }
    assert forall|i: int| 0 <= i < items@.len() implies (#[trigger] message_of_value(items@[i]))
        == Some(history@[i]@) by {}
    assert(history_of_values(items@)->0 =~= history_view(history@));
    Ok(history)
}

/// The error for stored bytes that hold no history.
pub fn undecodable() -> (error: Error)
    ensures
        error@ == ErrorView::ParsingError(undecodable_message()),
{
    Error::ParsingError("Conversation history could not be decoded".to_owned())
}

} // verus!
