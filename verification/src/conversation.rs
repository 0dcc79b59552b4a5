//! The conversation of a session as handed to the front end, the name of a
//! session's log file, and the greeting command.
use vstd::prelude::*;

verus! {

/// Individual message in a conversation.
#[derive(Clone, Debug)]
pub struct ConversationMessage {
    pub timestamp: String,
    /// The kind of message (who or what produced it), as the session log
    /// names it.
    pub message_type: String,
    pub content: String,
}

/// Conversation structure for the frontend.
#[derive(Clone, Debug)]
pub struct Conversation {
    pub session_id: String,
    pub messages: Vec<ConversationMessage>,
}

/// The message built from a `(timestamp, kind, content)` triple.
pub open spec fn message_from(entry: (String, String, String)) -> ConversationMessage {
    ConversationMessage { timestamp: entry.0, message_type: entry.1, content: entry.2 }
}

/// A message keeps each part of its triple in its own field: the first part
/// is the timestamp, the second the kind, the third the content.
pub proof fn lemma_message_fields(entry: (String, String, String))
    ensures
        message_from(entry).timestamp == entry.0,
        message_from(entry).message_type == entry.1,
        message_from(entry).content == entry.2,
{
}

/// The conversation of `session_id` made of `messages`, in order, each a
/// `(timestamp, kind, content)` triple.
pub fn build_conversation(session_id: String, messages: &Vec<(String, String, String)>) -> (r:
    Conversation)
    ensures
        r.session_id == session_id,
        r.messages@.len() == messages@.len(),
        forall|i: int| 0 <= i < messages@.len() ==> #[trigger] r.messages@[i] == message_from(messages@[i]),
{
    let mut out: Vec<ConversationMessage> = Vec::new();
    let mut i: usize = 0;
    while i < messages.len()
        invariant
            i <= messages@.len(),
            out@.len() == i,
            forall|j: int| 0 <= j < i ==> #[trigger] out@[j] == message_from(messages@[j]),
        decreases messages@.len() - i,
    {
        let entry = &messages[i];
        out.push(
            ConversationMessage {
                timestamp: entry.0.clone(),
                message_type: entry.1.clone(),
                content: entry.2.clone(),
            },
        );
        i = i + 1;
    }
    Conversation { session_id, messages: out }
}

/// The log file of a session: `<session_id>.jsonl`.
pub fn session_file_name(session_id: &str) -> (r: String)
    ensures
        r@ == session_id@ + ".jsonl"@,
{
    let mut r = String::from_str(session_id);
    r.append(".jsonl");
    r
}

/// The error reported when no project directory holds the session's log.
pub fn session_not_found(session_id: &str) -> (r: String)
    ensures
        r@ == "Session "@ + session_id@ + " not found in any project directory"@,
{
    let mut r = String::from_str("Session ");
    r.append(session_id);
    r.append(" not found in any project directory");
    r
}

/// The greeting for `name`.
pub fn greet(name: &str) -> (r: String)
    ensures
        r@ == "Hello, "@ + name@ + "! You've been greeted from Rust!"@,
{
    let mut r = String::from_str("Hello, ");
    r.append(name);
    r.append("! You've been greeted from Rust!");
    r
}

} // verus!
