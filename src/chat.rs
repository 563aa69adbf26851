//! Chat request shapes, their defaults, and the check on an outgoing message.

use vstd::prelude::*;
use crate::errors::ChatError;
use crate::validation::byte_len;

verus! {

/// Longest accepted chat message, in bytes.
pub const MAX_MESSAGE_LEN: usize = 10000;

/// Author of a chat message.
#[derive(Clone, Copy, Debug, PartialEq, Eq, Structural)]
pub enum MessageRole {
    User,
    Assistant,
    System,
}

/// Query of the conversation listing.
#[derive(Clone, Debug)]
pub struct ListConversationsQuery {
    pub limit: i32,
    pub cursor: Option<String>,
}

/// Page size of a conversation listing when the caller gives none.
pub fn default_limit() -> (r: i32)
    ensures
        r == 20,
{
    20
}

/// Number of messages returned with a conversation when the caller gives none.
pub fn default_message_limit() -> (r: i32)
    ensures
        r == 100,
{
    100
}

/// Retrieval-augmented generation is on unless the caller turns it off.
pub fn default_use_rag() -> (r: bool)
    ensures
        r,
{
    true
}

/// Generation length limit when the caller gives none.
pub fn default_max_tokens() -> (r: i32)
    ensures
        r == 1000,
{
    1000
}

/// Checks a message before it is forwarded: it may not be empty, nor longer
/// than 10000 bytes.
pub fn validate_chat_message(message: &str) -> (r: Result<(), ChatError>)
    ensures
        message@.len() == 0 ==> (r matches Err(ChatError::InvalidMessage(m)) && m@ == "Message cannot be empty"@),
        message@.len() > 0 && byte_len(message@) > MAX_MESSAGE_LEN ==> r == Err::<(), ChatError>(
            ChatError::MessageTooLong(byte_len(message@), MAX_MESSAGE_LEN),
        ),
        message@.len() > 0 && byte_len(message@) <= MAX_MESSAGE_LEN ==> r is Ok,
{
    if message.is_empty() {
        return Err(ChatError::InvalidMessage("Message cannot be empty".to_owned()));
    }
    let len = message.len();
    if len > MAX_MESSAGE_LEN {
        return Err(ChatError::MessageTooLong(len, MAX_MESSAGE_LEN));
    }
    Ok(())
}

} // verus!
