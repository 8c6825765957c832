//! Records exchanged with the chat-completion endpoint.

use vstd::prelude::*;

verus! {

/// The endpoint, relative to the base address.
pub const API: &'static str = "/v1/chat/completions";

/// The view of an optional piece of text.
pub open spec fn opt_text(o: Option<String>) -> Option<Seq<char>> {
    match o {
        Some(s) => Some(s@),
        None => None,
    }
}

/// One message of a conversation.
#[derive(Debug)]
pub struct Message {
    pub role: String,
    pub content: String,
}

/// One alternative of a whole reply.
#[derive(Debug)]
pub struct Choice {
    pub index: u32,
    pub message: Message,
    pub finish_reason: String,
}

/// Token accounting of a whole reply.
#[derive(Debug)]
pub struct Usage {
    pub prompt_tokens: u16,
    pub completion_tokens: u16,
    pub total_tokens: u16,
}

/// A reply that arrived in one piece.
#[derive(Debug)]
pub struct ChatGPTResponse {
    pub id: String,
    pub object: String,
    pub model: String,
    pub created: u64,
    pub choices: Vec<Choice>,
    pub usage: Usage,
}

/// What one streamed frame adds to the reply.
#[derive(Debug, Clone)]
pub struct MessageChunkChoiceDelta {
    pub role: Option<String>,
    pub content: Option<String>,
}

/// One alternative within a streamed frame.
#[derive(Debug, Clone)]
pub struct MessageChunkChoice {
    pub delta: MessageChunkChoiceDelta,
    pub index: u8,
    pub finish_reason: Option<String>,
}

/// One decoded frame of a streamed reply.
#[derive(Debug, Clone)]
pub struct MessageChunk {
    pub id: String,
    pub object: String,
    pub created: u64,
    pub model: String,
    pub choices: Vec<MessageChunkChoice>,
}

/// A delta frame as plain values: role, text fragment and finish reason of
/// its first alternative, and the time the service reports.
pub struct Delta {
    pub role: Option<Seq<char>>,
    pub content: Option<Seq<char>>,
    pub finish_reason: Option<Seq<char>>,
    pub created: u64,
}

impl MessageChunk {
    /// Whether the frame carries at least one alternative.
    pub open spec fn has_delta(self) -> bool {
        self.choices@.len() > 0
    }

    /// The frame's delta: that of its first alternative.
    pub open spec fn delta(self) -> Delta
        recommends
            self.has_delta(),
    {
        Delta {
            role: opt_text(self.choices@[0].delta.role),
            content: opt_text(self.choices@[0].delta.content),
            finish_reason: opt_text(self.choices@[0].finish_reason),
            created: self.created,
        }
    }

    /// The text fragment of the frame's first alternative, if it has one.
    pub fn fragment(&self) -> (r: Option<&String>)
        ensures
            self.has_delta() ==> opt_text_ref(r) == self.delta().content,
            !self.has_delta() ==> r is None,
    {
        if self.choices.len() > 0 {
            match &self.choices[0].delta.content {
                Some(text) => Some(text),
                None => None,
            }
        } else {
            None
        }
    }
}

/// The view of an optional borrowed piece of text.
pub open spec fn opt_text_ref(o: Option<&String>) -> Option<Seq<char>> {
    match o {
        Some(s) => Some(s@),
        None => None,
    }
}

/// The text of the last message of a conversation, which is the one
/// being sent.
pub fn outbound_text(messages: &Vec<Message>) -> (r: Option<&String>)
    ensures
        messages.len() == 0 ==> r is None,
        messages.len() > 0 ==> r == Some(&messages[messages.len() - 1].content),
{
    if messages.len() > 0 {
        Some(&messages[messages.len() - 1].content)
    } else {
        None
    }
}

impl ChatGPTResponse {
    /// The reply that the response carries: the message of its first
    /// alternative.
    pub fn reply(&self) -> (r: Option<&Message>)
        ensures
            self.choices.len() == 0 ==> r is None,
            self.choices.len() > 0 ==> r == Some(&self.choices[0].message),
    {
        if self.choices.len() > 0 {
            Some(&self.choices[0].message)
        } else {
            None
        }
    }
}

} // verus!
