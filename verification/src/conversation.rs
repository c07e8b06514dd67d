//! A running conversation: an ordered history of messages.

use vstd::prelude::*;

pub use crate::types::common::Role;

verus! {

/// One message of a conversation.
#[derive(Clone, Debug, PartialEq)]
pub struct Message {
    pub role: Role,
    pub text: String,
}

/// Mathematical image of [`Message`].
pub ghost struct MessageView {
    pub role: Role,
    pub text: Seq<char>,
}

impl DeepView for Message {
    type V = MessageView;

    open spec fn deep_view(&self) -> MessageView {
        MessageView { role: self.role, text: self.text.deep_view() }
    }
}

impl Message {
    /// A message with the given author and text.
    pub fn new(role: Role, text: &str) -> (m: Message)
        ensures
            m.role == role,
            m.text@ == text@,
    {
        Message { role, text: String::from_str(text) }
    }
}

/// An ordered message history.
#[derive(Clone, Debug, PartialEq)]
pub struct Conversation {
    pub messages: Vec<Message>,
}

impl Conversation {
    /// An empty history.
    pub fn new() -> (c: Conversation)
        ensures
            c.messages@.len() == 0,
    {
        Conversation { messages: Vec::new() }
    }

    /// Appends one message to the history.
    pub fn push_message(&mut self, message: Message)
        ensures
            final(self).messages@ == old(self).messages@.push(message),
    {
        self.messages.push(message);
    }
}

} // verus!
