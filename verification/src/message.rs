//! The `Message` record, the only entity of the service.

use vstd::prelude::*;

verus! {

/// What a [`Message`] is, as mathematical values.
pub struct MessageView {
    /// The identifier that the store gave the record when it was created.
    pub id: Seq<char>,
    /// The payload, the only field that can change.
    pub text: Seq<char>,
}

/// A record of the store: an identifier and a text.
#[derive(Debug, Clone, PartialEq, Eq)]
pub struct Message {
    id: String,
    text: String,
}

impl View for Message {
    type V = MessageView;

    closed spec fn view(&self) -> MessageView {
        MessageView { id: self.id@, text: self.text@ }
    }
}

impl Message {
    /// Makes the record with the given identifier and text.
    pub fn new(id: String, text: String) -> (m: Message)
        ensures
            m@ == (MessageView { id: id@, text: text@ }),
    {
        Message { id, text }
    }

    /// The identifier.
    pub fn id(&self) -> (r: &str)
        ensures
            r@ == self@.id,
    {
        self.id.as_str()
    }

    /// The text.
    pub fn text(&self) -> (r: &str)
        ensures
            r@ == self@.text,
    {
        self.text.as_str()
    }
}

/// The views of a sequence of records, in the same order.
pub open spec fn views(messages: Seq<Message>) -> Seq<MessageView> {
    messages.map_values(|m: Message| m@)
}

} // verus!
