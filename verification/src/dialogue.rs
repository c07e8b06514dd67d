//! A multi-turn dialogue against one model: the history bookkeeping of
//! the turn loop.
//!
//! A turn first computes the messages to send — the history plus the
//! pending user message — without touching the history; only a
//! successful reply commits the pending message and the reply together.
//! A failed turn therefore leaves the history exactly as it was, and
//! the caller can retry it without corrupting state.

use vstd::prelude::*;

pub use crate::conversation::Message;
use crate::conversation::MessageView;
use crate::types::common::Role;

verus! {

/// A dialogue: the model spoken to and the messages exchanged so far.
#[derive(Clone, Debug, PartialEq)]
pub struct Dialogue {
    model: String,
    messages: Vec<Message>,
}

impl Dialogue {
    /// The identifier of the model this dialogue speaks to.
    pub closed spec fn spec_model(&self) -> Seq<char> {
        self.model@
    }

    /// The history so far.
    pub closed spec fn history(&self) -> Seq<MessageView> {
        self.messages.deep_view()
    }

    /// An empty dialogue against the given model.
    pub fn new(model: &str) -> (d: Dialogue)
        ensures
            d.spec_model() == model@,
            d.history() == Seq::<MessageView>::empty(),
    {
        let d = Dialogue { model: String::from_str(model), messages: Vec::new() };
        proof {
            assert(d.history() =~= Seq::<MessageView>::empty());
        }
        d
    }

    /// The model identifier, for building the request path.
    pub fn model(&self) -> (r: &String)
        ensures
            r@ == self.spec_model(),
    {
        &self.model
    }

    /// The messages of one turn: the history followed by the pending
    /// user message.  The history itself is not touched.
    pub fn turn_messages(&self, message: &str) -> (v: Vec<Message>)
        ensures
            v.deep_view() == self.history().push(
                MessageView { role: Role::User, text: message@ },
            ),
    {
        let mut v: Vec<Message> = Vec::new();
        let n = self.messages.len();
        let mut i: usize = 0;
        while i < n
            invariant
                i <= n,
                n == self.messages@.len(),
                v@.len() == i,
                forall|k: int|
                    0 <= k < i ==> #[trigger] v@[k].deep_view() == self.messages@[k].deep_view(),
            decreases n - i,
        {
            let m = &self.messages[i];
            v.push(Message { role: m.role, text: m.text.clone() });
            i = i + 1;
        }
        v.push(Message::new(Role::User, message));
        proof {
            assert(v.deep_view() =~= self.history().push(
                MessageView { role: Role::User, text: message@ },
            ));
        }
        v
    }

    /// Commits one successful turn: the pending user message and the
    /// model's reply enter the history together.
    pub fn commit_turn(&mut self, message: &str, reply: Message)
        ensures
            final(self).spec_model() == old(self).spec_model(),
            final(self).history() == old(self).history().push(
                MessageView { role: Role::User, text: message@ },
            ).push(reply.deep_view()),
    {
        let user = Message::new(Role::User, message);
        let ghost uv = user.deep_view();
        self.messages.push(user);
        self.messages.push(reply);
        proof {
            assert(self.history() =~= old(self).history().push(uv).push(reply.deep_view()));
        }
    }
}

} // verus!
