//! The conversational-memory capability and its in-process implementation.

use vstd::prelude::*;

verus! {

use crate::schemas::{Message, MessageType, MessageView, plain_message_view};

/// A store for the running conversational transcript. The executor reads
/// it once on entry and appends exactly one user/assistant pair at the
/// finish transition.
pub trait BaseMemory {
    /// The transcript held by the store.
    spec fn history(&self) -> Seq<MessageView>;

    fn messages(&self) -> (r: Vec<Message>)
        ensures
            r@.map_values(|m: Message| m@) == self.history(),
    ;

    fn add_user_message(&mut self, message: &str)
        ensures
            final(self).history() == old(self).history().push(
                plain_message_view(MessageType::HumanMessage, message@),
            ),
    ;

    fn add_ai_message(&mut self, message: &str)
        ensures
            final(self).history() == old(self).history().push(
                plain_message_view(MessageType::AIMessage, message@),
            ),
    ;
}

/// An in-process transcript: an ordered list of messages.
pub struct SimpleMemory {
    pub messages: Vec<Message>,
}

impl SimpleMemory {
    pub fn new() -> (r: Self)
        ensures
            r.history() == Seq::<MessageView>::empty(),
    {
        let r = SimpleMemory { messages: Vec::new() };
        proof {
            assert(r.history() =~= Seq::<MessageView>::empty());
        }
        r
    }
}

impl BaseMemory for SimpleMemory {
    open spec fn history(&self) -> Seq<MessageView> {
        self.messages@.map_values(|m: Message| m@)
    }

    fn messages(&self) -> (r: Vec<Message>)
        ensures
            r@.map_values(|m: Message| m@) == self.history(),
    {
        let mut out: Vec<Message> = Vec::new();
        let mut i: usize = 0;
        while i < self.messages.len()
            invariant
                0 <= i <= self.messages@.len(),
                out@.len() == i,
                forall|k: int| 0 <= k < i ==> out@[k]@ == self.messages@[k]@,
            decreases self.messages@.len() - i,
        {
            out.push(self.messages[i].duplicate());
            i += 1;
        }
        proof {
            assert(out@.map_values(|m: Message| m@) =~= self.history());
        }
        out
    }

    fn add_user_message(&mut self, message: &str)
        ensures
            final(self).history() == old(self).history().push(
                plain_message_view(MessageType::HumanMessage, message@),
            ),
    {
        let ghost pre = self.history();
        self.messages.push(Message::new_human_message(message));
        proof {
            assert(self.history() =~= pre.push(
                plain_message_view(MessageType::HumanMessage, message@),
            ));
        }
    }

    fn add_ai_message(&mut self, message: &str)
        ensures
            final(self).history() == old(self).history().push(
                plain_message_view(MessageType::AIMessage, message@),
            ),
    {
        let ghost pre = self.history();
        self.messages.push(Message::new_ai_message(message));
        proof {
            assert(self.history() =~= pre.push(
                plain_message_view(MessageType::AIMessage, message@),
            ));
        }
    }
}

} // verus!
