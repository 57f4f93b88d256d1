//! Prompt plumbing: the argument mapping handed to a chain, prompt
//! templates, and the message formatter built by the agents.

use vstd::prelude::*;

verus! {

use vstd::string::StringExecFns;
use crate::schemas::{Message, MessageView};
use crate::text::str_eq;

pub enum PromptValueView {
    Text(Seq<char>),
    Messages(Seq<MessageView>),
}

/// One value of the argument mapping: plain text, or a list of messages
/// bound to a placeholder.
pub enum PromptValue {
    Text(String),
    Messages(Vec<Message>),
}

impl View for PromptValue {
    type V = PromptValueView;

    open spec fn view(&self) -> PromptValueView {
        match self {
            PromptValue::Text(s) => PromptValueView::Text(s@),
            PromptValue::Messages(ms) => PromptValueView::Messages(
                ms@.map_values(|m: Message| m@),
            ),
        }
    }
}

impl PromptValue {
    pub fn duplicate(&self) -> (r: Self)
        ensures
            r@ == self@,
    {
        match self {
            PromptValue::Text(s) => PromptValue::Text(s.clone()),
            PromptValue::Messages(ms) => {
                let mut out: Vec<Message> = Vec::new();
                let mut i: usize = 0;
                while i < ms.len()
                    invariant
                        0 <= i <= ms@.len(),
                        out@.len() == i,
                        forall|k: int| 0 <= k < i ==> out@[k]@ == ms@[k]@,
                    decreases ms@.len() - i,
                {
                    out.push(ms[i].duplicate());
                    i += 1;
                }
                proof {
                    assert(out@.map_values(|m: Message| m@) =~= ms@.map_values(
                        |m: Message| m@,
                    ));
                }
                PromptValue::Messages(out)
            },
        }
    }
}

/// The value bound to `key`, with a later binding shadowing an earlier one.
pub open spec fn args_lookup(
    entries: Seq<(Seq<char>, PromptValueView)>,
    key: Seq<char>,
) -> Option<PromptValueView>
    decreases entries.len(),
{
    if entries.len() == 0 {
        None
    } else if entries.last().0 == key {
        Some(entries.last().1)
    } else {
        args_lookup(entries.drop_last(), key)
    }
}

/// The argument mapping handed to a chain call: an ordered list of
/// key-value bindings where the latest binding for a key wins.
pub struct PromptArgs {
    pub entries: Vec<(String, PromptValue)>,
}

impl View for PromptArgs {
    type V = Seq<(Seq<char>, PromptValueView)>;

    open spec fn view(&self) -> Seq<(Seq<char>, PromptValueView)> {
        self.entries@.map_values(|e: (String, PromptValue)| (e.0@, e.1@))
    }
}

impl PromptArgs {
    pub fn new() -> (r: Self)
        ensures
            r@ == Seq::<(Seq<char>, PromptValueView)>::empty(),
    {
        let r = PromptArgs { entries: Vec::new() };
        proof {
            assert(r@ =~= Seq::<(Seq<char>, PromptValueView)>::empty());
        }
        r
    }

    /// Binds `key` to `value`, shadowing any earlier binding.
    pub fn insert(&mut self, key: &str, value: PromptValue)
        ensures
            final(self)@ == old(self)@.push((key@, value@)),
    {
        let ghost pre = self@;
        self.entries.push((String::from_str(key), value));
        proof {
            assert(self@ =~= pre.push((key@, value@)));
        }
    }

    /// The value bound to `key`, if any.
    pub fn get(&self, key: &str) -> (r: Option<&PromptValue>)
        ensures
            match r {
                Some(v) => args_lookup(self@, key@) == Some(v@),
                None => args_lookup(self@, key@) is None,
            },
    {
        let mut i = self.entries.len();
        proof {
            assert(self@.subrange(0, i as int) =~= self@);
        }
        while i > 0
            invariant
                0 <= i <= self.entries@.len(),
                args_lookup(self@, key@) == args_lookup(self@.subrange(0, i as int), key@),
            decreases i,
        {
            proof {
                let pre = self@.subrange(0, i as int);
                assert(pre.last() == (self.entries@[i - 1].0@, self.entries@[i - 1].1@));
                assert(pre.drop_last() =~= self@.subrange(0, i - 1));
            }
            if str_eq(self.entries[i - 1].0.as_str(), key) {
                return Some(&self.entries[i - 1].1);
            }
            i -= 1;
        }
        proof {
            assert(self@.subrange(0, 0) =~= Seq::<(Seq<char>, PromptValueView)>::empty());
        }
        None
    }

    /// Whether `key` is bound.
    pub fn contains_key(&self, key: &str) -> (r: bool)
        ensures
            r == (args_lookup(self@, key@) is Some),
    {
        match self.get(key) {
            Some(_) => true,
            None => false,
        }
    }

    pub fn duplicate(&self) -> (r: Self)
        ensures
            r@ == self@,
    {
        let mut out: Vec<(String, PromptValue)> = Vec::new();
        let mut i: usize = 0;
        while i < self.entries.len()
            invariant
                0 <= i <= self.entries@.len(),
                out@.len() == i,
                forall|k: int|
                    0 <= k < i ==> (out@[k].0@, out@[k].1@) == (
                        self.entries@[k].0@,
                        self.entries@[k].1@,
                    ),
            decreases self.entries@.len() - i,
        {
            let key = self.entries[i].0.clone();
            let value = self.entries[i].1.duplicate();
            out.push((key, value));
            i += 1;
        }
        let r = PromptArgs { entries: out };
        proof {
            assert(r@ =~= self@);
        }
        r
    }
}

pub struct PromptTemplateView {
    pub text: Seq<char>,
    pub variables: Seq<Seq<char>>,
}

/// A text template whose named variables are substituted by the renderer.
pub struct PromptTemplate {
    pub text: String,
    pub variables: Vec<String>,
}

impl View for PromptTemplate {
    type V = PromptTemplateView;

    open spec fn view(&self) -> PromptTemplateView {
        PromptTemplateView {
            text: self.text@,
            variables: self.variables@.map_values(|v: String| v@),
        }
    }
}

pub enum MessageOrTemplateView {
    Message(MessageView),
    Template(PromptTemplateView),
    MessagesPlaceholder(Seq<char>),
}

/// One entry of a message formatter: a fixed message, a templated message,
/// or a placeholder to be filled with a message list bound in the
/// arguments.
pub enum MessageOrTemplate {
    Message(Message),
    Template(PromptTemplate),
    MessagesPlaceholder(String),
}

impl View for MessageOrTemplate {
    type V = MessageOrTemplateView;

    open spec fn view(&self) -> MessageOrTemplateView {
        match self {
            MessageOrTemplate::Message(m) => MessageOrTemplateView::Message(m@),
            MessageOrTemplate::Template(t) => MessageOrTemplateView::Template(t@),
            MessageOrTemplate::MessagesPlaceholder(k) => MessageOrTemplateView::MessagesPlaceholder(
                k@,
            ),
        }
    }
}

/// The ordered plan of the prompt handed to the generation capability.
pub struct MessageFormatterStruct {
    pub items: Vec<MessageOrTemplate>,
}

impl View for MessageFormatterStruct {
    type V = Seq<MessageOrTemplateView>;

    open spec fn view(&self) -> Seq<MessageOrTemplateView> {
        self.items@.map_values(|i: MessageOrTemplate| i@)
    }
}

} // verus!
