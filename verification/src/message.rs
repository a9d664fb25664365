use vstd::prelude::*;

use crate::ast::{Expr, Literal};

verus! {

/// A value the conversation remembers.
#[derive(Clone, Debug, PartialEq, Eq)]
pub struct Memory {
    pub key: String,
    pub value: Literal,
}

/// A message sent to the user: its kind, and the expression it renders.
#[derive(Debug, PartialEq, Eq)]
pub struct Message<'a> {
    pub content_type: String,
    pub content: &'a Expr,
}

/// The mathematical value of a message.
pub struct MessageView {
    pub content_type: Seq<char>,
    pub content: Expr,
}

impl<'a> View for Message<'a> {
    type V = MessageView;

    open spec fn view(&self) -> MessageView {
        MessageView { content_type: self.content_type@, content: *self.content }
    }
}

/// What one instruction of a script produces.
#[derive(Debug, PartialEq, Eq)]
pub enum MessageType<'a> {
    Msg(Message<'a>),
    Msgs(Vec<Message<'a>>),
    Empty,
}

/// The mathematical value of a `MessageType`.
pub enum MessageTypeView {
    Msg(MessageView),
    Msgs(Seq<MessageView>),
    Empty,
}

pub open spec fn messages_view<'a>(v: Seq<Message<'a>>) -> Seq<MessageView> {
    v.map_values(|m: Message<'a>| m@)
}

impl<'a> View for MessageType<'a> {
    type V = MessageTypeView;

    open spec fn view(&self) -> MessageTypeView {
        match self {
            MessageType::Msg(m) => MessageTypeView::Msg(m@),
            MessageType::Msgs(v) => MessageTypeView::Msgs(messages_view(v@)),
            MessageType::Empty => MessageTypeView::Empty,
        }
    }
}

/// The outcome of running a block: what to remember, the messages to send,
/// and where the conversation goes next.
#[derive(Debug, PartialEq, Eq)]
pub struct RootInterface<'a> {
    pub remember: Option<Vec<Memory>>,
    pub message: Vec<Message<'a>>,
    pub next_flow: Option<String>,
    pub next_step: Option<String>,
}

/// The mathematical value of a `RootInterface`.
pub struct RootView {
    pub remember: Option<Seq<Memory>>,
    pub message: Seq<MessageView>,
    pub next_flow: Option<Seq<char>>,
    pub next_step: Option<Seq<char>>,
}

pub open spec fn string_option_view(o: Option<String>) -> Option<Seq<char>> {
    match o {
        Some(s) => Some(s@),
        None => None,
    }
}

/// Of two optional values, the second where it is present, else the first.
pub open spec fn latest<T>(a: Option<T>, b: Option<T>) -> Option<T> {
    match b {
        Some(x) => Some(x),
        None => a,
    }
}

/// Two optional lists joined: absent only where both are absent.
pub open spec fn join_memories(a: Option<Seq<Memory>>, b: Option<Seq<Memory>>) -> Option<Seq<Memory>> {
    match (a, b) {
        (Some(x), Some(y)) => Some(x + y),
        (Some(x), None) => Some(x),
        (None, y) => y,
    }
}

impl RootView {
    pub open spec fn empty() -> RootView {
        RootView { remember: None, message: Seq::empty(), next_flow: None, next_step: None }
    }

    /// The result of running one block after another.
    pub open spec fn merge(self, other: RootView) -> RootView {
        RootView {
            remember: join_memories(self.remember, other.remember),
            message: self.message + other.message,
            next_flow: latest(self.next_flow, other.next_flow),
            next_step: latest(self.next_step, other.next_step),
        }
    }

    /// The root with what one instruction produced added to its messages.
    pub open spec fn with_output(self, out: MessageTypeView) -> RootView {
        match out {
            MessageTypeView::Msg(m) => RootView { message: self.message.push(m), ..self },
            MessageTypeView::Msgs(ms) => RootView { message: self.message + ms, ..self },
            MessageTypeView::Empty => self,
        }
    }

    /// The root with its next step set.
    pub open spec fn with_next_step(self, step: Seq<char>) -> RootView {
        RootView { next_step: Some(step), ..self }
    }
}

impl<'a> View for RootInterface<'a> {
    type V = RootView;

    open spec fn view(&self) -> RootView {
        RootView {
            remember: match self.remember {
                Some(v) => Some(v@),
                None => None,
            },
            message: messages_view(self.message@),
            next_flow: string_option_view(self.next_flow),
            next_step: string_option_view(self.next_step),
        }
    }
}

impl<'a> Message<'a> {
    /// A message of the given kind rendering the given expression.
    pub fn new(expr: &'a Expr, content_type: String) -> (r: Message<'a>)
        ensures
            r@ == (MessageView { content_type: content_type@, content: *expr }),
    {
        Message { content_type, content: expr }
    }
}

impl<'a> RootInterface<'a> {
    /// A root with nothing in it.
    pub fn empty() -> (r: RootInterface<'a>)
        ensures
            r@ == RootView::empty(),
    {
        let r = RootInterface { remember: None, message: Vec::new(), next_flow: None, next_step: None };
        assert(r@.message =~= Seq::<MessageView>::empty());
        r
    }

    /// Appends a message.
    pub fn add_message(&mut self, msg: Message<'a>)
        ensures
            final(self)@ == old(self)@.with_output(MessageTypeView::Msg(msg@)),
    {
        self.message.push(msg);
        assert(messages_view(self.message@) =~= messages_view(old(self).message@).push(msg@));
    }

    /// Sets the step the conversation goes to next.
    pub fn add_next_step(&mut self, step: &str)
        ensures
            final(self)@ == old(self)@.with_next_step(step@),
    {
        self.next_step = Some(step.to_owned());
    }

    /// Adds what one instruction produced.
    pub fn add_output(&mut self, out: MessageType<'a>)
        ensures
            final(self)@ == old(self)@.with_output(out@),
    {
        match out {
            MessageType::Msg(msg) => self.add_message(msg),
            MessageType::Msgs(mut msgs) => {
                let ghost added = msgs@;
                self.message.append(&mut msgs);
                assert(messages_view(self.message@) =~= messages_view(old(self).message@) + messages_view(added));
            },
            MessageType::Empty => {},
        }
    }

    /// The root of a block followed by the root of another block: messages
    /// and memories are concatenated; the later block's next step and next
    /// flow take precedence where it sets them.
    pub fn merge(self, other: RootInterface<'a>) -> (r: RootInterface<'a>)
        ensures
            r@ == self@.merge(other@),
    {
        let ghost a = self@;
        let ghost b = other@;
        let mut message = self.message;
        let mut other_message = other.message;
        let ghost m1 = message@;
        let ghost m2 = other_message@;
        message.append(&mut other_message);
        assert(messages_view(message@) =~= messages_view(m1) + messages_view(m2));
        let remember = match (self.remember, other.remember) {
            (Some(mut x), Some(mut y)) => {
                x.append(&mut y);
                Some(x)
            },
            (Some(x), None) => Some(x),
            (None, y) => y,
        };
        let next_flow = match other.next_flow {
            Some(f) => Some(f),
            None => self.next_flow,
        };
        let next_step = match other.next_step {
            Some(s) => Some(s),
            None => self.next_step,
        };
        RootInterface { remember, message, next_flow, next_step }
    }
}

/// The empty root is neutral for `merge`, on either side.
pub proof fn lemma_merge_identity(r: RootView)
    ensures
        RootView::empty().merge(r) == r,
        r.merge(RootView::empty()) == r,
{
    assert(RootView::empty().merge(r).message =~= r.message);
    assert(r.merge(RootView::empty()).message =~= r.message);
}

/// Merging roots is associative.
pub proof fn lemma_merge_associative(a: RootView, b: RootView, c: RootView)
    ensures
        a.merge(b).merge(c) == a.merge(b.merge(c)),
{
    assert(a.merge(b).merge(c).message =~= a.merge(b.merge(c)).message);
    match (a.remember, b.remember, c.remember) {
        (Some(x), Some(y), Some(z)) => {
            assert((x + y) + z =~= x + (y + z));
        },
        _ => {},
    }
}

} // verus!
