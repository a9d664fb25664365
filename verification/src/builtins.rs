use vstd::prelude::*;

use crate::ast::Expr;
use crate::message::{Message, MessageType, MessageTypeView, MessageView};

verus! {

/// The content of a `Typing` message: its argument.
pub fn typing<'a>(args: &'a Expr) -> (r: &'a Expr)
    ensures
        *r == *args,
{
    args
}

/// The content of a `Wait` message: its argument.
pub fn wait<'a>(args: &'a Expr) -> (r: &'a Expr)
    ensures
        *r == *args,
{
    args
}

/// The content of a `Text` message: its argument.
pub fn text<'a>(args: &'a Expr) -> (r: &'a Expr)
    ensures
        *r == *args,
{
    args
}

/// The content of a `Url` message: its argument.
pub fn url<'a>(args: &'a Expr) -> (r: &'a Expr)
    ensures
        *r == *args,
{
    args
}

/// The content of a `OneOf` message: the whole list of alternatives, of
/// which the client shows one.
pub fn one_of<'a>(args: &'a Expr) -> (r: &'a Expr)
    ensures
        *r == *args,
{
    args
}

/// A `Button` message rendering its argument.
pub fn button<'a>(args: &'a Expr) -> (r: MessageType<'a>)
    ensures
        r@ == MessageTypeView::Msg(MessageView { content_type: "Button"@, content: *args }),
{
    MessageType::Msg(Message::new(args, "Button".to_owned()))
}

} // verus!
