use vstd::prelude::*;

use crate::ast::{Expr, Ident, Infix, Literal, LiteralOrder, LiteralView, literal_order, lemma_literal_order_equal};
use crate::builtins::{button, one_of, text, typing, url, wait};
use crate::event::{Event, JsContext};
use crate::message::{Message, MessageType, MessageTypeView, MessageView, RootInterface, RootView};
use crate::text::str_equals;

verus! {

/// Why the interpreter could not run an instruction.
#[derive(PartialEq, Eq, Structural, Clone, Copy, Debug)]
pub enum AstError {
    NoBuiltinFound,
    InvalidAction,
    NotReservedKeyword,
    UnknownEventType,
    NoEvent,
    UnknownVariable,
    NotLiteralOrIdentifier,
    IdentIdentEvaluation,
    IdentLiteralEvaluation,
    LiteralIdentEvaluation,
    InfixInfixEvaluation,
    InfixExprEvaluation,
    ExprInfixEvaluation,
    NeedAndOr,
    ConditionEvaluation,
    IfBlock,
    IfCondition,
    BlockStart,
}

impl AstError {
    pub open spec fn spec_message(self) -> Seq<char> {
        match self {
            AstError::NoBuiltinFound => "Error no builtin found"@,
            AstError::InvalidAction => "Error must be a valid action"@,
            AstError::NotReservedKeyword => "Error block must start with a reserved keyword"@,
            AstError::UnknownEventType => "event type is unown"@,
            AstError::NoEvent => "no event is received"@,
            AstError::UnknownVariable => "unown variable"@,
            AstError::NotLiteralOrIdentifier => "Expression must be a literal or an identifier"@,
            AstError::IdentIdentEvaluation => "error in evaluation between ident and ident"@,
            AstError::IdentLiteralEvaluation => "error in evaluation between ident and lit"@,
            AstError::LiteralIdentEvaluation => "error in evaluation between lit and ident"@,
            AstError::InfixInfixEvaluation => "error in evaluation between InfixExpr and InfixExpr"@,
            AstError::InfixExprEvaluation => "error in evaluation between InfixExpr and expr"@,
            AstError::ExprInfixEvaluation => "error in evaluation between expr and InfixExpr"@,
            AstError::NeedAndOr => "error need && or ||"@,
            AstError::ConditionEvaluation => "error in evaluate_condition function"@,
            AstError::IfBlock => "Error in If block"@,
            AstError::IfCondition => "error in if condition, it does not reduce to a boolean expression "@,
            AstError::BlockStart => "Block must start with a reserved keyword"@,
        }
    }

    /// The text that describes the error.
    pub fn message(&self) -> (r: &'static str)
        ensures
            r@ == self.spec_message(),
    {
        match self {
            AstError::NoBuiltinFound => "Error no builtin found",
            AstError::InvalidAction => "Error must be a valid action",
            AstError::NotReservedKeyword => "Error block must start with a reserved keyword",
            AstError::UnknownEventType => "event type is unown",
            AstError::NoEvent => "no event is received",
            AstError::UnknownVariable => "unown variable",
            AstError::NotLiteralOrIdentifier => "Expression must be a literal or an identifier",
            AstError::IdentIdentEvaluation => "error in evaluation between ident and ident",
            AstError::IdentLiteralEvaluation => "error in evaluation between ident and lit",
            AstError::LiteralIdentEvaluation => "error in evaluation between lit and ident",
            AstError::InfixInfixEvaluation => "error in evaluation between InfixExpr and InfixExpr",
            AstError::InfixExprEvaluation => "error in evaluation between InfixExpr and expr",
            AstError::ExprInfixEvaluation => "error in evaluation between expr and InfixExpr",
            AstError::NeedAndOr => "error need && or ||",
            AstError::ConditionEvaluation => "error in evaluate_condition function",
            AstError::IfBlock => "Error in If block",
            AstError::IfCondition => "error in if condition, it does not reduce to a boolean expression ",
            AstError::BlockStart => "Block must start with a reserved keyword",
        }
    }
}

/// Runs script instructions against a context and the event being answered.
pub struct AstInterpreter<'a> {
    pub context: &'a JsContext,
    pub event: &'a Option<Event>,
}

pub open spec fn literal_result_view(r: Result<Literal, AstError>) -> Result<LiteralView, AstError> {
    match r {
        Ok(l) => Ok(l@),
        Err(e) => Err(e),
    }
}

/// What a comparison operator says of two literals; the connectives hold of
/// any two literals.
pub open spec fn spec_literal_test(infix: Infix, a: LiteralView, b: LiteralView) -> bool {
    match infix {
        Infix::Equal => a == b,
        Infix::GreaterThanEqual => literal_order(a, b) != LiteralOrder::Less,
        Infix::LessThanEqual => literal_order(a, b) != LiteralOrder::Greater,
        Infix::GreaterThan => literal_order(a, b) == LiteralOrder::Greater,
        Infix::LessThan => literal_order(a, b) == LiteralOrder::Less,
        Infix::And => true,
        Infix::Or => true,
    }
}

pub open spec fn bool_rank(b: bool) -> int {
    if b { 1 } else { 0 }
}

/// What an operator says of two truth values, `false` ordered before `true`.
pub open spec fn spec_bool_test(infix: Infix, a: bool, b: bool) -> bool {
    match infix {
        Infix::Equal => a == b,
        Infix::GreaterThanEqual => bool_rank(a) >= bool_rank(b),
        Infix::LessThanEqual => bool_rank(a) <= bool_rank(b),
        Infix::GreaterThan => bool_rank(a) > bool_rank(b),
        Infix::LessThan => bool_rank(a) < bool_rank(b),
        Infix::And => a && b,
        Infix::Or => a || b,
    }
}

pub open spec fn output_result_view<'b>(r: Result<MessageType<'b>, AstError>) -> Result<MessageTypeView, AstError> {
    match r {
        Ok(m) => Ok(m@),
        Err(e) => Err(e),
    }
}

pub open spec fn root_result_view<'b>(r: Result<RootInterface<'b>, AstError>) -> Result<RootView, AstError> {
    match r {
        Ok(root) => Ok(root@),
        Err(e) => Err(e),
    }
}

/// What a call of a builtin produces: a message of the builtin's kind that
/// renders its argument (`OneOf` renders as a text).
pub open spec fn spec_builtin(name: Seq<char>, args: Expr) -> Result<MessageTypeView, AstError> {
    if name == "Typing"@ || name == "Wait"@ || name == "Text"@ || name == "Url"@ {
        Ok(MessageTypeView::Msg(MessageView { content_type: name, content: args }))
    } else if name == "OneOf"@ {
        Ok(MessageTypeView::Msg(MessageView { content_type: "Text"@, content: args }))
    } else if name == "Button"@ {
        Ok(MessageTypeView::Msg(MessageView { content_type: "Button"@, content: args }))
    } else {
        Err(AstError::NoBuiltinFound)
    }
}

/// What an action produces: a builtin call, a literal rendered as a text, or
/// nothing.
pub open spec fn spec_action(e: Expr) -> Result<MessageTypeView, AstError> {
    match e {
        Expr::Action { builtin, args } => spec_builtin(builtin.0@, *args),
        Expr::LitExpr(_) => Ok(MessageTypeView::Msg(MessageView { content_type: "Text"@, content: e })),
        Expr::Empty => Ok(MessageTypeView::Empty),
        _ => Err(AstError::InvalidAction),
    }
}

/// What a reserved instruction inside an `if` produces: `say` and `retry`
/// run their action.
pub open spec fn spec_reserved_if(fun: Ident, arg: Expr) -> Result<MessageTypeView, AstError> {
    if fun.0@ == "say"@ || fun.0@ == "retry"@ {
        spec_action(arg)
    } else {
        Err(AstError::NotReservedKeyword)
    }
}

pub open spec fn is_ask(e: Expr) -> bool {
    e matches Expr::Reserved { fun, .. } && fun.0@ == "ask"@
}

/// The number of `ask` instructions in a step.
pub open spec fn ask_count(s: Seq<Expr>) -> nat
    decreases s.len(),
{
    if s.len() == 0 {
        0
    } else {
        ask_count(s.drop_last()) + if is_ask(s.last()) { 1nat } else { 0nat }
    }
}

impl<'a> AstInterpreter<'a> {
    /// What a reserved instruction of a block produces: `say` and `retry`
    /// run their action; `ask` runs its action, or, given a list, runs it as
    /// a block and yields that block's messages.
    pub open spec fn spec_reserved(self, fun: Ident, arg: Expr) -> Result<MessageTypeView, AstError>
        decreases arg, 0int,
    {
        if fun.0@ == "say"@ {
            spec_action(arg)
        } else if fun.0@ == "ask"@ {
            match arg {
                Expr::VecExpr(block) => match self.spec_block_from(block@, 0, RootView::empty()) {
                    Ok(root) => Ok(MessageTypeView::Msgs(root.message)),
                    Err(e) => Err(e),
                },
                _ => spec_action(arg),
            }
        } else if fun.0@ == "retry"@ {
            spec_action(arg)
        } else {
            Err(AstError::NotReservedKeyword)
        }
    }

    /// The rest of a block, from instruction `i` on, run on top of `root`:
    /// it stops at the first error, and once a next step is set.
    pub open spec fn spec_block_from(self, actions: Seq<Expr>, i: int, root: RootView) -> Result<RootView, AstError>
        decreases actions, actions.len() - i,
    {
        if i < 0 || i >= actions.len() || root.next_step is Some {
            Ok(root)
        } else {
            match actions[i] {
                Expr::Reserved { fun, arg } => match self.spec_reserved(fun, *arg) {
                    Ok(out) => self.spec_block_from(actions, i + 1, root.with_output(out)),
                    Err(e) => Err(e),
                },
                Expr::IfExpr { cond, consequence } => match self.spec_ifexpr(*cond, consequence@) {
                    Ok(sub) => self.spec_block_from(actions, i + 1, root.merge(sub)),
                    Err(e) => Err(e),
                },
                Expr::Goto(step) => self.spec_block_from(actions, i + 1, root.with_next_step(step.0@)),
                _ => Err(AstError::BlockStart),
            }
        }
    }

    /// The result of running a block.
    pub open spec fn spec_block(self, actions: Seq<Expr>) -> Result<RootView, AstError> {
        self.spec_block_from(actions, 0, RootView::empty())
    }

    /// What an `if` produces: its body's result where its condition holds.
    pub open spec fn spec_ifexpr(self, cond: Expr, consequence: Seq<Expr>) -> Result<RootView, AstError>
        decreases consequence, consequence.len() + 1,
    {
        if self.spec_valid_condition(cond) {
            self.spec_if_from(consequence, 0, RootView::empty())
        } else {
            Err(AstError::IfCondition)
        }
    }

    /// The rest of an `if` body, from instruction `i` on, run on top of
    /// `root`: a `goto` ends the body.
    pub open spec fn spec_if_from(self, body: Seq<Expr>, i: int, root: RootView) -> Result<RootView, AstError>
        decreases body, body.len() - i,
    {
        if i < 0 || i >= body.len() || root.next_step is Some {
            Ok(root)
        } else {
            match body[i] {
                Expr::Reserved { fun, arg } => match spec_reserved_if(fun, *arg) {
                    Ok(out) => self.spec_if_from(body, i + 1, root.with_output(out)),
                    Err(e) => Err(e),
                },
                Expr::IfExpr { cond, consequence } => match self.spec_ifexpr(*cond, consequence@) {
                    Ok(sub) => self.spec_if_from(body, i + 1, root.merge(sub)),
                    Err(e) => Err(e),
                },
                Expr::Goto(step) => Ok(root.with_next_step(step.0@)),
                _ => Err(AstError::IfBlock),
            }
        }
    }

    /// The literal the event stands for: its text, where the event is a text.
    pub open spec fn spec_event_literal(self) -> Result<LiteralView, AstError> {
        match *self.event {
            Some(event) => if event.payload.content_type@ == "text"@ {
                Ok(LiteralView::Str(event.payload.content.text@))
            } else {
                Err(AstError::UnknownEventType)
            },
            None => Err(AstError::NoEvent),
        }
    }

    /// The value of a variable: only `event` is known.
    pub open spec fn spec_var(self, name: Ident) -> Result<LiteralView, AstError> {
        if name.0@ == "event"@ {
            self.spec_event_literal()
        } else {
            Err(AstError::UnknownVariable)
        }
    }

    /// The literal an operand stands for.
    pub open spec fn spec_operand(self, e: Expr) -> Result<LiteralView, AstError> {
        match e {
            Expr::LitExpr(l) => Ok(l@),
            Expr::IdentExpr(id) => self.spec_var(id),
            _ => Err(AstError::NotLiteralOrIdentifier),
        }
    }

    /// The truth value of a condition `InfixExpr(infix, l, r)`.
    pub open spec fn spec_condition(self, e: Expr) -> Result<bool, AstError>
        decreases e,
    {
        match e {
            Expr::InfixExpr(infix, l, r) => match (*l, *r) {
                (Expr::LitExpr(l1), Expr::LitExpr(l2)) => Ok(spec_literal_test(infix, l1@, l2@)),
                (Expr::IdentExpr(id1), Expr::IdentExpr(id2)) => match (self.spec_var(id1), self.spec_var(id2)) {
                    (Ok(v1), Ok(v2)) => Ok(spec_literal_test(infix, v1, v2)),
                    _ => Err(AstError::IdentIdentEvaluation),
                },
                (Expr::IdentExpr(id), Expr::LitExpr(l2)) => match self.spec_var(id) {
                    Ok(v1) => Ok(spec_literal_test(infix, v1, l2@)),
                    _ => Err(AstError::IdentLiteralEvaluation),
                },
                (Expr::LitExpr(l1), Expr::IdentExpr(id)) => match self.spec_var(id) {
                    Ok(v2) => Ok(spec_literal_test(infix, l1@, v2)),
                    _ => Err(AstError::LiteralIdentEvaluation),
                },
                (Expr::InfixExpr(_, _, _), Expr::InfixExpr(_, _, _)) => match (self.spec_condition(*l), self.spec_condition(*r)) {
                    (Ok(b1), Ok(b2)) => Ok(spec_bool_test(infix, b1, b2)),
                    _ => Err(AstError::InfixInfixEvaluation),
                },
                (Expr::InfixExpr(_, _, _), other) => match (self.spec_condition(*l), self.spec_operand(other)) {
                    (Ok(b1), Ok(_)) => match infix {
                        Infix::And => Ok(b1),
                        Infix::Or => Ok(true),
                        _ => Err(AstError::NeedAndOr),
                    },
                    _ => Err(AstError::InfixExprEvaluation),
                },
                (other, Expr::InfixExpr(_, _, _)) => match (self.spec_operand(other), self.spec_condition(*r)) {
                    (Ok(_), Ok(b2)) => match infix {
                        Infix::And => Ok(b2),
                        Infix::Or => Ok(true),
                        _ => Err(AstError::NeedAndOr),
                    },
                    _ => Err(AstError::ExprInfixEvaluation),
                },
                _ => Err(AstError::ConditionEvaluation),
            },
            _ => Err(AstError::ConditionEvaluation),
        }
    }

    /// Whether the condition of an `if` holds: a condition that cannot be
    /// evaluated does not hold; a literal holds; a variable holds where it
    /// has a value.
    pub open spec fn spec_valid_condition(self, e: Expr) -> bool {
        match e {
            Expr::InfixExpr(_, _, _) => match self.spec_condition(e) {
                Ok(b) => b,
                Err(_) => false,
            },
            Expr::LitExpr(_) => true,
            Expr::IdentExpr(id) => self.spec_var(id) is Ok,
            _ => false,
        }
    }

    /// The truth value of an expression read as a condition, where variables
    /// are not looked up.
    pub open spec fn spec_get_expr(self, e: Expr) -> bool {
        match e {
            Expr::InfixExpr(_, _, _) => match self.spec_condition(e) {
                Ok(b) => b,
                Err(_) => false,
            },
            Expr::LitExpr(_) => true,
            _ => false,
        }
    }

    /// The literal the received event stands for.
    pub fn gen_literal_form_event(&self) -> (r: Result<Literal, AstError>)
        ensures
            literal_result_view(r) == self.spec_event_literal(),
    {
        match self.event {
            Some(event) => {
                if str_equals(event.payload.content_type.as_str(), "text") {
                    Ok(Literal::StringLiteral(event.payload.content.text.clone()))
                } else {
                    Err(AstError::UnknownEventType)
                }
            },
            None => Err(AstError::NoEvent),
        }
    }

    /// The value of a variable.
    pub fn ger_var(&self, name: &Ident) -> (r: Result<Literal, AstError>)
        ensures
            literal_result_view(r) == self.spec_var(*name),
    {
        if str_equals(name.0.as_str(), "event") {
            self.gen_literal_form_event()
        } else {
            Err(AstError::UnknownVariable)
        }
    }

    /// The literal an operand stands for: a literal, or the value of a variable.
    pub fn gen_literal_form_exp(&self, exp: &Expr) -> (r: Result<Literal, AstError>)
        ensures
            literal_result_view(r) == self.spec_operand(*exp),
    {
        match exp {
            Expr::LitExpr(lit) => Ok(lit.duplicate()),
            Expr::IdentExpr(ident) => self.ger_var(ident),
            _ => Err(AstError::NotLiteralOrIdentifier),
        }
    }

    /// Applies a comparison operator to two literals.
    pub fn cmp_lit(&self, infix: &Infix, lit1: &Literal, lit2: &Literal) -> (r: bool)
        ensures
            r == spec_literal_test(*infix, lit1@, lit2@),
    {
        proof {
            lemma_literal_order_equal(lit1@, lit2@);
        }
        let order = lit1.compare(lit2);
        match infix {
            Infix::Equal => order == LiteralOrder::Equal,
            Infix::GreaterThanEqual => order != LiteralOrder::Less,
            Infix::LessThanEqual => order != LiteralOrder::Greater,
            Infix::GreaterThan => order == LiteralOrder::Greater,
            Infix::LessThan => order == LiteralOrder::Less,
            Infix::And => true,
            Infix::Or => true,
        }
    }

    /// Applies an operator to two truth values.
    pub fn cmp_bool(&self, infix: &Infix, b1: bool, b2: bool) -> (r: bool)
        ensures
            r == spec_bool_test(*infix, b1, b2),
    {
        match infix {
            Infix::Equal => b1 == b2,
            Infix::GreaterThanEqual => b1 || !b2,
            Infix::LessThanEqual => !b1 || b2,
            Infix::GreaterThan => b1 && !b2,
            Infix::LessThan => !b1 && b2,
            Infix::And => b1 && b2,
            Infix::Or => b1 || b2,
        }
    }

    /// Evaluates the condition `expr1 infix expr2`.
    pub fn evaluate_condition(&self, infix: &Infix, expr1: &Expr, expr2: &Expr) -> (r: Result<bool, AstError>)
        ensures
            r == self.spec_condition(Expr::InfixExpr(*infix, Box::new(*expr1), Box::new(*expr2))),
        decreases Expr::InfixExpr(*infix, Box::new(*expr1), Box::new(*expr2)),
    {
        match (expr1, expr2) {
            (Expr::LitExpr(l1), Expr::LitExpr(l2)) => Ok(self.cmp_lit(infix, l1, l2)),
            (Expr::IdentExpr(id1), Expr::IdentExpr(id2)) => match (self.ger_var(id1), self.ger_var(id2)) {
                (Ok(l1), Ok(l2)) => Ok(self.cmp_lit(infix, &l1, &l2)),
                _ => Err(AstError::IdentIdentEvaluation),
            },
            (Expr::IdentExpr(ident), Expr::LitExpr(l2)) => match self.ger_var(ident) {
                Ok(l1) => Ok(self.cmp_lit(infix, &l1, l2)),
                _ => Err(AstError::IdentLiteralEvaluation),
            },
            (Expr::LitExpr(l1), Expr::IdentExpr(ident)) => match self.ger_var(ident) {
                Ok(l2) => Ok(self.cmp_lit(infix, l1, &l2)),
                _ => Err(AstError::LiteralIdentEvaluation),
            },
            (Expr::InfixExpr(i1, ex1, ex2), Expr::InfixExpr(i2, exp1, exp2)) => {
                match (self.evaluate_condition(i1, ex1, ex2), self.evaluate_condition(i2, exp1, exp2)) {
                    (Ok(l1), Ok(l2)) => Ok(self.cmp_bool(infix, l1, l2)),
                    _ => Err(AstError::InfixInfixEvaluation),
                }
            },
            (Expr::InfixExpr(i1, ex1, ex2), e) => {
                match (self.evaluate_condition(i1, ex1, ex2), self.gen_literal_form_exp(e)) {
                    (Ok(e1), Ok(_)) => match infix {
                        Infix::And => Ok(e1),
                        Infix::Or => Ok(true),
                        _ => Err(AstError::NeedAndOr),
                    },
                    _ => Err(AstError::InfixExprEvaluation),
                }
            },
            (e, Expr::InfixExpr(i1, ex1, ex2)) => {
                match (self.gen_literal_form_exp(e), self.evaluate_condition(i1, ex1, ex2)) {
                    (Ok(_), Ok(e2)) => match infix {
                        Infix::And => Ok(e2),
                        Infix::Or => Ok(true),
                        _ => Err(AstError::NeedAndOr),
                    },
                    _ => Err(AstError::ExprInfixEvaluation),
                }
            },
            (_, _) => Err(AstError::ConditionEvaluation),
        }
    }

    /// Reads an expression as a condition, without looking variables up.
    pub fn get_expr(&self, expr: &Expr) -> (r: bool)
        ensures
            r == self.spec_get_expr(*expr),
    {
        match expr {
            Expr::InfixExpr(infix, exp1, exp2) => {
                if let Ok(var) = self.evaluate_condition(infix, exp1, exp2) {
                    return var;
                }
                false
            },
            Expr::LitExpr(_lit) => true,
            Expr::IdentExpr(_ident) => false,
            _ => false,
        }
    }

    /// Whether the condition of an `if` holds.
    pub fn valid_condition(&self, expr: &Expr) -> (r: bool)
        ensures
            r == self.spec_valid_condition(*expr),
    {
        match expr {
            Expr::InfixExpr(inf, exp1, exp2) => match self.evaluate_condition(inf, exp1, exp2) {
                Ok(rep) => rep,
                Err(_) => false,
            },
            Expr::LitExpr(_lit) => true,
            Expr::IdentExpr(ident) => match self.ger_var(ident) {
                Ok(_) => true,
                Err(_) => false,
            },
            _ => false,
        }
    }

    /// Calls a builtin.
    pub fn match_builtin<'b>(&self, builtin: &Ident, args: &'b Expr) -> (r: Result<MessageType<'b>, AstError>)
        ensures
            output_result_view(r) == spec_builtin(builtin.0@, *args),
    {
        let name = &builtin.0;
        if str_equals(name.as_str(), "Typing") {
            Ok(MessageType::Msg(Message::new(typing(args), name.clone())))
        } else if str_equals(name.as_str(), "Wait") {
            Ok(MessageType::Msg(Message::new(wait(args), name.clone())))
        } else if str_equals(name.as_str(), "Text") {
            Ok(MessageType::Msg(Message::new(text(args), name.clone())))
        } else if str_equals(name.as_str(), "Url") {
            Ok(MessageType::Msg(Message::new(url(args), name.clone())))
        } else if str_equals(name.as_str(), "OneOf") {
            Ok(MessageType::Msg(Message::new(one_of(args), "Text".to_owned())))
        } else if str_equals(name.as_str(), "Button") {
            Ok(button(args))
        } else {
            Err(AstError::NoBuiltinFound)
        }
    }

    /// Runs an action.
    pub fn match_action<'b>(&self, action: &'b Expr) -> (r: Result<MessageType<'b>, AstError>)
        ensures
            output_result_view(r) == spec_action(*action),
    {
        match action {
            Expr::Action { builtin, args } => self.match_builtin(builtin, args),
            Expr::LitExpr(_literal) => Ok(MessageType::Msg(Message::new(action, "Text".to_owned()))),
            Expr::Empty => Ok(MessageType::Empty),
            _ => Err(AstError::InvalidAction),
        }
    }

    /// Runs a reserved instruction of a block.
    pub fn match_reserved<'b>(&self, reserved: &Ident, arg: &'b Expr) -> (r: Result<MessageType<'b>, AstError>)
        ensures
            output_result_view(r) == self.spec_reserved(*reserved, *arg),
        decreases *arg,
    {
        let name = reserved.0.as_str();
        if str_equals(name, "say") {
            self.match_action(arg)
        } else if str_equals(name, "ask") {
            if let Expr::VecExpr(block) = arg {
                match self.match_block(block.as_slice()) {
                    Ok(root) => {
                        Ok(MessageType::Msgs(root.message))
                    },
                    Err(e) => Err(e),
                }
            } else {
                self.match_action(arg)
            }
        } else if str_equals(name, "retry") {
            self.match_action(arg)
        } else {
            Err(AstError::NotReservedKeyword)
        }
    }

    /// Runs a reserved instruction inside an `if`.
    pub fn match_reserved_if<'b>(&self, reserved: &Ident, arg: &'b Expr) -> (r: Result<MessageType<'b>, AstError>)
        ensures
            output_result_view(r) == spec_reserved_if(*reserved, *arg),
    {
        let name = reserved.0.as_str();
        if str_equals(name, "say") {
            self.match_action(arg)
        } else if str_equals(name, "retry") {
            self.match_action(arg)
        } else {
            Err(AstError::NotReservedKeyword)
        }
    }

    /// Whether a step holds at most one `ask`.
    pub fn check_valid_step(&self, step: &[Expr]) -> (r: bool)
        ensures
            r == (ask_count(step@) < 2),
    {
        let mut nbr: usize = 0;
        let mut i: usize = 0;
        while i < step.len()
            invariant
                i <= step@.len(),
                nbr <= i,
                nbr == ask_count(step@.take(i as int)),
            decreases step@.len() - i,
        {
            assert(step@.take(i + 1).drop_last() =~= step@.take(i as int));
            if let Expr::Reserved { fun, .. } = &step[i] {
                if str_equals(fun.0.as_str(), "ask") {
                    nbr += 1;
                }
            }
            i += 1;
        }
        assert(step@.take(i as int) =~= step@);
        nbr < 2
    }

    /// Runs an `if`: its body where its condition holds.
    pub fn match_ifexpr<'b>(&self, cond: &Expr, consequence: &'b [Expr]) -> (r: Result<RootInterface<'b>, AstError>)
        ensures
            root_result_view(r) == self.spec_ifexpr(*cond, consequence@),
        decreases consequence@,
    {
        if self.valid_condition(cond) {
            let mut root = RootInterface::empty();
            let mut i: usize = 0;
            while i < consequence.len()
                invariant
                    i <= consequence@.len(),
                    self.spec_valid_condition(*cond),
                    self.spec_ifexpr(*cond, consequence@) == self.spec_if_from(consequence@, i as int, root@),
                decreases consequence@.len() - i,
            {
                if root.next_step.is_some() {
                    return Ok(root);
                }
                match &consequence[i] {
                    Expr::Reserved { fun, arg } => match self.match_reserved_if(fun, arg) {
                        Ok(out) => root.add_output(out),
                        Err(err) => return Err(err),
                    },
                    Expr::IfExpr { cond, consequence } => match self.match_ifexpr(cond, consequence.as_slice()) {
                        Ok(sub) => root = root.merge(sub),
                        Err(err) => return Err(err),
                    },
                    Expr::Goto(Ident(ident)) => {
                        root.add_next_step(ident.as_str());
                        return Ok(root);
                    },
                    _ => return Err(AstError::IfBlock),
                }
                i += 1;
            }
            Ok(root)
        } else {
            Err(AstError::IfCondition)
        }
    }

    /// Runs a block: each instruction in turn, until one fails or a next
    /// step is set.
    pub fn match_block<'b>(&self, actions: &'b [Expr]) -> (r: Result<RootInterface<'b>, AstError>)
        ensures
            root_result_view(r) == self.spec_block(actions@),
        decreases actions@,
    {
        self.check_valid_step(actions);
        let mut root = RootInterface::empty();
        let mut i: usize = 0;
        while i < actions.len()
            invariant
                i <= actions@.len(),
                self.spec_block(actions@) == self.spec_block_from(actions@, i as int, root@),
            decreases actions@.len() - i,
        {
            if root.next_step.is_some() {
                return Ok(root);
            }
            match &actions[i] {
                Expr::Reserved { fun, arg } => match self.match_reserved(fun, arg) {
                    Ok(out) => root.add_output(out),
                    Err(err) => return Err(err),
                },
                Expr::IfExpr { cond, consequence } => match self.match_ifexpr(cond, consequence.as_slice()) {
                    Ok(sub) => root = root.merge(sub),
                    Err(err) => return Err(err),
                },
                Expr::Goto(Ident(ident)) => root.add_next_step(ident.as_str()),
                _ => return Err(AstError::BlockStart),
            }
            i += 1;
        }
        Ok(root)
    }
}

} // verus!
