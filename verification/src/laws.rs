use vstd::prelude::*;

use crate::ast::{Expr, Ident, Infix, Literal, LiteralView, lemma_literal_order_antisymmetric, lemma_literal_order_equal};
use crate::ast_interpreter::{AstError, AstInterpreter, ask_count, is_ask, spec_action, spec_literal_test, spec_reserved_if};
use crate::message::{MessageTypeView, MessageView, RootView};

verus! {

/// Comparing literals is a total order: equality is reflexive and
/// symmetric, `<` and `>` are each other's mirror, `>=` is the negation of
/// `<`, `<=` that of `>`, and exactly one of `<`, `==`, `>` holds.
pub proof fn lemma_literal_comparisons(a: LiteralView, b: LiteralView)
    ensures
        spec_literal_test(Infix::Equal, a, a),
        spec_literal_test(Infix::Equal, a, b) == spec_literal_test(Infix::Equal, b, a),
        spec_literal_test(Infix::LessThan, a, b) == spec_literal_test(Infix::GreaterThan, b, a),
        spec_literal_test(Infix::LessThanEqual, a, b) == spec_literal_test(Infix::GreaterThanEqual, b, a),
        spec_literal_test(Infix::GreaterThanEqual, a, b) == !spec_literal_test(Infix::LessThan, a, b),
        spec_literal_test(Infix::LessThanEqual, a, b) == !spec_literal_test(Infix::GreaterThan, a, b),
        spec_literal_test(Infix::Equal, a, b) == (spec_literal_test(Infix::LessThanEqual, a, b)
            && spec_literal_test(Infix::GreaterThanEqual, a, b)),
        spec_literal_test(Infix::LessThan, a, b) ==> !spec_literal_test(Infix::Equal, a, b)
            && !spec_literal_test(Infix::GreaterThan, a, b),
        spec_literal_test(Infix::Equal, a, b) ==> !spec_literal_test(Infix::GreaterThan, a, b),
        spec_literal_test(Infix::LessThan, a, b) || spec_literal_test(Infix::Equal, a, b)
            || spec_literal_test(Infix::GreaterThan, a, b),
{
    lemma_literal_order_antisymmetric(a, b);
    lemma_literal_order_equal(a, b);
    lemma_literal_order_equal(a, a);
}

/// Running `s` then `t` as one block is running `s`, then running `t` on
/// top of what `s` produced; an error or a next step set in `s` ends the
/// whole block.
pub proof fn lemma_block_sequence<'a>(interp: AstInterpreter<'a>, s: Seq<Expr>, t: Seq<Expr>, root: RootView)
    ensures
        interp.spec_block_from(s + t, 0, root) == match interp.spec_block_from(s, 0, root) {
            Ok(r) => interp.spec_block_from(t, 0, r),
            Err(e) => Err(e),
        },
{
    lemma_block_sequence_from(interp, s, t, 0, root);
}

proof fn lemma_block_sequence_from<'a>(interp: AstInterpreter<'a>, s: Seq<Expr>, t: Seq<Expr>, i: int, root: RootView)
    requires
        0 <= i <= s.len(),
    ensures
        interp.spec_block_from(s + t, i, root) == match interp.spec_block_from(s, i, root) {
            Ok(r) => interp.spec_block_from(t, 0, r),
            Err(e) => Err(e),
        },
    decreases s.len() - i,
{
    if i == s.len() {
        lemma_block_shift(interp, s, t, 0, root);
    } else if root.next_step is Some {
    } else {
        assert((s + t)[i] == s[i]);
        match s[i] {
            crate::ast::Expr::Reserved { fun, arg } => {
                match interp.spec_reserved(fun, *arg) {
                    Ok(out) => lemma_block_sequence_from(interp, s, t, i + 1, root.with_output(out)),
                    Err(_) => {},
                }
            },
            crate::ast::Expr::IfExpr { cond, consequence } => {
                match interp.spec_ifexpr(*cond, consequence@) {
                    Ok(sub) => lemma_block_sequence_from(interp, s, t, i + 1, root.merge(sub)),
                    Err(_) => {},
                }
            },
            crate::ast::Expr::Goto(step) => lemma_block_sequence_from(interp, s, t, i + 1, root.with_next_step(step.0@)),
            _ => {},
        }
    }
}

proof fn lemma_block_shift<'a>(interp: AstInterpreter<'a>, s: Seq<Expr>, t: Seq<Expr>, j: int, root: RootView)
    requires
        0 <= j <= t.len(),
    ensures
        interp.spec_block_from(s + t, s.len() + j, root) == interp.spec_block_from(t, j, root),
    decreases t.len() - j,
{
    if j < t.len() && root.next_step is None {
        assert((s + t)[s.len() + j] == t[j]);
        match t[j] {
            crate::ast::Expr::Reserved { fun, arg } => {
                match interp.spec_reserved(fun, *arg) {
                    Ok(out) => lemma_block_shift(interp, s, t, j + 1, root.with_output(out)),
                    Err(_) => {},
                }
            },
            crate::ast::Expr::IfExpr { cond, consequence } => {
                match interp.spec_ifexpr(*cond, consequence@) {
                    Ok(sub) => lemma_block_shift(interp, s, t, j + 1, root.merge(sub)),
                    Err(_) => {},
                }
            },
            crate::ast::Expr::Goto(step) => lemma_block_shift(interp, s, t, j + 1, root.with_next_step(step.0@)),
            _ => {},
        }
    }
}

/// Once a next step is set, what a block produces keeps it.
proof fn lemma_block_keeps_next_step<'a>(interp: AstInterpreter<'a>, s: Seq<Expr>, i: int, root: RootView)
    requires
        root.next_step is Some,
    ensures
        interp.spec_block_from(s, i, root) == Ok::<RootView, AstError>(root),
{
}

/// A block whose last instruction is a `goto` that it reaches ends with a
/// next step set.
proof fn lemma_goto_sets_next_step<'a>(interp: AstInterpreter<'a>, s: Seq<Expr>, i: int, root: RootView)
    requires
        0 <= i <= s.len(),
        s.len() > 0,
        s.last() is Goto || root.next_step is Some,
        i == s.len() ==> root.next_step is Some,
    ensures
        interp.spec_block_from(s, i, root) matches Ok(r) ==> r.next_step is Some,
    decreases s.len() - i,
{
    if i < s.len() && root.next_step is None {
        match s[i] {
            crate::ast::Expr::Reserved { fun, arg } => {
                match interp.spec_reserved(fun, *arg) {
                    Ok(out) => lemma_goto_sets_next_step(interp, s, i + 1, root.with_output(out)),
                    Err(_) => {},
                }
            },
            crate::ast::Expr::IfExpr { cond, consequence } => {
                match interp.spec_ifexpr(*cond, consequence@) {
                    Ok(sub) => lemma_goto_sets_next_step(interp, s, i + 1, root.merge(sub)),
                    Err(_) => {},
                }
            },
            crate::ast::Expr::Goto(step) => lemma_goto_sets_next_step(interp, s, i + 1, root.with_next_step(step.0@)),
            _ => {},
        }
    }
}

/// A `goto` ends a block: whatever follows a block that ends with a `goto`
/// is not run.
pub proof fn lemma_goto_ends_block<'a>(interp: AstInterpreter<'a>, s: Seq<Expr>, t: Seq<Expr>)
    requires
        s.len() > 0,
        s.last() is Goto,
    ensures
        interp.spec_block(s + t) == interp.spec_block(s),
{
    lemma_block_sequence(interp, s, t, RootView::empty());
    lemma_goto_sets_next_step(interp, s, 0, RootView::empty());
    match interp.spec_block(s) {
        Ok(r) => lemma_block_keeps_next_step(interp, t, 0, r),
        Err(_) => {},
    }
}

/// A `goto` ends the body of an `if`: whatever follows it in the body is
/// not run.
pub proof fn lemma_goto_ends_if_body<'a>(interp: AstInterpreter<'a>, s: Seq<Expr>, t: Seq<Expr>, i: int, root: RootView)
    requires
        0 <= i < s.len(),
        s.last() is Goto,
    ensures
        interp.spec_if_from(s + t, i, root) == interp.spec_if_from(s, i, root),
    decreases s.len() - i,
{
    if root.next_step is None {
        assert((s + t)[i] == s[i]);
        if i + 1 < s.len() {
            match s[i] {
                crate::ast::Expr::Reserved { fun, arg } => {
                    match crate::ast_interpreter::spec_reserved_if(fun, *arg) {
                        Ok(out) => lemma_goto_ends_if_body(interp, s, t, i + 1, root.with_output(out)),
                        Err(_) => {},
                    }
                },
                crate::ast::Expr::IfExpr { cond, consequence } => {
                    match interp.spec_ifexpr(*cond, consequence@) {
                        Ok(sub) => lemma_goto_ends_if_body(interp, s, t, i + 1, root.merge(sub)),
                        Err(_) => {},
                    }
                },
                _ => {},
            }
        }
    }
}

/// `and` and `or` between two conditions are the conjunction and the
/// disjunction of their values.
pub proof fn lemma_condition_connectives<'a>(interp: AstInterpreter<'a>, c1: Expr, c2: Expr, b1: bool, b2: bool)
    requires
        c1 is InfixExpr,
        c2 is InfixExpr,
        interp.spec_condition(c1) == Ok::<bool, AstError>(b1),
        interp.spec_condition(c2) == Ok::<bool, AstError>(b2),
    ensures
        interp.spec_condition(Expr::InfixExpr(Infix::And, Box::new(c1), Box::new(c2))) == Ok::<bool, AstError>(b1 && b2),
        interp.spec_condition(Expr::InfixExpr(Infix::Or, Box::new(c1), Box::new(c2))) == Ok::<bool, AstError>(b1 || b2),
{
}

/// What the comparison operators mean on literals: `==` is equality of
/// values; integers are ordered numerically; `false` comes before `true`;
/// strings come before integers, which come before booleans; `&&` and `||`
/// hold of any two literals.
pub proof fn lemma_literal_test_meaning(a: LiteralView, b: LiteralView)
    ensures
        spec_literal_test(Infix::Equal, a, b) == (a == b),
        spec_literal_test(Infix::And, a, b),
        spec_literal_test(Infix::Or, a, b),
        (a is Str && (b is Int || b is Bool)) ==> spec_literal_test(Infix::LessThan, a, b),
        (a is Int && b is Bool) ==> spec_literal_test(Infix::LessThan, a, b),
        ((a is Int || a is Bool) && b is Str) ==> spec_literal_test(Infix::GreaterThan, a, b),
        (a is Bool && b is Int) ==> spec_literal_test(Infix::GreaterThan, a, b),
{
    lemma_literal_order_equal(a, b);
}

/// Integer literals are ordered numerically.
pub proof fn lemma_integer_order(x: int, y: int)
    ensures
        spec_literal_test(Infix::LessThan, LiteralView::Int(x), LiteralView::Int(y)) == (x < y),
        spec_literal_test(Infix::LessThanEqual, LiteralView::Int(x), LiteralView::Int(y)) == (x <= y),
        spec_literal_test(Infix::GreaterThan, LiteralView::Int(x), LiteralView::Int(y)) == (x > y),
        spec_literal_test(Infix::GreaterThanEqual, LiteralView::Int(x), LiteralView::Int(y)) == (x >= y),
        spec_literal_test(Infix::Equal, LiteralView::Int(x), LiteralView::Int(y)) == (x == y),
{
}

/// Boolean literals are ordered `false` before `true`.
pub proof fn lemma_boolean_order(x: bool, y: bool)
    ensures
        spec_literal_test(Infix::LessThan, LiteralView::Bool(x), LiteralView::Bool(y)) == (!x && y),
        spec_literal_test(Infix::GreaterThan, LiteralView::Bool(x), LiteralView::Bool(y)) == (x && !y),
        spec_literal_test(Infix::LessThanEqual, LiteralView::Bool(x), LiteralView::Bool(y)) == (!x || y),
        spec_literal_test(Infix::GreaterThanEqual, LiteralView::Bool(x), LiteralView::Bool(y)) == (x || !y),
{
}

/// `x` comes before `y` in dictionary order: at the first position where
/// they differ, `x` has the smaller character, or `x` is a proper prefix of
/// `y`.
pub open spec fn lex_less(x: Seq<char>, y: Seq<char>) -> bool {
    exists|k: int|
        0 <= k <= x.len() && k <= y.len() && #[trigger] x.take(k) == y.take(k) && (
            (k == x.len() && k < y.len()) || (k < x.len() && k < y.len() && (x[k] as int) < (y[k] as int))
        )
}

proof fn lemma_chars_order_less(x: Seq<char>, y: Seq<char>)
    ensures
        (crate::ast::chars_order(x, y) == crate::ast::LiteralOrder::Less) <==> lex_less(x, y),
    decreases x.len(),
{
    if x.len() > 0 && y.len() > 0 && x[0] as int == y[0] as int {
        let xt = x.drop_first();
        let yt = y.drop_first();
        lemma_chars_order_less(xt, yt);
        if lex_less(xt, yt) {
            let k = choose|k: int|
                0 <= k <= xt.len() && k <= yt.len() && #[trigger] xt.take(k) == yt.take(k) && (
                    (k == xt.len() && k < yt.len()) || (k < xt.len() && k < yt.len() && (xt[k] as int) < (yt[k] as int))
                );
            let xa = x.take(k + 1);
            let ya = y.take(k + 1);
            assert(xa =~= ya) by {
                assert forall|j: int| 0 <= j < k + 1 implies #[trigger] xa[j] == ya[j] by {
                    if j > 0 {
                        assert(xt.take(k)[j - 1] == yt.take(k)[j - 1]);
                    }
                }
            }
            assert(lex_less(x, y));
        }
        if lex_less(x, y) {
            let k = choose|k: int|
                0 <= k <= x.len() && k <= y.len() && #[trigger] x.take(k) == y.take(k) && (
                    (k == x.len() && k < y.len()) || (k < x.len() && k < y.len() && (x[k] as int) < (y[k] as int))
                );
            if k == 0 {
                assert(x[0] as int != y[0] as int || x.len() == 0);
            } else {
                let xb = xt.take(k - 1);
                let yb = yt.take(k - 1);
                assert(xb =~= yb) by {
                    assert forall|j: int| 0 <= j < k - 1 implies #[trigger] xb[j] == yb[j] by {
                        assert(x.take(k)[j + 1] == y.take(k)[j + 1]);
                    }
                }
                assert(lex_less(xt, yt));
            }
        }
    } else {
        if x.len() == 0 && y.len() > 0 {
            assert(x.take(0) =~= y.take(0));
            assert(lex_less(x, y));
        } else if x.len() > 0 && y.len() > 0 && (x[0] as int) < (y[0] as int) {
            assert(x.take(0) =~= y.take(0));
            assert(lex_less(x, y));
        } else if lex_less(x, y) {
            let k = choose|k: int|
                0 <= k <= x.len() && k <= y.len() && #[trigger] x.take(k) == y.take(k) && (
                    (k == x.len() && k < y.len()) || (k < x.len() && k < y.len() && (x[k] as int) < (y[k] as int))
                );
            if k > 0 {
                assert(x.take(k)[0] == y.take(k)[0]);
            }
        }
    }
}

/// String literals are in dictionary order, by code point: `x < y` holds
/// exactly when `x` comes before `y`, and `x > y` exactly when `y` comes
/// before `x`.
pub proof fn lemma_string_order(x: Seq<char>, y: Seq<char>)
    ensures
        spec_literal_test(Infix::LessThan, LiteralView::Str(x), LiteralView::Str(y)) == lex_less(x, y),
        spec_literal_test(Infix::GreaterThan, LiteralView::Str(x), LiteralView::Str(y)) == lex_less(y, x),
        spec_literal_test(Infix::LessThanEqual, LiteralView::Str(x), LiteralView::Str(y)) == (lex_less(x, y) || x == y),
        spec_literal_test(Infix::GreaterThanEqual, LiteralView::Str(x), LiteralView::Str(y)) == (lex_less(y, x) || x == y),
{
    lemma_chars_order_less(x, y);
    lemma_chars_order_less(y, x);
    crate::ast::lemma_chars_order_antisymmetric(x, y);
    crate::ast::lemma_chars_order_equal(x, y);
}

/// A comparison with the `event` variable compares the text of the received
/// event: `event op l` is `e op l`, and `l op event` is `l op e`, where `e` is
/// the event's text; `event op event` compares `e` with itself.
pub proof fn lemma_event_comparison<'a>(interp: AstInterpreter<'a>, op: Infix, name: Ident, l: Literal, text: Seq<char>)
    requires
        name.0@ == "event"@,
        *interp.event matches Some(ev) && ev.payload.content_type@ == "text"@ && ev.payload.content.text@ == text,
    ensures
        interp.spec_condition(Expr::InfixExpr(op, Box::new(Expr::IdentExpr(name)), Box::new(Expr::LitExpr(l))))
            == Ok::<bool, AstError>(spec_literal_test(op, LiteralView::Str(text), l@)),
        interp.spec_condition(Expr::InfixExpr(op, Box::new(Expr::LitExpr(l)), Box::new(Expr::IdentExpr(name))))
            == Ok::<bool, AstError>(spec_literal_test(op, l@, LiteralView::Str(text))),
        interp.spec_condition(Expr::InfixExpr(op, Box::new(Expr::IdentExpr(name)), Box::new(Expr::IdentExpr(name))))
            == Ok::<bool, AstError>(spec_literal_test(op, LiteralView::Str(text), LiteralView::Str(text))),
{
}

/// A comparison of two literals compares their values.
pub proof fn lemma_literal_comparison<'a>(interp: AstInterpreter<'a>, op: Infix, l1: Literal, l2: Literal)
    ensures
        interp.spec_condition(Expr::InfixExpr(op, Box::new(Expr::LitExpr(l1)), Box::new(Expr::LitExpr(l2))))
            == Ok::<bool, AstError>(spec_literal_test(op, l1@, l2@)),
{
}

/// An action that is a literal, of any kind, yields exactly one message: a
/// text rendering that literal.
pub proof fn lemma_literal_action(l: Literal)
    ensures
        spec_action(Expr::LitExpr(l)) == Ok::<MessageTypeView, AstError>(
            MessageTypeView::Msg(MessageView { content_type: "Text"@, content: Expr::LitExpr(l) }),
        ),
{
}

/// `say x` where `x` is a literal.
pub open spec fn is_say_literal(e: Expr) -> bool {
    e matches Expr::Reserved { fun, arg } && fun.0@ == "say"@ && *arg is LitExpr
}

/// The text message that `say x` sends.
pub open spec fn said_text(e: Expr) -> MessageView {
    match e {
        Expr::Reserved { arg, .. } => MessageView { content_type: "Text"@, content: *arg },
        _ => MessageView { content_type: "Text"@, content: e },
    }
}

/// The texts a sequence of `say` instructions sends, in order.
pub open spec fn said_texts(s: Seq<Expr>) -> Seq<MessageView> {
    s.map_values(|e: Expr| said_text(e))
}

/// A result that holds just the given messages.
pub open spec fn only_messages(m: Seq<MessageView>) -> RootView {
    RootView { remember: None, message: m, next_flow: None, next_step: None }
}

proof fn lemma_say_literals_block_from<'a>(interp: AstInterpreter<'a>, s: Seq<Expr>, i: int)
    requires
        0 <= i <= s.len(),
        forall|k: int| 0 <= k < s.len() ==> is_say_literal(#[trigger] s[k]),
    ensures
        interp.spec_block_from(s, i, only_messages(said_texts(s.take(i))))
            == Ok::<RootView, AstError>(only_messages(said_texts(s))),
        interp.spec_if_from(s, i, only_messages(said_texts(s.take(i))))
            == Ok::<RootView, AstError>(only_messages(said_texts(s))),
    decreases s.len() - i,
{
    if i == s.len() {
        assert(s.take(i) =~= s);
    } else {
        let e = s[i];
        assert(is_say_literal(e));
        assert(said_texts(s.take(i + 1)) =~= said_texts(s.take(i)).push(said_text(e)));
        let root = only_messages(said_texts(s.take(i)));
        match e {
            Expr::Reserved { fun, arg } => {
                let out = MessageTypeView::Msg(said_text(e));
                assert(spec_action(*arg) == Ok::<MessageTypeView, AstError>(out));
                assert(interp.spec_reserved(fun, *arg) == Ok::<MessageTypeView, AstError>(out));
                assert(crate::ast_interpreter::spec_reserved_if(fun, *arg) == Ok::<MessageTypeView, AstError>(out));
                assert(root.with_output(out) == only_messages(said_texts(s.take(i + 1))));
            },
            _ => {},
        }
        lemma_say_literals_block_from(interp, s, i + 1);
    }
}

/// A block of `say` instructions on literals sends all their texts, in
/// order, and sets nothing else.
pub proof fn lemma_say_literals_block<'a>(interp: AstInterpreter<'a>, s: Seq<Expr>)
    requires
        forall|k: int| 0 <= k < s.len() ==> is_say_literal(#[trigger] s[k]),
    ensures
        interp.spec_block(s) == Ok::<RootView, AstError>(only_messages(said_texts(s))),
{
    assert(said_texts(s.take(0)) =~= Seq::<MessageView>::empty());
    lemma_say_literals_block_from(interp, s, 0);
}

/// An `if` whose condition holds, on a body of `say` instructions on
/// literals, sends all their texts, in order.
pub proof fn lemma_say_literals_if<'a>(interp: AstInterpreter<'a>, cond: Expr, body: Seq<Expr>)
    requires
        interp.spec_valid_condition(cond),
        forall|k: int| 0 <= k < body.len() ==> is_say_literal(#[trigger] body[k]),
    ensures
        interp.spec_ifexpr(cond, body) == Ok::<RootView, AstError>(only_messages(said_texts(body))),
{
    assert(said_texts(body.take(0)) =~= Seq::<MessageView>::empty());
    lemma_say_literals_block_from(interp, body, 0);
}

/// An `if` inside a block contributes its whole result to the block: a
/// block made of one `if` yields what the `if` yields, and what follows the
/// `if` runs on top of that result.
pub proof fn lemma_if_in_block<'a>(interp: AstInterpreter<'a>, cond: Expr, consequence: Vec<Expr>, t: Seq<Expr>, sub: RootView)
    requires
        interp.spec_ifexpr(cond, consequence@) == Ok::<RootView, AstError>(sub),
    ensures
        interp.spec_block(seq![Expr::IfExpr { cond: Box::new(cond), consequence }]) == Ok::<RootView, AstError>(sub),
        interp.spec_block(seq![Expr::IfExpr { cond: Box::new(cond), consequence }] + t) == interp.spec_block_from(t, 0, sub),
{
    let e = Expr::IfExpr { cond: Box::new(cond), consequence };
    crate::message::lemma_merge_identity(sub);
    let s1 = seq![e];
    assert(s1[0] == e);
    assert(interp.spec_block_from(s1, 1, RootView::empty().merge(sub)) == Ok::<RootView, AstError>(sub));
    assert(interp.spec_block_from(s1, 0, RootView::empty()) == Ok::<RootView, AstError>(sub));
    lemma_block_sequence(interp, seq![e], t, RootView::empty());
}

/// `ask` on a list of instructions sends the messages of that list run as
/// a block.
pub proof fn lemma_ask_block<'a>(interp: AstInterpreter<'a>, fun: Ident, block: Vec<Expr>)
    requires
        fun.0@ == "ask"@,
    ensures
        interp.spec_reserved(fun, Expr::VecExpr(block)) == match interp.spec_block(block@) {
            Ok(r) => Ok::<MessageTypeView, AstError>(MessageTypeView::Msgs(r.message)),
            Err(e) => Err(e),
        },
{
    reveal_strlit("ask");
    reveal_strlit("say");
    assert("say"@ != "ask"@) by {
        assert("say"@[0] != "ask"@[0]);
    }
}

/// Messages are only ever added: what a block or an `if` body produces
/// begins with the messages it started from.
pub proof fn lemma_messages_kept<'a>(interp: AstInterpreter<'a>, s: Seq<Expr>, i: int, root: RootView)
    ensures
        interp.spec_block_from(s, i, root) matches Ok(r) ==> r.message.len() >= root.message.len()
            && r.message.take(root.message.len() as int) == root.message,
        interp.spec_if_from(s, i, root) matches Ok(r) ==> r.message.len() >= root.message.len()
            && r.message.take(root.message.len() as int) == root.message,
    decreases s.len() - i,
{
    if 0 <= i < s.len() && root.next_step is None {
        let n = root.message.len() as int;
        match s[i] {
            Expr::Reserved { fun, arg } => {
                match interp.spec_reserved(fun, *arg) {
                    Ok(out) => {
                        lemma_messages_kept(interp, s, i + 1, root.with_output(out));
                        lemma_output_extends(root, out);
                    },
                    Err(_) => {},
                }
                match crate::ast_interpreter::spec_reserved_if(fun, *arg) {
                    Ok(out) => {
                        lemma_messages_kept(interp, s, i + 1, root.with_output(out));
                        lemma_output_extends(root, out);
                    },
                    Err(_) => {},
                }
            },
            Expr::IfExpr { cond, consequence } => {
                match interp.spec_ifexpr(*cond, consequence@) {
                    Ok(sub) => {
                        lemma_messages_kept(interp, s, i + 1, root.merge(sub));
                        assert(root.merge(sub).message.take(n) =~= root.message);
                    },
                    Err(_) => {},
                }
            },
            Expr::Goto(step) => {
                lemma_messages_kept(interp, s, i + 1, root.with_next_step(step.0@));
                assert(root.message.take(n) =~= root.message);
            },
            _ => {},
        }
    } else {
        assert(root.message.take(root.message.len() as int) =~= root.message);
    }
}

proof fn lemma_output_extends(root: RootView, out: MessageTypeView)
    ensures
        root.with_output(out).message.len() >= root.message.len(),
        root.with_output(out).message.take(root.message.len() as int) == root.message,
{
    assert(root.with_output(out).message.take(root.message.len() as int) =~= root.message);
}

/// The builtins `Typing`, `Wait`, `Text` and `Url` send one message of their
/// own kind, `OneOf` one text and `Button` one button, each rendering the
/// builtin's argument; any other name is refused.
pub proof fn lemma_builtin_messages(b: Ident, args: Expr)
    ensures
        (b.0@ == "Typing"@ || b.0@ == "Wait"@ || b.0@ == "Text"@ || b.0@ == "Url"@) ==>
            spec_action(Expr::Action { builtin: b, args: Box::new(args) }) == Ok::<MessageTypeView, AstError>(
                MessageTypeView::Msg(MessageView { content_type: b.0@, content: args }),
            ),
        b.0@ == "OneOf"@ ==> spec_action(Expr::Action { builtin: b, args: Box::new(args) }) == Ok::<MessageTypeView, AstError>(
            MessageTypeView::Msg(MessageView { content_type: "Text"@, content: args }),
        ),
        b.0@ == "Button"@ ==> spec_action(Expr::Action { builtin: b, args: Box::new(args) }) == Ok::<MessageTypeView, AstError>(
            MessageTypeView::Msg(MessageView { content_type: "Button"@, content: args }),
        ),
        !(b.0@ == "Typing"@ || b.0@ == "Wait"@ || b.0@ == "Text"@ || b.0@ == "Url"@ || b.0@ == "OneOf"@ || b.0@ == "Button"@)
            ==> spec_action(Expr::Action { builtin: b, args: Box::new(args) }) == Err::<MessageTypeView, AstError>(AstError::NoBuiltinFound),
{
    reveal_strlit("Typing");
    reveal_strlit("Wait");
    reveal_strlit("Text");
    reveal_strlit("Url");
    reveal_strlit("OneOf");
    reveal_strlit("Button");
    assert("Button"@[0] != "Typing"@[0]);
    assert("OneOf"@.len() != "Typing"@.len() && "OneOf"@.len() != "Wait"@.len() && "OneOf"@.len() != "Url"@.len());
    assert("Button"@.len() != "Wait"@.len() && "Button"@.len() != "Url"@.len() && "Button"@.len() != "OneOf"@.len());
}

/// `say` and `retry` run their action, in a block and in an `if` body
/// alike; in an `if` body no other word is accepted.
pub proof fn lemma_say_and_retry<'a>(interp: AstInterpreter<'a>, fun: Ident, arg: Expr)
    ensures
        fun.0@ == "say"@ ==> interp.spec_reserved(fun, arg) == spec_action(arg) && spec_reserved_if(fun, arg) == spec_action(arg),
        fun.0@ == "retry"@ ==> interp.spec_reserved(fun, arg) == spec_action(arg) && spec_reserved_if(fun, arg) == spec_action(arg),
        !(fun.0@ == "say"@ || fun.0@ == "retry"@) ==> spec_reserved_if(fun, arg) == Err::<MessageTypeView, AstError>(AstError::NotReservedKeyword),
        !(fun.0@ == "say"@ || fun.0@ == "retry"@ || fun.0@ == "ask"@) ==> interp.spec_reserved(fun, arg) == Err::<MessageTypeView, AstError>(AstError::NotReservedKeyword),
{
    reveal_strlit("ask");
    reveal_strlit("say");
    reveal_strlit("retry");
    assert("say"@ != "retry"@) by {
        assert("say"@.len() != "retry"@.len());
    }
    assert("ask"@ != "retry"@) by {
        assert("ask"@.len() != "retry"@.len());
    }
}

/// A block that starts with `goto step` sends nothing and goes to `step`,
/// whatever follows.
pub proof fn lemma_goto_block<'a>(interp: AstInterpreter<'a>, step: Ident, t: Seq<Expr>)
    ensures
        interp.spec_block(seq![Expr::Goto(step)] + t) == Ok::<RootView, AstError>(
            RootView { next_step: Some(step.0@), ..RootView::empty() },
        ),
{
    let s1 = seq![Expr::Goto(step)];
    assert(s1[0] == Expr::Goto(step));
    assert(interp.spec_block_from(s1, 1, RootView::empty().with_next_step(step.0@))
        == Ok::<RootView, AstError>(RootView::empty().with_next_step(step.0@)));
    lemma_goto_ends_block(interp, s1, t);
}

/// A condition joined with an operand by `&&` has the condition's value,
/// by `||` is true; no other operator joins a condition and an operand.
pub proof fn lemma_condition_and_operand<'a>(interp: AstInterpreter<'a>, op: Infix, c: Expr, l: Literal, b: bool)
    requires
        c is InfixExpr,
        interp.spec_condition(c) == Ok::<bool, AstError>(b),
    ensures
        op == Infix::And ==> interp.spec_condition(Expr::InfixExpr(op, Box::new(c), Box::new(Expr::LitExpr(l)))) == Ok::<bool, AstError>(b),
        op == Infix::Or ==> interp.spec_condition(Expr::InfixExpr(op, Box::new(c), Box::new(Expr::LitExpr(l)))) == Ok::<bool, AstError>(true),
        op == Infix::And ==> interp.spec_condition(Expr::InfixExpr(op, Box::new(Expr::LitExpr(l)), Box::new(c))) == Ok::<bool, AstError>(b),
        op == Infix::Or ==> interp.spec_condition(Expr::InfixExpr(op, Box::new(Expr::LitExpr(l)), Box::new(c))) == Ok::<bool, AstError>(true),
        !(op == Infix::And || op == Infix::Or) ==> interp.spec_condition(Expr::InfixExpr(op, Box::new(c), Box::new(Expr::LitExpr(l))))
            == Err::<bool, AstError>(AstError::NeedAndOr),
{
}

/// The condition of an `if` holds for a literal, for the `event` variable
/// exactly when a text event was received, for a comparison exactly when it
/// evaluates to true, and never for a variable that is not known.
pub proof fn lemma_valid_condition<'a>(interp: AstInterpreter<'a>, l: Literal, name: Ident, c: Expr)
    requires
        c is InfixExpr,
    ensures
        interp.spec_valid_condition(Expr::LitExpr(l)),
        name.0@ == "event"@ ==> interp.spec_valid_condition(Expr::IdentExpr(name))
            == (*interp.event matches Some(ev) && ev.payload.content_type@ == "text"@),
        name.0@ != "event"@ ==> !interp.spec_valid_condition(Expr::IdentExpr(name)),
        interp.spec_valid_condition(c) == (interp.spec_condition(c) == Ok::<bool, AstError>(true)),
{
}

/// Counting `ask` instructions adds up over concatenation, counts one for
/// an `ask` and none for anything else.
pub proof fn lemma_ask_count(s: Seq<Expr>, t: Seq<Expr>, e: Expr)
    ensures
        ask_count(Seq::<Expr>::empty()) == 0,
        ask_count(seq![e]) == if is_ask(e) { 1nat } else { 0nat },
        ask_count(s + t) == ask_count(s) + ask_count(t),
    decreases t.len(),
{
    assert(seq![e].drop_last() =~= Seq::<Expr>::empty());
    if t.len() > 0 {
        lemma_ask_count(s, t.drop_last(), e);
        assert((s + t).drop_last() =~= s + t.drop_last());
    } else {
        assert(s + t =~= s);
    }
}

} // verus!
