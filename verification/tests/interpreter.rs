use csmlinterpreter::ast::{Expr, Ident, Infix, Literal};
use csmlinterpreter::ast_interpreter::{AstError, AstInterpreter};
use csmlinterpreter::event::{Event, JsContext, PayLoad, PayLoadContent};
use csmlinterpreter::message::{Message, MessageType, RootInterface};

fn ident(s: &str) -> Ident {
    Ident(s.to_string())
}

fn lit_str(s: &str) -> Expr {
    Expr::LitExpr(Literal::StringLiteral(s.to_string()))
}

fn lit_int(i: i64) -> Expr {
    Expr::LitExpr(Literal::IntLiteral(i))
}

fn var(s: &str) -> Expr {
    Expr::IdentExpr(ident(s))
}

fn say(arg: Expr) -> Expr {
    Expr::Reserved { fun: ident("say"), arg: Box::new(arg) }
}

fn reserved(name: &str, arg: Expr) -> Expr {
    Expr::Reserved { fun: ident(name), arg: Box::new(arg) }
}

fn action(builtin: &str, args: Expr) -> Expr {
    Expr::Action { builtin: ident(builtin), args: Box::new(args) }
}

fn infix(op: Infix, l: Expr, r: Expr) -> Expr {
    Expr::InfixExpr(op, Box::new(l), Box::new(r))
}

fn goto(step: &str) -> Expr {
    Expr::Goto(ident(step))
}

fn text_event(text: &str) -> Option<Event> {
    Some(Event {
        payload: PayLoad {
            content_type: "text".to_string(),
            content: PayLoadContent { text: text.to_string() },
        },
    })
}

fn content_types(root: &RootInterface) -> Vec<String> {
    root.message.iter().map(|m| m.content_type.clone()).collect()
}

#[test]
fn say_literal_renders_text() {
    let ctx = JsContext {};
    let event = None;
    let interp = AstInterpreter { context: &ctx, event: &event };
    let block = vec![say(lit_str("hello"))];
    let root = interp.match_block(&block).unwrap();
    assert_eq!(root.message.len(), 1);
    assert_eq!(root.message[0].content_type, "Text");
    assert_eq!(*root.message[0].content, lit_str("hello"));
    assert_eq!(root.next_step, None);
    assert_eq!(root.next_flow, None);
    assert_eq!(root.remember, None);
}

#[test]
fn builtins_render_their_kind() {
    let ctx = JsContext {};
    let event = None;
    let interp = AstInterpreter { context: &ctx, event: &event };
    let block = vec![
        say(action("Typing", lit_int(2))),
        say(action("Wait", lit_int(3))),
        say(action("Text", lit_str("t"))),
        say(action("Url", lit_str("u"))),
        say(action("OneOf", Expr::VecExpr(vec![lit_str("a"), lit_str("b")]))),
        say(action("Button", lit_str("b"))),
    ];
    let root = interp.match_block(&block).unwrap();
    assert_eq!(content_types(&root), vec!["Typing", "Wait", "Text", "Url", "Text", "Button"]);
    assert_eq!(*root.message[0].content, lit_int(2));
    assert_eq!(*root.message[4].content, Expr::VecExpr(vec![lit_str("a"), lit_str("b")]));
}

#[test]
fn unknown_builtin_is_refused() {
    let ctx = JsContext {};
    let event = None;
    let interp = AstInterpreter { context: &ctx, event: &event };
    let block = vec![say(action("Dance", lit_int(1)))];
    let err = interp.match_block(&block).unwrap_err();
    assert_eq!(err, AstError::NoBuiltinFound);
    assert_eq!(err.message(), "Error no builtin found");
}

#[test]
fn empty_action_adds_nothing() {
    let ctx = JsContext {};
    let event = None;
    let interp = AstInterpreter { context: &ctx, event: &event };
    let block = vec![say(Expr::Empty), reserved("retry", lit_str("again"))];
    let root = interp.match_block(&block).unwrap();
    assert_eq!(content_types(&root), vec!["Text"]);
}

#[test]
fn invalid_action_is_refused() {
    let ctx = JsContext {};
    let event = None;
    let interp = AstInterpreter { context: &ctx, event: &event };
    let block = vec![say(goto("x"))];
    assert_eq!(interp.match_block(&block).unwrap_err(), AstError::InvalidAction);
}

#[test]
fn unknown_reserved_word_is_refused() {
    let ctx = JsContext {};
    let event = None;
    let interp = AstInterpreter { context: &ctx, event: &event };
    let block = vec![reserved("shout", lit_str("x"))];
    let err = interp.match_block(&block).unwrap_err();
    assert_eq!(err, AstError::NotReservedKeyword);
    assert_eq!(err.message(), "Error block must start with a reserved keyword");
}

#[test]
fn block_must_start_with_reserved_word() {
    let ctx = JsContext {};
    let event = None;
    let interp = AstInterpreter { context: &ctx, event: &event };
    let block = vec![lit_str("x")];
    let err = interp.match_block(&block).unwrap_err();
    assert_eq!(err, AstError::BlockStart);
    assert_eq!(err.message(), "Block must start with a reserved keyword");
}

#[test]
fn goto_ends_block() {
    let ctx = JsContext {};
    let event = None;
    let interp = AstInterpreter { context: &ctx, event: &event };
    let short = vec![say(lit_str("a")), goto("next")];
    let long = vec![say(lit_str("a")), goto("next"), say(lit_str("b")), reserved("shout", lit_int(1))];
    let r1 = interp.match_block(&short).unwrap();
    let r2 = interp.match_block(&long).unwrap();
    assert_eq!(r1.next_step, Some("next".to_string()));
    assert_eq!(r1, r2);
    assert_eq!(r2.message.len(), 1);
}

#[test]
fn ask_with_block_yields_its_messages() {
    let ctx = JsContext {};
    let event = None;
    let interp = AstInterpreter { context: &ctx, event: &event };
    let inner = Expr::VecExpr(vec![say(lit_str("q1")), say(action("Button", lit_str("b"))), goto("ignored")]);
    let block = vec![reserved("ask", inner), say(lit_str("after"))];
    let root = interp.match_block(&block).unwrap();
    assert_eq!(content_types(&root), vec!["Text", "Button", "Text"]);
    assert_eq!(root.next_step, None);
    assert_eq!(*root.message[2].content, lit_str("after"));
}

#[test]
fn ask_with_single_action() {
    let ctx = JsContext {};
    let event = None;
    let interp = AstInterpreter { context: &ctx, event: &event };
    let block = vec![reserved("ask", lit_str("question"))];
    let root = interp.match_block(&block).unwrap();
    assert_eq!(content_types(&root), vec!["Text"]);
}

#[test]
fn if_with_true_condition_runs_body() {
    let ctx = JsContext {};
    let event = None;
    let interp = AstInterpreter { context: &ctx, event: &event };
    let cond = infix(Infix::LessThan, lit_int(1), lit_int(2));
    let block = vec![
        say(lit_str("before")),
        Expr::IfExpr { cond: Box::new(cond), consequence: vec![say(lit_str("in")), goto("s2"), say(lit_str("never"))] },
        say(lit_str("skipped")),
    ];
    let root = interp.match_block(&block).unwrap();
    assert_eq!(root.message.len(), 2);
    assert_eq!(*root.message[1].content, lit_str("in"));
    assert_eq!(root.next_step, Some("s2".to_string()));
}

#[test]
fn if_with_false_condition_is_an_error() {
    let ctx = JsContext {};
    let event = None;
    let interp = AstInterpreter { context: &ctx, event: &event };
    let cond = infix(Infix::GreaterThan, lit_int(1), lit_int(2));
    let block = vec![Expr::IfExpr { cond: Box::new(cond), consequence: vec![say(lit_str("in"))] }];
    let err = interp.match_block(&block).unwrap_err();
    assert_eq!(err, AstError::IfCondition);
    assert_eq!(err.message(), "error in if condition, it does not reduce to a boolean expression ");
}

#[test]
fn if_body_refuses_ask_and_other_expressions() {
    let ctx = JsContext {};
    let event = None;
    let interp = AstInterpreter { context: &ctx, event: &event };
    let body = vec![reserved("ask", lit_str("q"))];
    assert_eq!(interp.match_ifexpr(&lit_int(1), &body).unwrap_err(), AstError::NotReservedKeyword);
    let body = vec![lit_str("q")];
    let err = interp.match_ifexpr(&lit_int(1), &body).unwrap_err();
    assert_eq!(err, AstError::IfBlock);
    assert_eq!(err.message(), "Error in If block");
}

#[test]
fn nested_if_merges() {
    let ctx = JsContext {};
    let event = text_event("yes");
    let interp = AstInterpreter { context: &ctx, event: &event };
    let inner = Expr::IfExpr {
        cond: Box::new(infix(Infix::Equal, var("event"), lit_str("yes"))),
        consequence: vec![say(lit_str("inner")), goto("deep")],
    };
    let body = vec![say(lit_str("outer")), inner, say(lit_str("not run"))];
    let root = interp.match_ifexpr(&var("event"), &body).unwrap();
    assert_eq!(root.message.len(), 2);
    assert_eq!(*root.message[1].content, lit_str("inner"));
    assert_eq!(root.next_step, Some("deep".to_string()));
}

#[test]
fn if_on_unknown_variable_fails() {
    let ctx = JsContext {};
    let event = None;
    let interp = AstInterpreter { context: &ctx, event: &event };
    assert_eq!(interp.match_ifexpr(&var("event"), &vec![]).unwrap_err(), AstError::IfCondition);
    assert!(!interp.valid_condition(&var("event")));
    assert!(interp.valid_condition(&lit_int(0)));
    assert!(!interp.valid_condition(&Expr::Empty));
}

#[test]
fn check_valid_step_counts_asks() {
    let ctx = JsContext {};
    let event = None;
    let interp = AstInterpreter { context: &ctx, event: &event };
    let one = vec![reserved("ask", lit_str("a")), say(lit_str("b"))];
    let two = vec![reserved("ask", lit_str("a")), say(lit_str("b")), reserved("ask", lit_str("c"))];
    assert!(interp.check_valid_step(&one));
    assert!(!interp.check_valid_step(&two));
    assert!(interp.check_valid_step(&[]));
}

#[test]
fn event_variable() {
    let ctx = JsContext {};
    let event = text_event("hello");
    let interp = AstInterpreter { context: &ctx, event: &event };
    assert_eq!(interp.ger_var(&ident("event")), Ok(Literal::StringLiteral("hello".to_string())));
    let err = interp.ger_var(&ident("other")).unwrap_err();
    assert_eq!(err, AstError::UnknownVariable);
    assert_eq!(err.message(), "unown variable");
    assert_eq!(interp.gen_literal_form_exp(&lit_int(4)), Ok(Literal::IntLiteral(4)));
    let err = interp.gen_literal_form_exp(&Expr::Empty).unwrap_err();
    assert_eq!(err, AstError::NotLiteralOrIdentifier);
    assert_eq!(err.message(), "Expression must be a literal or an identifier");
}

#[test]
fn event_errors() {
    let ctx = JsContext {};
    let none = None;
    let interp = AstInterpreter { context: &ctx, event: &none };
    let err = interp.gen_literal_form_event().unwrap_err();
    assert_eq!(err, AstError::NoEvent);
    assert_eq!(err.message(), "no event is received");
    let payload = Some(Event {
        payload: PayLoad { content_type: "image".to_string(), content: PayLoadContent { text: "x".to_string() } },
    });
    let interp = AstInterpreter { context: &ctx, event: &payload };
    let err = interp.gen_literal_form_event().unwrap_err();
    assert_eq!(err, AstError::UnknownEventType);
    assert_eq!(err.message(), "event type is unown");
}

#[test]
fn literal_comparisons() {
    let ctx = JsContext {};
    let event = None;
    let interp = AstInterpreter { context: &ctx, event: &event };
    let a = Literal::StringLiteral("abc".to_string());
    let b = Literal::StringLiteral("abd".to_string());
    let ab = Literal::StringLiteral("ab".to_string());
    assert!(interp.cmp_lit(&Infix::LessThan, &a, &b));
    assert!(interp.cmp_lit(&Infix::GreaterThan, &a, &ab));
    assert!(interp.cmp_lit(&Infix::Equal, &a, &a.clone()));
    assert!(!interp.cmp_lit(&Infix::Equal, &a, &b));
    assert!(interp.cmp_lit(&Infix::LessThanEqual, &a, &a));
    assert!(interp.cmp_lit(&Infix::GreaterThanEqual, &b, &a));
    let i = Literal::IntLiteral(-3);
    let j = Literal::IntLiteral(7);
    assert!(interp.cmp_lit(&Infix::LessThan, &i, &j));
    assert!(!interp.cmp_lit(&Infix::GreaterThanEqual, &i, &j));
    // strings are ordered before integers, integers before booleans
    assert!(interp.cmp_lit(&Infix::LessThan, &a, &i));
    assert!(interp.cmp_lit(&Infix::LessThan, &j, &Literal::BoolLiteral(false)));
    assert!(interp.cmp_lit(&Infix::LessThan, &Literal::BoolLiteral(false), &Literal::BoolLiteral(true)));
    assert!(interp.cmp_lit(&Infix::And, &a, &b));
    assert!(interp.cmp_lit(&Infix::Or, &a, &b));
    // the order on literals is the one derived ordering gives
    assert!(("abc".to_string()) < ("abd".to_string()));
}

#[test]
fn bool_comparisons() {
    let ctx = JsContext {};
    let event = None;
    let interp = AstInterpreter { context: &ctx, event: &event };
    for b1 in [false, true] {
        for b2 in [false, true] {
            assert_eq!(interp.cmp_bool(&Infix::Equal, b1, b2), b1 == b2);
            assert_eq!(interp.cmp_bool(&Infix::GreaterThanEqual, b1, b2), b1 >= b2);
            assert_eq!(interp.cmp_bool(&Infix::LessThanEqual, b1, b2), b1 <= b2);
            assert_eq!(interp.cmp_bool(&Infix::GreaterThan, b1, b2), b1 > b2);
            assert_eq!(interp.cmp_bool(&Infix::LessThan, b1, b2), b1 < b2);
            assert_eq!(interp.cmp_bool(&Infix::And, b1, b2), b1 && b2);
            assert_eq!(interp.cmp_bool(&Infix::Or, b1, b2), b1 || b2);
        }
    }
}

#[test]
fn condition_evaluation() {
    let ctx = JsContext {};
    let event = text_event("hi");
    let interp = AstInterpreter { context: &ctx, event: &event };
    let t = infix(Infix::Equal, var("event"), lit_str("hi"));
    let f = infix(Infix::Equal, lit_str("ho"), var("event"));
    assert_eq!(interp.evaluate_condition(&Infix::Equal, &var("event"), &var("event")), Ok(true));
    assert_eq!(interp.evaluate_condition(&Infix::And, &t, &f), Ok(false));
    assert_eq!(interp.evaluate_condition(&Infix::Or, &t, &f), Ok(true));
    assert_eq!(interp.evaluate_condition(&Infix::Equal, &f, &f), Ok(true));
    assert_eq!(interp.evaluate_condition(&Infix::And, &t, &lit_int(0)), Ok(true));
    assert_eq!(interp.evaluate_condition(&Infix::Or, &f, &lit_int(0)), Ok(true));
    assert_eq!(interp.evaluate_condition(&Infix::And, &lit_int(0), &f), Ok(false));
    let err = interp.evaluate_condition(&Infix::Equal, &t, &lit_int(0)).unwrap_err();
    assert_eq!(err, AstError::NeedAndOr);
    assert_eq!(err.message(), "error need && or ||");
    assert_eq!(interp.evaluate_condition(&Infix::Equal, &lit_int(0), &t), Err(AstError::NeedAndOr));
    assert!(interp.get_expr(&t));
    assert!(!interp.get_expr(&f));
    assert!(interp.get_expr(&lit_int(1)));
    assert!(!interp.get_expr(&var("event")));
}

#[test]
fn condition_errors() {
    let ctx = JsContext {};
    let event = None;
    let interp = AstInterpreter { context: &ctx, event: &event };
    let cases = vec![
        (var("x"), var("y"), AstError::IdentIdentEvaluation, "error in evaluation between ident and ident"),
        (var("x"), lit_int(1), AstError::IdentLiteralEvaluation, "error in evaluation between ident and lit"),
        (lit_int(1), var("x"), AstError::LiteralIdentEvaluation, "error in evaluation between lit and ident"),
        (
            infix(Infix::Equal, var("x"), lit_int(1)),
            infix(Infix::Equal, lit_int(1), lit_int(1)),
            AstError::InfixInfixEvaluation,
            "error in evaluation between InfixExpr and InfixExpr",
        ),
        (
            infix(Infix::Equal, lit_int(1), lit_int(1)),
            Expr::Empty,
            AstError::InfixExprEvaluation,
            "error in evaluation between InfixExpr and expr",
        ),
        (
            var("x"),
            infix(Infix::Equal, lit_int(1), lit_int(1)),
            AstError::ExprInfixEvaluation,
            "error in evaluation between expr and InfixExpr",
        ),
        (Expr::Empty, lit_int(1), AstError::ConditionEvaluation, "error in evaluate_condition function"),
    ];
    for (l, r, e, msg) in cases {
        let got = interp.evaluate_condition(&Infix::And, &l, &r).unwrap_err();
        assert_eq!(got, e);
        assert_eq!(got.message(), msg);
    }
    assert_eq!(AstError::InvalidAction.message(), "Error must be a valid action");
}

#[test]
fn root_merge() {
    let a = lit_str("a");
    let b = lit_str("b");
    let left = RootInterface {
        remember: None,
        message: vec![Message::new(&a, "Text".to_string())],
        next_flow: Some("f1".to_string()),
        next_step: Some("s1".to_string()),
    };
    let right = RootInterface {
        remember: None,
        message: vec![Message::new(&b, "Text".to_string())],
        next_flow: None,
        next_step: Some("s2".to_string()),
    };
    let merged = left.merge(right);
    assert_eq!(merged.message.len(), 2);
    assert_eq!(*merged.message[0].content, lit_str("a"));
    assert_eq!(*merged.message[1].content, lit_str("b"));
    assert_eq!(merged.next_flow, Some("f1".to_string()));
    assert_eq!(merged.next_step, Some("s2".to_string()));
    let empty = RootInterface::empty();
    let same = RootInterface::empty().merge(RootInterface { remember: None, message: vec![], next_flow: None, next_step: Some("x".to_string()) });
    assert_eq!(same.next_step, Some("x".to_string()));
    assert_eq!(empty.message.len(), 0);
}

#[test]
fn root_outputs() {
    let a = lit_str("a");
    let mut root = RootInterface::empty();
    root.add_output(MessageType::Msgs(vec![Message::new(&a, "Text".to_string()), Message::new(&a, "Url".to_string())]));
    root.add_output(MessageType::Empty);
    root.add_message(Message::new(&a, "Button".to_string()));
    root.add_next_step("end");
    assert_eq!(content_types(&root), vec!["Text", "Url", "Button"]);
    assert_eq!(root.next_step, Some("end".to_string()));
}

#[test]
fn blocks_run_in_sequence() {
    let ctx = JsContext {};
    let event = None;
    let interp = AstInterpreter { context: &ctx, event: &event };
    let s = vec![say(lit_str("a")), say(action("Url", lit_str("u")))];
    let t = vec![say(lit_str("b")), goto("t")];
    let mut st: Vec<Expr> = vec![say(lit_str("a")), say(action("Url", lit_str("u")))];
    st.push(say(lit_str("b")));
    st.push(goto("t"));
    let rs = interp.match_block(&s).unwrap();
    let rt = interp.match_block(&t).unwrap();
    let rst = interp.match_block(&st).unwrap();
    assert_eq!(rst, rs.merge(rt));
    assert_eq!(content_types(&rst), vec!["Text", "Url", "Text"]);
    // an error in the first part ends the whole block
    let bad = vec![say(lit_str("a")), lit_int(3), say(lit_str("b"))];
    assert_eq!(interp.match_block(&bad).unwrap_err(), AstError::BlockStart);
}

#[test]
fn empty_block_yields_empty_root() {
    let ctx = JsContext {};
    let event = None;
    let interp = AstInterpreter { context: &ctx, event: &event };
    let root = interp.match_block(&[]).unwrap();
    assert_eq!(root, RootInterface::empty());
}
