use vstd::prelude::*;

verus! {

/// An identifier of the script language.
#[derive(Clone, Debug, PartialEq, Eq)]
pub struct Ident(pub String);

/// A literal value of the script language.
#[derive(Clone, Debug, PartialEq, Eq)]
pub enum Literal {
    StringLiteral(String),
    IntLiteral(i64),
    BoolLiteral(bool),
}

/// The mathematical value of a literal.
pub enum LiteralView {
    Str(Seq<char>),
    Int(int),
    Bool(bool),
}

impl View for Literal {
    type V = LiteralView;

    open spec fn view(&self) -> LiteralView {
        match self {
            Literal::StringLiteral(s) => LiteralView::Str(s@),
            Literal::IntLiteral(i) => LiteralView::Int(*i as int),
            Literal::BoolLiteral(b) => LiteralView::Bool(*b),
        }
    }
}

/// The outcome of comparing two literals.
#[derive(PartialEq, Eq, Structural, Clone, Copy, Debug)]
pub enum LiteralOrder {
    Less,
    Equal,
    Greater,
}

/// Lexicographic comparison of two character sequences, by code point.
pub open spec fn chars_order(a: Seq<char>, b: Seq<char>) -> LiteralOrder
    decreases a.len(),
{
    if a.len() == 0 {
        if b.len() == 0 { LiteralOrder::Equal } else { LiteralOrder::Less }
    } else if b.len() == 0 {
        LiteralOrder::Greater
    } else if (a[0] as int) < (b[0] as int) {
        LiteralOrder::Less
    } else if (a[0] as int) > (b[0] as int) {
        LiteralOrder::Greater
    } else {
        chars_order(a.drop_first(), b.drop_first())
    }
}

/// The rank of a literal's variant: strings come before integers, which come
/// before booleans.
pub open spec fn variant_rank(l: LiteralView) -> int {
    match l {
        LiteralView::Str(_) => 0,
        LiteralView::Int(_) => 1,
        LiteralView::Bool(_) => 2,
    }
}

pub open spec fn int_order(a: int, b: int) -> LiteralOrder {
    if a < b { LiteralOrder::Less } else if a == b { LiteralOrder::Equal } else { LiteralOrder::Greater }
}

/// The total order on literals: first by variant, then by value (strings
/// lexicographically, integers numerically, `false` before `true`).
pub open spec fn literal_order(a: LiteralView, b: LiteralView) -> LiteralOrder {
    match (a, b) {
        (LiteralView::Str(x), LiteralView::Str(y)) => chars_order(x, y),
        (LiteralView::Int(x), LiteralView::Int(y)) => int_order(x, y),
        (LiteralView::Bool(x), LiteralView::Bool(y)) => int_order(
            if x { 1 } else { 0 },
            if y { 1 } else { 0 },
        ),
        _ => int_order(variant_rank(a), variant_rank(b)),
    }
}

/// Compares two strings lexicographically by code point.
pub fn compare_strings(a: &str, b: &str) -> (r: LiteralOrder)
    ensures
        r == chars_order(a@, b@),
{
    let la = a.unicode_len();
    let lb = b.unicode_len();
    let mut i: usize = 0;
    assert(a@.skip(0) =~= a@);
    assert(b@.skip(0) =~= b@);
    while i < la && i < lb
        invariant
            la == a@.len(),
            lb == b@.len(),
            i <= la,
            i <= lb,
            chars_order(a@, b@) == chars_order(a@.skip(i as int), b@.skip(i as int)),
        decreases la - i,
    {
        let ca = a.get_char(i);
        let cb = b.get_char(i);
        if ca < cb {
            return LiteralOrder::Less;
        }
        if ca > cb {
            return LiteralOrder::Greater;
        }
        assert(a@.skip(i as int).drop_first() =~= a@.skip(i + 1));
        assert(b@.skip(i as int).drop_first() =~= b@.skip(i + 1));
        i = i + 1;
    }
    assert(a@.skip(i as int).len() == la - i);
    assert(b@.skip(i as int).len() == lb - i);
    if i < la {
        LiteralOrder::Greater
    } else if i < lb {
        LiteralOrder::Less
    } else {
        LiteralOrder::Equal
    }
}


/// The comparison operators and logical connectives of conditions.
#[derive(PartialEq, Eq, Structural, Clone, Copy, Debug)]
pub enum Infix {
    Equal,
    GreaterThanEqual,
    LessThanEqual,
    GreaterThan,
    LessThan,
    And,
    Or,
}

/// An expression of the script language.
#[derive(Debug, PartialEq, Eq)]
pub enum Expr {
    Action { builtin: Ident, args: Box<Expr> },
    Reserved { fun: Ident, arg: Box<Expr> },
    IfExpr { cond: Box<Expr>, consequence: Vec<Expr> },
    InfixExpr(Infix, Box<Expr>, Box<Expr>),
    VecExpr(Vec<Expr>),
    Goto(Ident),
    LitExpr(Literal),
    IdentExpr(Ident),
    Empty,
}

impl Literal {
    /// Compares two literals in the order `literal_order` describes.
    pub fn compare(&self, other: &Literal) -> (r: LiteralOrder)
        ensures
            r == literal_order(self@, other@),
    {
        match (self, other) {
            (Literal::StringLiteral(x), Literal::StringLiteral(y)) => compare_strings(x.as_str(), y.as_str()),
            (Literal::IntLiteral(x), Literal::IntLiteral(y)) => {
                if *x < *y {
                    LiteralOrder::Less
                } else if *x == *y {
                    LiteralOrder::Equal
                } else {
                    LiteralOrder::Greater
                }
            },
            (Literal::BoolLiteral(x), Literal::BoolLiteral(y)) => {
                if *x == *y {
                    LiteralOrder::Equal
                } else if *y {
                    LiteralOrder::Less
                } else {
                    LiteralOrder::Greater
                }
            },
            _ => {
                let ra = Self::rank(self);
                let rb = Self::rank(other);
                if ra < rb {
                    LiteralOrder::Less
                } else if ra == rb {
                    LiteralOrder::Equal
                } else {
                    LiteralOrder::Greater
                }
            },
        }
    }

    fn rank(l: &Literal) -> (r: u8)
        ensures
            r as int == variant_rank(l@),
    {
        match l {
            Literal::StringLiteral(_) => 0,
            Literal::IntLiteral(_) => 1,
            Literal::BoolLiteral(_) => 2,
        }
    }

    /// A copy of the literal.
    pub fn duplicate(&self) -> (r: Literal)
        ensures
            r == *self,
            r@ == self@,
    {
        match self {
            Literal::StringLiteral(s) => Literal::StringLiteral(s.clone()),
            Literal::IntLiteral(i) => Literal::IntLiteral(*i),
            Literal::BoolLiteral(b) => Literal::BoolLiteral(*b),
        }
    }
}

/// Two character sequences compare equal exactly when they are the same.
pub proof fn lemma_chars_order_equal(a: Seq<char>, b: Seq<char>)
    ensures
        (chars_order(a, b) == LiteralOrder::Equal) <==> a == b,
    decreases a.len(),
{
    if a.len() > 0 && b.len() > 0 && a[0] == b[0] {
        lemma_chars_order_equal(a.drop_first(), b.drop_first());
        if a.drop_first() == b.drop_first() {
            assert(a =~= b) by {
                assert forall|i: int| 0 <= i < a.len() implies a[i] == b[i] by {
                    if i > 0 {
                        assert(a[i] == a.drop_first()[i - 1]);
                        assert(b[i] == b.drop_first()[i - 1]);
                    }
                }
            }
        }
        if a == b {
            assert(a.drop_first() =~= b.drop_first());
        }
    } else if a.len() > 0 && b.len() > 0 {
        assert(a[0] as int != b[0] as int);
        assert(a != b);
    } else if a.len() != b.len() {
        assert(a != b);
    } else {
        assert(a =~= b);
    }
}

/// Swapping the operands of a character-sequence comparison reverses it.
pub proof fn lemma_chars_order_antisymmetric(a: Seq<char>, b: Seq<char>)
    ensures
        (chars_order(a, b) == LiteralOrder::Less) <==> (chars_order(b, a) == LiteralOrder::Greater),
        (chars_order(a, b) == LiteralOrder::Equal) <==> (chars_order(b, a) == LiteralOrder::Equal),
    decreases a.len(),
{
    if a.len() > 0 && b.len() > 0 && a[0] as int == b[0] as int {
        lemma_chars_order_antisymmetric(a.drop_first(), b.drop_first());
    }
}

/// Literals compare equal exactly when they have the same value.
pub proof fn lemma_literal_order_equal(a: LiteralView, b: LiteralView)
    ensures
        (literal_order(a, b) == LiteralOrder::Equal) <==> a == b,
{
    match (a, b) {
        (LiteralView::Str(x), LiteralView::Str(y)) => lemma_chars_order_equal(x, y),
        _ => {},
    }
}

/// Swapping the operands of a literal comparison reverses it: the order on
/// literals is antisymmetric.
pub proof fn lemma_literal_order_antisymmetric(a: LiteralView, b: LiteralView)
    ensures
        (literal_order(a, b) == LiteralOrder::Less) <==> (literal_order(b, a) == LiteralOrder::Greater),
        (literal_order(a, b) == LiteralOrder::Equal) <==> (literal_order(b, a) == LiteralOrder::Equal),
{
    match (a, b) {
        (LiteralView::Str(x), LiteralView::Str(y)) => lemma_chars_order_antisymmetric(x, y),
        _ => {},
    }
}

} // verus!
