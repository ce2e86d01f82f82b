//! The textual form of a tree: fully parenthesised, operator first.
//!
//! A binary node prints as `(op left right)`, a unary node as
//! `(op right)`, a grouping as `(group inner)`. A string literal prints
//! as its text and a number as the caller's `show` prints its numeral;
//! `true`, `false` and `nil` print as nothing.

use vstd::prelude::*;
use vstd::string::StringExecFns;
use crate::expr::{Expr, ExprView};
use crate::token::{Kind, TokenType, TokenView};

verus! {

/// Whether `show` may print the numeral `text` as `out`.
pub open spec fn shows<F: Fn(&str) -> String>(show: F, text: Seq<char>, out: Seq<char>) -> bool {
    exists|s: &str, r: String| s@ == text && r@ == out && #[trigger] show.ensures((s,), r)
}

/// Whether `out` may be the text of a literal.
pub open spec fn literal_text<F: Fn(&str) -> String>(k: Kind, show: F, out: Seq<char>) -> bool {
    match k {
        Kind::Str(text) => out == text,
        Kind::Number(text) => shows(show, text, out),
        _ => out == Seq::<char>::empty(),
    }
}

/// The text of a grouping around `inner`.
pub open spec fn group_text(inner: Seq<char>) -> Seq<char> {
    "(group "@ + inner + ")"@
}

/// The text of a unary node.
pub open spec fn unary_text(op: TokenView, right: Seq<char>) -> Seq<char> {
    "("@ + op.lexeme + " "@ + right + ")"@
}

/// The text of a binary node.
pub open spec fn binary_text(op: TokenView, left: Seq<char>, right: Seq<char>) -> Seq<char> {
    "("@ + op.lexeme + " "@ + left + " "@ + right + ")"@
}

/// Whether `out` may be the text of the tree `e`.
pub open spec fn renders<F: Fn(&str) -> String>(e: ExprView, show: F, out: Seq<char>) -> bool
    decreases e,
{
    match e {
        ExprView::Literal { value } => literal_text(value, show, out),
        ExprView::Grouping { expression } => exists|inner: Seq<char>|
            renders(*expression, show, inner) && out == #[trigger] group_text(inner),
        ExprView::Unary { op, right } => exists|r: Seq<char>|
            renders(*right, show, r) && out == #[trigger] unary_text(op, r),
        ExprView::Binary { left, op, right } => exists|l: Seq<char>, r: Seq<char>|
            renders(*left, show, l) && renders(*right, show, r) && out == #[trigger] binary_text(
                op,
                l,
                r,
            ),
    }
}

/// The text of a literal.
pub fn render_literal<F: Fn(&str) -> String>(value: &TokenType, show: &F) -> (r: String)
    requires
        forall|s: &str| show.requires((s,)),
    ensures
        literal_text(value@, *show, r@),
{
    match value {
        TokenType::Str(s) => s.clone(),
        TokenType::Number(text) => show(text.as_str()),
        _ => String::new(),
    }
}

impl Expr {
    /// The text of the tree. It depends on the tree alone, not on how the
    /// source was spaced.
    pub fn render<F: Fn(&str) -> String>(&self, show: &F) -> (r: String)
        requires
            forall|s: &str| show.requires((s,)),
        ensures
            renders(self@, *show, r@),
        decreases self,
    {
        match self {
            Expr::Literal { value } => render_literal(value, show),
            Expr::Grouping { expression } => {
                let inner = expression.render(show);
                let mut r = String::from_str("(group ");
                r.append(inner.as_str());
                r.append(")");
                assert(r@ == group_text(inner@));
                r
            },
            Expr::Unary { op, right } => {
                let right_text = right.render(show);
                let mut r = String::from_str("(");
                r.append(op.lexeme.as_str());
                r.append(" ");
                r.append(right_text.as_str());
                r.append(")");
                assert(r@ == unary_text(op@, right_text@));
                r
            },
            Expr::Binary { left, op, right } => {
                let left_text = left.render(show);
                let right_text = right.render(show);
                let mut r = String::from_str("(");
                r.append(op.lexeme.as_str());
                r.append(" ");
                r.append(left_text.as_str());
                r.append(" ");
                r.append(right_text.as_str());
                r.append(")");
                assert(r@ == binary_text(op@, left_text@, right_text@));
                r
            },
        }
    }
}

/// Whether `show` prints one numeral in one way.
pub open spec fn prints_one_text<F: Fn(&str) -> String>(show: F) -> bool {
    forall|s: &str, t: &str, a: String, b: String|
        s@ == t@ && #[trigger] show.ensures((s,), a) && #[trigger] show.ensures((t,), b) ==> a@
            == b@
}

/// Where `show` prints one numeral in one way, a tree has one text: the
/// text is a function of the tree.
pub proof fn text_is_determined_by_the_tree<F: Fn(&str) -> String>(
    e: ExprView,
    show: F,
    a: Seq<char>,
    b: Seq<char>,
)
    requires
        prints_one_text(show),
        renders(e, show, a),
        renders(e, show, b),
    ensures
        a == b,
    decreases e,
{
    match e {
        ExprView::Literal { value } => {},
        ExprView::Grouping { expression } => {
            let ia = choose|inner: Seq<char>|
                renders(*expression, show, inner) && a == #[trigger] group_text(inner);
            let ib = choose|inner: Seq<char>|
                renders(*expression, show, inner) && b == #[trigger] group_text(inner);
            text_is_determined_by_the_tree(*expression, show, ia, ib);
        },
        ExprView::Unary { op, right } => {
            let ra = choose|r: Seq<char>|
                renders(*right, show, r) && a == #[trigger] unary_text(op, r);
            let rb = choose|r: Seq<char>|
                renders(*right, show, r) && b == #[trigger] unary_text(op, r);
            text_is_determined_by_the_tree(*right, show, ra, rb);
        },
        ExprView::Binary { left, op, right } => {
            let (la, ra) = choose|l: Seq<char>, r: Seq<char>|
                renders(*left, show, l) && renders(*right, show, r) && a == #[trigger] binary_text(
                    op,
                    l,
                    r,
                );
            let (lb, rb) = choose|l: Seq<char>, r: Seq<char>|
                renders(*left, show, l) && renders(*right, show, r) && b == #[trigger] binary_text(
                    op,
                    l,
                    r,
                );
            text_is_determined_by_the_tree(*left, show, la, lb);
            text_is_determined_by_the_tree(*right, show, ra, rb);
        },
    }
}

} // verus!
