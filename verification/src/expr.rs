//! The expression tree.

use vstd::prelude::*;
use crate::token::{Kind, Token, TokenType, TokenView};

verus! {

/// An expression. Each node owns its children.
#[derive(Debug)]
pub enum Expr {
    Binary { left: Box<Expr>, op: Token, right: Box<Expr> },
    Grouping { expression: Box<Expr> },
    Literal { value: TokenType },
    Unary { op: Token, right: Box<Expr> },
}

/// The mathematical value of an `Expr`.
pub ghost enum ExprView {
    Binary { left: Box<ExprView>, op: TokenView, right: Box<ExprView> },
    Grouping { expression: Box<ExprView> },
    Literal { value: Kind },
    Unary { op: TokenView, right: Box<ExprView> },
}

impl Expr {
    /// The mathematical value of the tree, node by node.
    pub open spec fn model(self) -> ExprView
        decreases self,
    {
        match self {
            Expr::Binary { left, op, right } => ExprView::Binary {
                left: Box::new(left.model()),
                op: op@,
                right: Box::new(right.model()),
            },
            Expr::Grouping { expression } => ExprView::Grouping {
                expression: Box::new(expression.model()),
            },
            Expr::Literal { value } => ExprView::Literal { value: value@ },
            Expr::Unary { op, right } => ExprView::Unary {
                op: op@,
                right: Box::new(right.model()),
            },
        }
    }
}

impl View for Expr {
    type V = ExprView;

    open spec fn view(&self) -> ExprView {
        self.model()
    }
}

} // verus!
