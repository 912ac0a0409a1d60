//! Bodies of functions, with their statements and expressions.
use vstd::prelude::*;

use crate::common::{BodyId, ExprId, ItemId, SpanId, StmtId};
use crate::item::ItemKind;

verus! {

/// A literal expression.
#[derive(Debug)]
pub struct LitExpr {
    pub id: ExprId,
    pub span: SpanId,
}

/// A path expression, with the item it resolves to, where it names one.
#[derive(Debug)]
pub struct PathExpr {
    pub id: ExprId,
    pub span: SpanId,
    pub target: Option<ItemId>,
}

/// An expression that the model does not represent yet.
#[derive(Debug)]
pub struct UnstableExpr {
    pub id: ExprId,
    pub span: SpanId,
}

/// An expression.
#[derive(Debug)]
#[non_exhaustive]
pub enum ExprKind {
    Lit(LitExpr),
    Path(PathExpr),
    Unstable(UnstableExpr),
}

impl ExprKind {
    pub open spec fn spec_id(&self) -> ExprId {
        match self {
            ExprKind::Lit(e) => e.id,
            ExprKind::Path(e) => e.id,
            ExprKind::Unstable(e) => e.id,
        }
    }

    pub fn id(&self) -> (r: ExprId)
        ensures
            r == self.spec_id(),
    {
        match self {
            ExprKind::Lit(e) => e.id,
            ExprKind::Path(e) => e.id,
            ExprKind::Unstable(e) => e.id,
        }
    }
}

/// A `let` statement, with its initializer where it has one.
#[derive(Debug)]
pub struct LetStmt {
    pub id: StmtId,
    pub span: SpanId,
    pub init: Option<ExprKind>,
}

/// An expression used as a statement.
#[derive(Debug)]
pub struct ExprStmt {
    pub id: StmtId,
    pub span: SpanId,
    pub expr: ExprKind,
}

/// An item declared inside a body.
#[derive(Debug)]
pub struct ItemStmt {
    pub id: StmtId,
    pub span: SpanId,
    pub item: ItemKind,
}

/// A statement.
#[derive(Debug)]
#[non_exhaustive]
pub enum StmtKind {
    Let(LetStmt),
    Expr(ExprStmt),
    Item(ItemStmt),
}

impl StmtKind {
    pub open spec fn spec_id(&self) -> StmtId {
        match self {
            StmtKind::Let(s) => s.id,
            StmtKind::Expr(s) => s.id,
            StmtKind::Item(s) => s.id,
        }
    }

    pub fn id(&self) -> (r: StmtId)
        ensures
            r == self.spec_id(),
    {
        match self {
            StmtKind::Let(s) => s.id,
            StmtKind::Expr(s) => s.id,
            StmtKind::Item(s) => s.id,
        }
    }
}

/// The executable part of a function.
#[derive(Debug)]
pub struct Body {
    pub id: BodyId,
    pub owner: ItemId,
    pub stmts: Vec<StmtKind>,
}

} // verus!
