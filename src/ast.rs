use vstd::prelude::*;

verus! {

/// A range `[lo, hi)` of byte offsets in the module's source text.
#[derive(Clone, Copy, Debug, PartialEq, Eq, Structural)]
pub struct Span {
    pub lo: u32,
    pub hi: u32,
}

/// An identifier: its text, the parser's hygiene token for its scope, and where it stands.
#[derive(Clone, Debug)]
pub struct Ident {
    pub sym: String,
    pub ctxt: u32,
    pub span: Span,
}

/// A string literal with its (unquoted) value.
#[derive(Clone, Debug)]
pub struct StrLit {
    pub value: String,
    pub span: Span,
}

#[derive(Clone, Debug)]
pub enum ModuleExportName {
    Ident(Ident),
    Str(StrLit),
}

#[derive(Clone, Debug)]
pub enum ImportSpecifier {
    /// `import { imported as local }` (or `{ local }` when `imported` is absent)
    Named { local: Ident, imported: Option<ModuleExportName> },
    /// `import local from`
    Default { local: Ident },
    /// `import * as local from`
    Namespace { local: Ident },
}

#[derive(Clone, Debug)]
pub struct ImportDecl {
    pub span: Span,
    pub src: StrLit,
    pub specifiers: Vec<ImportSpecifier>,
}

#[derive(Clone, Debug)]
pub enum ExportSpecifier {
    /// `export * as name from`
    Namespace { name: ModuleExportName },
    /// `export name from` (a proposal form)
    Default { exported: Ident },
    /// `export { orig as exported } from`
    Named { orig: ModuleExportName, exported: Option<ModuleExportName> },
}

/// `export { .. }`, with a source module for a re-export.
#[derive(Clone, Debug)]
pub struct NamedExport {
    pub span: Span,
    pub src: Option<StrLit>,
    pub specifiers: Vec<ExportSpecifier>,
}

/// `export * from src`
#[derive(Clone, Debug)]
pub struct ExportAll {
    pub span: Span,
    pub src: StrLit,
}

#[derive(Clone, Debug)]
pub enum Lit {
    Str(StrLit),
    Other(Span),
}

#[derive(Clone, Copy, Debug, PartialEq, Eq, Structural)]
pub enum MetaPropKind {
    ImportMeta,
    NewTarget,
}

#[derive(Debug)]
pub enum MemberProp {
    Ident(Ident),
    Computed(Box<Expr>),
}

#[derive(Debug)]
pub struct MemberExpr {
    pub span: Span,
    pub obj: Box<Expr>,
    pub prop: MemberProp,
}

#[derive(Debug)]
pub enum Callee {
    Super,
    Import,
    Expr(Box<Expr>),
}

/// An argument, with whether it is spread (`...expr`).
#[derive(Debug)]
pub struct ExprOrSpread {
    pub spread: bool,
    pub expr: Box<Expr>,
}

#[derive(Debug)]
pub struct CallExpr {
    pub span: Span,
    pub callee: Callee,
    pub args: Vec<ExprOrSpread>,
}

#[derive(Debug)]
pub struct NewExpr {
    pub span: Span,
    pub callee: Box<Expr>,
    pub args: Option<Vec<ExprOrSpread>>,
}

#[derive(Clone, Copy, Debug, PartialEq, Eq, Structural)]
pub enum AssignOp {
    /// `=`
    Assign,
    /// any compound assignment (`+=`, `??=`, ...)
    Compound,
}

#[derive(Debug)]
pub enum PropName {
    Ident(Ident),
    Str(StrLit),
    Computed(Box<Expr>),
}

#[derive(Debug)]
pub enum ObjectPatProp {
    /// `key: value`
    KeyValue { key: PropName, value: Box<Pat> },
    /// `key` or `key = default`
    Assign { key: Ident, value: Option<Box<Expr>> },
    /// `...rest`
    Rest { arg: Box<Pat> },
}

#[derive(Debug)]
pub enum Pat {
    Ident(Ident),
    Object { span: Span, props: Vec<ObjectPatProp> },
    Expr(Box<Expr>),
}

#[derive(Debug)]
pub enum PatOrExpr {
    Pat(Pat),
    Expr(Box<Expr>),
}

#[derive(Debug)]
pub struct AssignExpr {
    pub span: Span,
    pub op: AssignOp,
    pub left: PatOrExpr,
    pub right: Box<Expr>,
}

/// One binding of a variable declaration: `name = init`.
#[derive(Debug)]
pub struct VarDeclarator {
    pub span: Span,
    pub name: Pat,
    pub init: Option<Box<Expr>>,
}

#[derive(Debug)]
pub enum Prop {
    /// `{ x }`
    Shorthand(Ident),
    /// `{ key: value }`
    KeyValue { key: PropName, value: Box<Expr> },
    /// any other member (method, accessor, spread), by its subexpressions in order
    Other { span: Span, children: Vec<Expr> },
}

/// An expression, with the forms that the analysis reads spelled out and every other
/// form given by its span and its subexpressions in source order.
#[derive(Debug)]
pub enum Expr {
    Ident(Ident),
    Lit(Lit),
    Member(MemberExpr),
    Call(CallExpr),
    New(NewExpr),
    Assign(AssignExpr),
    Object { span: Span, props: Vec<Prop> },
    MetaProp { span: Span, kind: MetaPropKind },
    /// a variable declaration (`const`, `let` or `var`) with its bindings in order
    VarDecl { span: Span, decls: Vec<VarDeclarator> },
    Other { span: Span, children: Vec<Expr> },
}

#[derive(Debug)]
pub enum ModuleItem {
    Import(ImportDecl),
    NamedExport(NamedExport),
    ExportAll(ExportAll),
    Stmt(Expr),
}

/// A parsed module.
#[derive(Debug)]
pub struct Program {
    pub body: Vec<ModuleItem>,
}

impl Expr {
    /// The span of the whole expression.
    pub fn span(&self) -> (r: Span)
        ensures
            r == expr_span(*self),
    {
        match self {
            Expr::Ident(i) => i.span,
            Expr::Lit(Lit::Str(s)) => s.span,
            Expr::Lit(Lit::Other(sp)) => *sp,
            Expr::Member(m) => m.span,
            Expr::Call(c) => c.span,
            Expr::New(n) => n.span,
            Expr::Assign(a) => a.span,
            Expr::Object { span, .. } => *span,
            Expr::MetaProp { span, .. } => *span,
            Expr::VarDecl { span, .. } => *span,
            Expr::Other { span, .. } => *span,
        }
    }
}

pub open spec fn expr_span(e: Expr) -> Span {
    match e {
        Expr::Ident(i) => i.span,
        Expr::Lit(Lit::Str(s)) => s.span,
        Expr::Lit(Lit::Other(sp)) => sp,
        Expr::Member(m) => m.span,
        Expr::Call(c) => c.span,
        Expr::New(n) => n.span,
        Expr::Assign(a) => a.span,
        Expr::Object { span, .. } => span,
        Expr::MetaProp { span, .. } => span,
        Expr::VarDecl { span, .. } => span,
        Expr::Other { span, .. } => span,
    }
}

} // verus!
