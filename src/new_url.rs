use vstd::prelude::*;

use crate::ast::{Expr, ExprOrSpread, Lit, MemberProp, MetaPropKind, NewExpr, expr_span};
use crate::text::{copy_string, str_eq};

verus! {

/// Whether an expression is exactly `import.meta.url`, spans and scopes aside.
pub open spec fn is_import_meta_url(e: Expr) -> bool {
    &&& e matches Expr::Member(m)
    &&& *m.obj matches Expr::MetaProp { kind: MetaPropKind::ImportMeta, .. }
    &&& m.prop matches MemberProp::Ident(p)
    &&& p.sym@ == "url"@
}

/// Two leading arguments, neither spread: a string literal, then `import.meta.url`.
pub open spec fn url_args_ok(a: Seq<ExprOrSpread>) -> bool {
    &&& a.len() >= 2
    &&& !a[0].spread
    &&& !a[1].spread
    &&& (*a[0].expr matches Expr::Lit(Lit::Str(_)))
    &&& is_import_meta_url(*a[1].expr)
}

/// `new URL("path", import.meta.url)`: the start of the path literal, the end of the
/// second argument, and the path; the first two arguments must not be spread.
pub open spec fn new_url_match(n: NewExpr) -> Option<(u32, u32, Seq<char>)> {
    if *n.callee matches Expr::Ident(c) && c.sym@ == "URL"@ && n.args is Some {
        let a = n.args->0@;
        if url_args_ok(a) {
            match *a[0].expr {
                Expr::Lit(Lit::Str(p)) => Some((p.span.lo, expr_span(*a[1].expr).hi, p.value@)),
                _ => None,
            }
        } else {
            None
        }
    } else {
        None
    }
}

fn check_import_meta_url(e: &Expr) -> (r: bool)
    ensures
        r == is_import_meta_url(*e),
{
    match e {
        Expr::Member(m) => match (&*m.obj, &m.prop) {
            (Expr::MetaProp { kind: MetaPropKind::ImportMeta, .. }, MemberProp::Ident(p)) => str_eq(p.sym.as_str(), "url"),
            _ => false,
        },
        _ => false,
    }
}

fn url_args(args: &Vec<ExprOrSpread>) -> (r: Option<(u32, u32, String)>)
    ensures
        r is None <==> !url_args_ok(args@),
        r matches Some(t) ==> match *args@[0].expr {
            Expr::Lit(Lit::Str(p)) => t.0 == p.span.lo && t.1 == expr_span(*args@[1].expr).hi && t.2@ == p.value@,
            _ => false,
        },
{
    if args.len() < 2 || args[0].spread || args[1].spread {
        return None;
    }
    match &*args[0].expr {
        Expr::Lit(Lit::Str(path)) => {
            if check_import_meta_url(&args[1].expr) {
                Some((path.span.lo, args[1].expr.span().hi, copy_string(&path.value)))
            } else {
                None
            }
        },
        _ => None,
    }
}

/// Recognizes `new URL("path", import.meta.url)` and returns the span from the path to the
/// end of `import.meta.url`, with the path.
pub fn match_new_url(new_expr: &NewExpr) -> (r: Option<(u32, u32, String)>)
    ensures
        r is None <==> new_url_match(*new_expr) is None,
        r matches Some(t) ==> new_url_match(*new_expr) == Some((t.0, t.1, t.2@)),
{
    match &*new_expr.callee {
        Expr::Ident(c) => {
            if !str_eq(c.sym.as_str(), "URL") {
                return None;
            }
            match &new_expr.args {
                Some(args) => url_args(args),
                None => None,
            }
        },
        _ => None,
    }
}

} // verus!
