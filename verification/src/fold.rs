//! The structural rewrite traversal ("fold"), at the spec level.
//!
//! A pass is one of a closed set of named transforms. The traversal
//! recurses into every owned child of the expression/statement families
//! bottom-up, in source order, threading the scope of hoisted temporary
//! names, and applies the pass's per-expression hook to each expression
//! after its children. Function bodies and the module body open a fresh
//! scope; the temporaries a scope collects become one `var` declaration
//! prepended to that body. TypeScript type-annotation payloads are
//! carried unchanged.
use crate::expr::Expr;
use crate::expr::ExprOrSpread;
use crate::expr::ExprOrSuper;
use crate::ident::Ident;
use crate::module::Module;
use crate::module::ModuleItem;
use crate::pat::Pat;
use crate::span::dummy_span;
use crate::span::Span;
use crate::spread::hook_expr;
use crate::spread::spread_hook;
use crate::stmt::BlockStmt;
use crate::stmt::Decl;
use crate::stmt::ExprStmt;
use crate::stmt::FnDecl;
use crate::stmt::Function;
use crate::stmt::ReturnStmt;
use crate::stmt::Stmt;
use crate::stmt::VarDecl;
use crate::stmt::VarDeclKind;
use crate::stmt::VarDeclarator;
use crate::views::lemma_view_args;
use crate::views::lemma_view_declarators;
use crate::views::lemma_view_elems;
use crate::views::lemma_view_items;
use crate::views::lemma_view_names;
use crate::views::lemma_view_opt_pats;
use crate::views::lemma_view_pats;
use crate::views::lemma_view_stmts;
use crate::views::view_block;
use crate::views::view_callee;
use crate::views::view_decl;
use crate::views::view_declarator;
use crate::views::view_declarators;
use crate::views::view_elems;
use crate::views::view_eos;
use crate::views::view_expr;
use crate::views::view_function;
use crate::views::view_ident;
use crate::views::view_item;
use crate::views::view_items;
use crate::views::view_module;
use crate::views::view_names;
use crate::views::view_opt_eos;
use crate::views::view_opt_pat;
use crate::views::view_opt_pats;
use crate::views::view_pat;
use crate::views::view_pats;
use crate::views::view_stmt;
use crate::views::view_stmts;
use crate::views::view_var_decl;
use crate::views::BlockV;
use crate::views::CalleeV;
use crate::views::DeclV;
use crate::views::EosV;
use crate::views::ExprV;
use crate::views::FunctionV;
use crate::views::IdentV;
use crate::views::ModuleV;
use crate::views::PatV;
use crate::views::StmtV;
use crate::views::VarDeclV;
use crate::views::VarDeclaratorV;
use vstd::prelude::*;

verus! {

/// The closed set of compatibility passes this pipeline knows.
#[derive(Clone, Copy, Debug, PartialEq, Eq, Structural)]
pub enum Pass {
    /// The identity transform: every node falls through the default
    /// structural recursion unchanged.
    Noop,
    /// Spread lowering. It expects rest parameters to have been
    /// materialized by an earlier parameters lowering, so a pipeline
    /// that uses both must order that pass before this one.
    Spread,
}

/// The per-expression hook of a pass, run after the children.
pub open spec fn hook_s(p: Pass, names: Seq<Seq<char>>, e: ExprV) -> (Seq<Seq<char>>, ExprV) {
    match p {
        Pass::Noop => (names, e),
        Pass::Spread => hook_expr(names, e),
    }
}

pub open spec fn fold_expr_s(p: Pass, names: Seq<Seq<char>>, e: ExprV) -> (Seq<Seq<char>>, ExprV)
    decreases e,
{
    match e {
        ExprV::This { .. } => hook_s(p, names, e),
        ExprV::Ident(_) => hook_s(p, names, e),
        ExprV::Lit(_) => hook_s(p, names, e),
        ExprV::Array { span, elems } => {
            let (n1, elems1) = fold_elems_s(p, names, elems);
            hook_s(p, n1, ExprV::Array { span, elems: elems1 })
        },
        ExprV::Unary { span, op, arg } => {
            let (n1, a1) = fold_expr_s(p, names, *arg);
            hook_s(p, n1, ExprV::Unary { span, op, arg: Box::new(a1) })
        },
        ExprV::Assign { span, op, left, right } => {
            let (n1, l1) = fold_pat_s(p, names, *left);
            let (n2, r1) = fold_expr_s(p, n1, *right);
            hook_s(p, n2, ExprV::Assign { span, op, left: Box::new(l1), right: Box::new(r1) })
        },
        ExprV::Member { span, obj, prop, computed } => {
            let (n1, o1) = fold_callee_s(p, names, obj);
            let (n2, p1) = fold_expr_s(p, n1, *prop);
            hook_s(p, n2, ExprV::Member { span, obj: o1, prop: Box::new(p1), computed })
        },
        ExprV::Call { span, callee, args } => {
            let (n1, c1) = fold_callee_s(p, names, callee);
            let (n2, a1) = fold_args_s(p, n1, args);
            hook_s(p, n2, ExprV::Call { span, callee: c1, args: a1 })
        },
        ExprV::New { span, callee, args } => {
            let (n1, c1) = fold_expr_s(p, names, *callee);
            let (n2, a1) = fold_args_s(p, n1, args);
            hook_s(p, n2, ExprV::New { span, callee: Box::new(c1), args: a1 })
        },
        ExprV::TsTypeAssertion { span, expr, type_ann } => {
            let (n1, e1) = fold_expr_s(p, names, *expr);
            hook_s(p, n1, ExprV::TsTypeAssertion { span, expr: Box::new(e1), type_ann })
        },
        ExprV::TsNonNull { span, expr } => {
            let (n1, e1) = fold_expr_s(p, names, *expr);
            hook_s(p, n1, ExprV::TsNonNull { span, expr: Box::new(e1) })
        },
        ExprV::TsAs { span, expr, type_ann } => {
            let (n1, e1) = fold_expr_s(p, names, *expr);
            hook_s(p, n1, ExprV::TsAs { span, expr: Box::new(e1), type_ann })
        },
    }
}

pub open spec fn fold_callee_s(p: Pass, names: Seq<Seq<char>>, c: CalleeV) -> (
    Seq<Seq<char>>,
    CalleeV,
)
    decreases c,
{
    match c {
        CalleeV::Super(_) => (names, c),
        CalleeV::Expr(e) => {
            let (n1, e1) = fold_expr_s(p, names, *e);
            (n1, CalleeV::Expr(Box::new(e1)))
        },
    }
}

pub open spec fn fold_eos_s(p: Pass, names: Seq<Seq<char>>, a: EosV) -> (Seq<Seq<char>>, EosV)
    decreases a,
{
    let (n1, e1) = fold_expr_s(p, names, a.expr);
    (n1, EosV { spread: a.spread, expr: e1 })
}

pub open spec fn fold_opt_eos_s(p: Pass, names: Seq<Seq<char>>, o: Option<EosV>) -> (
    Seq<Seq<char>>,
    Option<EosV>,
)
    decreases o,
{
    match o {
        Option::None => (names, Option::None),
        Option::Some(a) => {
            let (n1, a1) = fold_eos_s(p, names, a);
            (n1, Option::Some(a1))
        },
    }
}

pub open spec fn fold_elems_s(p: Pass, names: Seq<Seq<char>>, s: Seq<Option<EosV>>) -> (
    Seq<Seq<char>>,
    Seq<Option<EosV>>,
)
    decreases s,
{
    if s.len() == 0 {
        (names, Seq::empty())
    } else {
        let (n1, x1) = fold_opt_eos_s(p, names, s[0]);
        let (n2, rest) = fold_elems_s(p, n1, s.drop_first());
        (n2, seq![x1] + rest)
    }
}

pub open spec fn fold_args_s(p: Pass, names: Seq<Seq<char>>, s: Seq<EosV>) -> (
    Seq<Seq<char>>,
    Seq<EosV>,
)
    decreases s,
{
    if s.len() == 0 {
        (names, Seq::empty())
    } else {
        let (n1, x1) = fold_eos_s(p, names, s[0]);
        let (n2, rest) = fold_args_s(p, n1, s.drop_first());
        (n2, seq![x1] + rest)
    }
}

pub open spec fn fold_pat_s(p: Pass, names: Seq<Seq<char>>, pt: PatV) -> (Seq<Seq<char>>, PatV)
    decreases pt,
{
    match pt {
        PatV::Ident(_) => (names, pt),
        PatV::Array { span, elems } => {
            let (n1, e1) = fold_opt_pats_s(p, names, elems);
            (n1, PatV::Array { span, elems: e1 })
        },
        PatV::Rest { span, arg } => {
            let (n1, a1) = fold_pat_s(p, names, *arg);
            (n1, PatV::Rest { span, arg: Box::new(a1) })
        },
        PatV::Object { span, props } => {
            let (n1, p1) = fold_pats_s(p, names, props);
            (n1, PatV::Object { span, props: p1 })
        },
        PatV::Assign { span, left, right } => {
            let (n1, l1) = fold_pat_s(p, names, *left);
            let (n2, r1) = fold_expr_s(p, n1, *right);
            (n2, PatV::Assign { span, left: Box::new(l1), right: Box::new(r1) })
        },
    }
}

pub open spec fn fold_opt_pat_s(p: Pass, names: Seq<Seq<char>>, o: Option<PatV>) -> (
    Seq<Seq<char>>,
    Option<PatV>,
)
    decreases o,
{
    match o {
        Option::None => (names, Option::None),
        Option::Some(pt) => {
            let (n1, p1) = fold_pat_s(p, names, pt);
            (n1, Option::Some(p1))
        },
    }
}

pub open spec fn fold_pats_s(p: Pass, names: Seq<Seq<char>>, s: Seq<PatV>) -> (
    Seq<Seq<char>>,
    Seq<PatV>,
)
    decreases s,
{
    if s.len() == 0 {
        (names, Seq::empty())
    } else {
        let (n1, x1) = fold_pat_s(p, names, s[0]);
        let (n2, rest) = fold_pats_s(p, n1, s.drop_first());
        (n2, seq![x1] + rest)
    }
}

pub open spec fn fold_opt_pats_s(p: Pass, names: Seq<Seq<char>>, s: Seq<Option<PatV>>) -> (
    Seq<Seq<char>>,
    Seq<Option<PatV>>,
)
    decreases s,
{
    if s.len() == 0 {
        (names, Seq::empty())
    } else {
        let (n1, x1) = fold_opt_pat_s(p, names, s[0]);
        let (n2, rest) = fold_opt_pats_s(p, n1, s.drop_first());
        (n2, seq![x1] + rest)
    }
}

pub open spec fn fold_stmt_s(p: Pass, names: Seq<Seq<char>>, s: StmtV) -> (Seq<Seq<char>>, StmtV)
    decreases s,
{
    match s {
        StmtV::Expr { span, expr } => {
            let (n1, e1) = fold_expr_s(p, names, expr);
            (n1, StmtV::Expr { span, expr: e1 })
        },
        StmtV::Block(b) => {
            let (n1, b1) = fold_block_s(p, names, b);
            (n1, StmtV::Block(b1))
        },
        StmtV::Return { span, arg } => {
            match arg {
                Option::None => (names, s),
                Option::Some(e) => {
                    let (n1, e1) = fold_expr_s(p, names, e);
                    (n1, StmtV::Return { span, arg: Option::Some(e1) })
                },
            }
        },
        StmtV::Decl(d) => {
            let (n1, d1) = fold_decl_s(p, names, d);
            (n1, StmtV::Decl(d1))
        },
    }
}

/// A block is not a `var` scope: hoisted temporaries pass through to
/// the enclosing function or module body.
pub open spec fn fold_block_s(p: Pass, names: Seq<Seq<char>>, b: BlockV) -> (Seq<Seq<char>>, BlockV)
    decreases b,
{
    let (n1, stmts1) = fold_stmts_s(p, names, b.stmts);
    (n1, BlockV { span: b.span, stmts: stmts1 })
}

pub open spec fn fold_stmts_s(p: Pass, names: Seq<Seq<char>>, s: Seq<StmtV>) -> (
    Seq<Seq<char>>,
    Seq<StmtV>,
)
    decreases s,
{
    if s.len() == 0 {
        (names, Seq::empty())
    } else {
        let (n1, x1) = fold_stmt_s(p, names, s[0]);
        let (n2, rest) = fold_stmts_s(p, n1, s.drop_first());
        (n2, seq![x1] + rest)
    }
}

pub open spec fn fold_decl_s(p: Pass, names: Seq<Seq<char>>, d: DeclV) -> (Seq<Seq<char>>, DeclV)
    decreases d,
{
    match d {
        DeclV::Var(v) => {
            let (n1, v1) = fold_var_decl_s(p, names, v);
            (n1, DeclV::Var(v1))
        },
        DeclV::Fn { ident, function } => (
            names,
            DeclV::Fn { ident, function: fold_function_s(p, function) },
        ),
        DeclV::TsInterface(_) => (names, d),
        DeclV::TsTypeAlias(_) => (names, d),
        DeclV::TsEnum(_) => (names, d),
        DeclV::TsModule(_) => (names, d),
    }
}

pub open spec fn fold_var_decl_s(p: Pass, names: Seq<Seq<char>>, v: VarDeclV) -> (
    Seq<Seq<char>>,
    VarDeclV,
)
    decreases v,
{
    let (n1, d1) = fold_declarators_s(p, names, v.decls);
    (n1, VarDeclV { span: v.span, kind: v.kind, decls: d1 })
}

pub open spec fn fold_declarator_s(p: Pass, names: Seq<Seq<char>>, d: VarDeclaratorV) -> (
    Seq<Seq<char>>,
    VarDeclaratorV,
)
    decreases d,
{
    let (n1, name1) = fold_pat_s(p, names, d.name);
    match d.init {
        Option::None => (n1, VarDeclaratorV { span: d.span, name: name1, init: Option::None }),
        Option::Some(e) => {
            let (n2, e1) = fold_expr_s(p, n1, e);
            (n2, VarDeclaratorV { span: d.span, name: name1, init: Option::Some(e1) })
        },
    }
}

pub open spec fn fold_declarators_s(p: Pass, names: Seq<Seq<char>>, s: Seq<VarDeclaratorV>) -> (
    Seq<Seq<char>>,
    Seq<VarDeclaratorV>,
)
    decreases s,
{
    if s.len() == 0 {
        (names, Seq::empty())
    } else {
        let (n1, x1) = fold_declarator_s(p, names, s[0]);
        let (n2, rest) = fold_declarators_s(p, n1, s.drop_first());
        (n2, seq![x1] + rest)
    }
}

/// The declarators of the `var` statement that materializes a scope's
/// hoisted temporaries, in generation order.
pub open spec fn decls_of(names: Seq<Seq<char>>) -> Seq<VarDeclaratorV>
    decreases names,
{
    if names.len() == 0 {
        Seq::empty()
    } else {
        seq![
            VarDeclaratorV {
                span: dummy_span(),
                name: PatV::Ident(IdentV { span: dummy_span(), sym: names[0] }),
                init: Option::None,
            },
        ] + decls_of(names.drop_first())
    }
}

pub open spec fn var_stmt_of(names: Seq<Seq<char>>) -> StmtV {
    StmtV::Decl(
        DeclV::Var(
            VarDeclV { span: dummy_span(), kind: VarDeclKind::Var, decls: decls_of(names) },
        ),
    )
}

/// Prepend the scope's `var` statement to a body, if any temporary was
/// hoisted.
pub open spec fn with_scope(names: Seq<Seq<char>>, body: Seq<StmtV>) -> Seq<StmtV> {
    if names.len() == 0 {
        body
    } else {
        seq![var_stmt_of(names)] + body
    }
}

/// A function body opens a fresh temporary scope.
pub open spec fn fold_function_s(p: Pass, f: FunctionV) -> FunctionV
    decreases f,
{
    let (n1, params1) = fold_pats_s(p, Seq::empty(), f.params);
    let (n2, stmts1) = fold_stmts_s(p, n1, f.body.stmts);
    FunctionV {
        span: f.span,
        params: params1,
        body: BlockV { span: f.body.span, stmts: with_scope(n2, stmts1) },
    }
}

/// One whole pass over a module: the module body is the outermost
/// temporary scope.
pub open spec fn fold_module_s(p: Pass, m: ModuleV) -> ModuleV {
    let (n1, body1) = fold_stmts_s(p, Seq::empty(), m.body);
    ModuleV { span: m.span, body: with_scope(n1, body1) }
}

/// A pipeline applies its passes in order.
pub open spec fn pipeline_s(passes: Seq<Pass>, m: ModuleV) -> ModuleV
    decreases passes.len(),
{
    if passes.len() == 0 {
        m
    } else {
        pipeline_s(passes.drop_first(), fold_module_s(passes[0], m))
    }
}

// ---------------------------------------------------------------------
// The executable traversal. Each function's contract is that it computes
// the spec fold of its node, threading the scope of hoisted temporaries.
// ---------------------------------------------------------------------
/// Run the pass's per-expression hook.
fn apply_hook(p: Pass, names: &mut Vec<String>, e: Expr) -> (r: Expr)
    ensures
        (view_names(final(names)@), view_expr(r)) == hook_s(
            p,
            view_names(old(names)@),
            view_expr(e),
        ),
{
    match p {
        Pass::Noop => e,
        Pass::Spread => spread_hook(names, e),
    }
}

pub fn fold_expr(p: Pass, names: &mut Vec<String>, e: Expr) -> (r: Expr)
    ensures
        (view_names(final(names)@), view_expr(r)) == fold_expr_s(
            p,
            view_names(old(names)@),
            view_expr(e),
        ),
    decreases e,
{
    let ghost ev = view_expr(e);
    match e {
        Expr::This(t) => apply_hook(p, names, Expr::This(t)),
        Expr::Ident(i) => apply_hook(p, names, Expr::Ident(i)),
        Expr::Lit(l) => apply_hook(p, names, Expr::Lit(l)),
        Expr::Array(a) => {
            proof {
                assert(ev == ExprV::Array { span: a.span, elems: view_elems(a.elems@) });
            }
            let crate::expr::ArrayLit { span, elems } = a;
            let elems2 = fold_elems(p, names, elems);
            apply_hook(p, names, Expr::Array(crate::expr::ArrayLit { span, elems: elems2 }))
        },
        Expr::Unary(u) => {
            proof {
                assert(ev == ExprV::Unary {
                    span: u.span,
                    op: u.op,
                    arg: Box::new(view_expr(*u.arg)),
                });
            }
            let crate::expr::UnaryExpr { span, op, arg } = u;
            let a2 = fold_expr(p, names, *arg);
            apply_hook(
                p,
                names,
                Expr::Unary(crate::expr::UnaryExpr { span, op, arg: Box::new(a2) }),
            )
        },
        Expr::Assign(a) => {
            proof {
                assert(ev == ExprV::Assign {
                    span: a.span,
                    op: a.op,
                    left: Box::new(view_pat(*a.left)),
                    right: Box::new(view_expr(*a.right)),
                });
            }
            let crate::expr::AssignExpr { span, op, left, right } = a;
            let l2 = fold_pat(p, names, *left);
            let r2 = fold_expr(p, names, *right);
            apply_hook(
                p,
                names,
                Expr::Assign(
                    crate::expr::AssignExpr {
                        span,
                        op,
                        left: Box::new(l2),
                        right: Box::new(r2),
                    },
                ),
            )
        },
        Expr::Member(m) => {
            proof {
                assert(ev == ExprV::Member {
                    span: m.span,
                    obj: view_callee(m.obj),
                    prop: Box::new(view_expr(*m.prop)),
                    computed: m.computed,
                });
            }
            let crate::expr::MemberExpr { span, obj, prop, computed } = m;
            let o2 = fold_callee(p, names, obj);
            let p2 = fold_expr(p, names, *prop);
            apply_hook(
                p,
                names,
                Expr::Member(
                    crate::expr::MemberExpr { span, obj: o2, prop: Box::new(p2), computed },
                ),
            )
        },
        Expr::Call(c) => {
            proof {
                assert(ev == ExprV::Call {
                    span: c.span,
                    callee: view_callee(c.callee),
                    args: crate::views::view_args(c.args@),
                });
            }
            let crate::expr::CallExpr { span, callee, args } = c;
            let c2 = fold_callee(p, names, callee);
            let a2 = fold_args(p, names, args);
            apply_hook(
                p,
                names,
                Expr::Call(crate::expr::CallExpr { span, callee: c2, args: a2 }),
            )
        },
        Expr::New(n) => {
            proof {
                assert(ev == ExprV::New {
                    span: n.span,
                    callee: Box::new(view_expr(*n.callee)),
                    args: crate::views::view_args(n.args@),
                });
            }
            let crate::expr::NewExpr { span, callee, args } = n;
            let c2 = fold_expr(p, names, *callee);
            let a2 = fold_args(p, names, args);
            apply_hook(
                p,
                names,
                Expr::New(crate::expr::NewExpr { span, callee: Box::new(c2), args: a2 }),
            )
        },
        Expr::TsTypeAssertion(t) => {
            proof {
                assert(ev == ExprV::TsTypeAssertion {
                    span: t.span,
                    expr: Box::new(view_expr(*t.expr)),
                    type_ann: *t.type_ann,
                });
            }
            let crate::typescript::TsTypeAssertion { span, expr, type_ann } = t;
            let e2 = fold_expr(p, names, *expr);
            apply_hook(
                p,
                names,
                Expr::TsTypeAssertion(
                    crate::typescript::TsTypeAssertion { span, expr: Box::new(e2), type_ann },
                ),
            )
        },
        Expr::TsNonNull(t) => {
            proof {
                assert(ev == ExprV::TsNonNull {
                    span: t.span,
                    expr: Box::new(view_expr(*t.expr)),
                });
            }
            let crate::typescript::TsNonNullExpr { span, expr } = t;
            let e2 = fold_expr(p, names, *expr);
            apply_hook(
                p,
                names,
                Expr::TsNonNull(crate::typescript::TsNonNullExpr { span, expr: Box::new(e2) }),
            )
        },
        Expr::TsAs(t) => {
            proof {
                assert(ev == ExprV::TsAs {
                    span: t.span,
                    expr: Box::new(view_expr(*t.expr)),
                    type_ann: *t.type_ann,
                });
            }
            let crate::typescript::TsAsExpr { span, expr, type_ann } = t;
            let e2 = fold_expr(p, names, *expr);
            apply_hook(
                p,
                names,
                Expr::TsAs(crate::typescript::TsAsExpr { span, expr: Box::new(e2), type_ann }),
            )
        },
    }
}

fn fold_callee(p: Pass, names: &mut Vec<String>, c: ExprOrSuper) -> (r: ExprOrSuper)
    ensures
        (view_names(final(names)@), view_callee(r)) == fold_callee_s(
            p,
            view_names(old(names)@),
            view_callee(c),
        ),
    decreases c,
{
    let ghost cv = view_callee(c);
    match c {
        ExprOrSuper::Super(sp) => ExprOrSuper::Super(sp),
        ExprOrSuper::Expr(e) => {
            proof {
                assert(cv == CalleeV::Expr(Box::new(view_expr(*e))));
            }
            let e2 = fold_expr(p, names, *e);
            ExprOrSuper::Expr(Box::new(e2))
        },
    }
}

fn fold_eos(p: Pass, names: &mut Vec<String>, a: ExprOrSpread) -> (r: ExprOrSpread)
    ensures
        (view_names(final(names)@), view_eos(r)) == fold_eos_s(
            p,
            view_names(old(names)@),
            view_eos(a),
        ),
    decreases a,
{
    let ghost av = view_eos(a);
    proof {
    }
    let ExprOrSpread { spread, expr } = a;
    let e2 = fold_expr(p, names, *expr);
    ExprOrSpread { spread, expr: Box::new(e2) }
}

fn fold_opt_eos(p: Pass, names: &mut Vec<String>, o: Option<ExprOrSpread>) -> (r: Option<
    ExprOrSpread,
>)
    ensures
        (view_names(final(names)@), view_opt_eos(r)) == fold_opt_eos_s(
            p,
            view_names(old(names)@),
            view_opt_eos(o),
        ),
    decreases o,
{
    let ghost ov = view_opt_eos(o);
    match o {
        Option::None => Option::None,
        Option::Some(a) => {
            proof {
                assert(ov == Option::Some(view_eos(a)));
            }
            Option::Some(fold_eos(p, names, a))
        },
    }
}

#[verifier::loop_isolation(false)]
fn fold_elems(p: Pass, names: &mut Vec<String>, v: Vec<Option<ExprOrSpread>>) -> (r: Vec<
    Option<ExprOrSpread>,
>)
    ensures
        (view_names(final(names)@), view_elems(r@)) == fold_elems_s(
            p,
            view_names(old(names)@),
            view_elems(v@),
        ),
    decreases v,
{
    let ghost orig = view_elems(v@);
    let ghost orig_e = v@;
    let ghost names0 = view_names(names@);
    proof {
        lemma_view_elems(v@);
    }
    let ghost v0 = v;
    let mut v = v;
    let mut out: Vec<Option<ExprOrSpread>> = Vec::new();
    let ghost mut done: int = 0;
    while v.len() > 0
        invariant
            0 <= done,
            done + v@.len() == orig.len(),
            view_elems(v@) =~= orig.subrange(done, orig.len() as int),
            v@ =~= v0@.subrange(done, v0@.len() as int),
            fold_elems_s(p, names0, orig).0 == fold_elems_s(
                p,
                view_names(names@),
                view_elems(v@),
            ).0,
            fold_elems_s(p, names0, orig).1 =~= view_elems(out@) + fold_elems_s(
                p,
                view_names(names@),
                view_elems(v@),
            ).1,
        decreases v@.len(),
    {
        let ghost pre = v@;
        let ghost pre_names = view_names(names@);
        let x = v.remove(0);
        proof {
            lemma_view_elems(pre);
            lemma_view_elems(v@);
            assert(view_opt_eos(x) == view_elems(pre)[0]);
            assert(view_elems(pre)[0] == orig[done]);
            assert(view_elems(v@) =~= view_elems(pre).drop_first());
            assert(x == v0@[done]);
            assert(decreases_to!(v0 => v0@));
            assert(decreases_to!(v0@ => v0@[done]));
            assert(v@ =~= v0@.subrange(done + 1, v0@.len() as int));
            done = done + 1;
        }
        let x2 = fold_opt_eos(p, names, x);
        let ghost pre_out = out@;
        out.push(x2);
        proof {
            lemma_view_elems(out@);
            lemma_view_elems(pre_out);
            assert(view_elems(out@) =~= view_elems(pre_out).push(view_opt_eos(x2)));
            assert(fold_elems_s(p, pre_names, view_elems(pre)).0 == fold_elems_s(
                p,
                view_names(names@),
                view_elems(v@),
            ).0);
            assert(fold_elems_s(p, pre_names, view_elems(pre)).1 =~= seq![view_opt_eos(x2)]
                + fold_elems_s(p, view_names(names@), view_elems(v@)).1);
            assert(fold_elems_s(p, names0, orig).1 =~= view_elems(out@) + fold_elems_s(
                p,
                view_names(names@),
                view_elems(v@),
            ).1);
        }
    }
    proof {
        assert(view_elems(v@) =~= Seq::<Option<crate::views::EosV>>::empty());
        assert(fold_elems_s(p, names0, orig).1 =~= view_elems(out@));
    }
    out
}

#[verifier::loop_isolation(false)]
fn fold_args(p: Pass, names: &mut Vec<String>, v: Vec<ExprOrSpread>) -> (r: Vec<ExprOrSpread>)
    ensures
        (view_names(final(names)@), crate::views::view_args(r@)) == fold_args_s(
            p,
            view_names(old(names)@),
            crate::views::view_args(v@),
        ),
    decreases v,
{
    let ghost orig = crate::views::view_args(v@);
    let ghost names0 = view_names(names@);
    proof {
        lemma_view_args(v@);
    }
    let ghost v0 = v;
    let mut v = v;
    let mut out: Vec<ExprOrSpread> = Vec::new();
    let ghost mut done: int = 0;
    while v.len() > 0
        invariant
            0 <= done,
            done + v@.len() == orig.len(),
            crate::views::view_args(v@) =~= orig.subrange(done, orig.len() as int),
            v@ =~= v0@.subrange(done, v0@.len() as int),
            fold_args_s(p, names0, orig).0 == fold_args_s(
                p,
                view_names(names@),
                crate::views::view_args(v@),
            ).0,
            fold_args_s(p, names0, orig).1 =~= crate::views::view_args(out@) + fold_args_s(
                p,
                view_names(names@),
                crate::views::view_args(v@),
            ).1,
        decreases v@.len(),
    {
        let ghost pre = v@;
        let ghost pre_names = view_names(names@);
        let x = v.remove(0);
        proof {
            lemma_view_args(pre);
            lemma_view_args(v@);
            assert(view_eos(x) == crate::views::view_args(pre)[0]);
            assert(crate::views::view_args(pre)[0] == orig[done]);
            assert(crate::views::view_args(v@) =~= crate::views::view_args(pre).drop_first());
            assert(x == v0@[done]);
            assert(decreases_to!(v0 => v0@));
            assert(decreases_to!(v0@ => v0@[done]));
            assert(v@ =~= v0@.subrange(done + 1, v0@.len() as int));
            done = done + 1;
        }
        let x2 = fold_eos(p, names, x);
        let ghost pre_out = out@;
        out.push(x2);
        proof {
            lemma_view_args(out@);
            lemma_view_args(pre_out);
            assert(crate::views::view_args(out@) =~= crate::views::view_args(pre_out).push(
                view_eos(x2),
            ));
            assert(fold_args_s(p, pre_names, crate::views::view_args(pre)).0 == fold_args_s(
                p,
                view_names(names@),
                crate::views::view_args(v@),
            ).0);
            assert(fold_args_s(p, pre_names, crate::views::view_args(pre)).1 =~= seq![
                view_eos(x2),
            ] + fold_args_s(p, view_names(names@), crate::views::view_args(v@)).1);
            assert(fold_args_s(p, names0, orig).1 =~= crate::views::view_args(out@)
                + fold_args_s(p, view_names(names@), crate::views::view_args(v@)).1);
        }
    }
    proof {
        assert(crate::views::view_args(v@) =~= Seq::<crate::views::EosV>::empty());
        assert(fold_args_s(p, names0, orig).1 =~= crate::views::view_args(out@));
    }
    out
}

pub fn fold_pat(p: Pass, names: &mut Vec<String>, pt: Pat) -> (r: Pat)
    ensures
        (view_names(final(names)@), view_pat(r)) == fold_pat_s(
            p,
            view_names(old(names)@),
            view_pat(pt),
        ),
    decreases pt,
{
    let ghost pv = view_pat(pt);
    match pt {
        Pat::Ident(i) => Pat::Ident(i),
        Pat::Array(a) => {
            proof {
                assert(pv == PatV::Array { span: a.span, elems: view_opt_pats(a.elems@) });
            }
            let crate::pat::ArrayPat { span, elems } = a;
            let e2 = fold_opt_pats(p, names, elems);
            Pat::Array(crate::pat::ArrayPat { span, elems: e2 })
        },
        Pat::Rest(rp) => {
            proof {
                assert(pv == PatV::Rest { span: rp.span, arg: Box::new(view_pat(*rp.arg)) });
            }
            let crate::pat::RestPat { span, arg } = rp;
            let a2 = fold_pat(p, names, *arg);
            Pat::Rest(crate::pat::RestPat { span, arg: Box::new(a2) })
        },
        Pat::Object(o) => {
            proof {
                assert(pv == PatV::Object { span: o.span, props: view_pats(o.props@) });
            }
            let crate::pat::ObjectPat { span, props } = o;
            let p2 = fold_pats(p, names, props);
            Pat::Object(crate::pat::ObjectPat { span, props: p2 })
        },
        Pat::Assign(a) => {
            proof {
                assert(pv == PatV::Assign {
                    span: a.span,
                    left: Box::new(view_pat(*a.left)),
                    right: Box::new(view_expr(*a.right)),
                });
            }
            let crate::pat::AssignPat { span, left, right } = a;
            let l2 = fold_pat(p, names, *left);
            let r2 = fold_expr(p, names, *right);
            Pat::Assign(crate::pat::AssignPat { span, left: Box::new(l2), right: Box::new(r2) })
        },
    }
}

fn fold_opt_pat(p: Pass, names: &mut Vec<String>, o: Option<Pat>) -> (r: Option<Pat>)
    ensures
        (view_names(final(names)@), view_opt_pat(r)) == fold_opt_pat_s(
            p,
            view_names(old(names)@),
            view_opt_pat(o),
        ),
    decreases o,
{
    let ghost ov = view_opt_pat(o);
    match o {
        Option::None => Option::None,
        Option::Some(pt) => {
            proof {
                assert(ov == Option::Some(view_pat(pt)));
            }
            Option::Some(fold_pat(p, names, pt))
        },
    }
}

#[verifier::loop_isolation(false)]
fn fold_pats(p: Pass, names: &mut Vec<String>, v: Vec<Pat>) -> (r: Vec<Pat>)
    ensures
        (view_names(final(names)@), view_pats(r@)) == fold_pats_s(
            p,
            view_names(old(names)@),
            view_pats(v@),
        ),
    decreases v,
{
    let ghost orig = view_pats(v@);
    let ghost names0 = view_names(names@);
    proof {
        lemma_view_pats(v@);
    }
    let ghost v0 = v;
    let mut v = v;
    let mut out: Vec<Pat> = Vec::new();
    let ghost mut done: int = 0;
    while v.len() > 0
        invariant
            0 <= done,
            done + v@.len() == orig.len(),
            view_pats(v@) =~= orig.subrange(done, orig.len() as int),
            v@ =~= v0@.subrange(done, v0@.len() as int),
            fold_pats_s(p, names0, orig).0 == fold_pats_s(
                p,
                view_names(names@),
                view_pats(v@),
            ).0,
            fold_pats_s(p, names0, orig).1 =~= view_pats(out@) + fold_pats_s(
                p,
                view_names(names@),
                view_pats(v@),
            ).1,
        decreases v@.len(),
    {
        let ghost pre = v@;
        let ghost pre_names = view_names(names@);
        let x = v.remove(0);
        proof {
            lemma_view_pats(pre);
            lemma_view_pats(v@);
            assert(view_pat(x) == view_pats(pre)[0]);
            assert(view_pats(pre)[0] == orig[done]);
            assert(view_pats(v@) =~= view_pats(pre).drop_first());
            assert(x == v0@[done]);
            assert(decreases_to!(v0 => v0@));
            assert(decreases_to!(v0@ => v0@[done]));
            assert(v@ =~= v0@.subrange(done + 1, v0@.len() as int));
            done = done + 1;
        }
        let x2 = fold_pat(p, names, x);
        let ghost pre_out = out@;
        out.push(x2);
        proof {
            lemma_view_pats(out@);
            lemma_view_pats(pre_out);
            assert(view_pats(out@) =~= view_pats(pre_out).push(view_pat(x2)));
            assert(fold_pats_s(p, pre_names, view_pats(pre)).0 == fold_pats_s(
                p,
                view_names(names@),
                view_pats(v@),
            ).0);
            assert(fold_pats_s(p, pre_names, view_pats(pre)).1 =~= seq![view_pat(x2)]
                + fold_pats_s(p, view_names(names@), view_pats(v@)).1);
            assert(fold_pats_s(p, names0, orig).1 =~= view_pats(out@) + fold_pats_s(
                p,
                view_names(names@),
                view_pats(v@),
            ).1);
        }
    }
    proof {
        assert(view_pats(v@) =~= Seq::<PatV>::empty());
        assert(fold_pats_s(p, names0, orig).1 =~= view_pats(out@));
    }
    out
}

#[verifier::loop_isolation(false)]
fn fold_opt_pats(p: Pass, names: &mut Vec<String>, v: Vec<Option<Pat>>) -> (r: Vec<Option<Pat>>)
    ensures
        (view_names(final(names)@), view_opt_pats(r@)) == fold_opt_pats_s(
            p,
            view_names(old(names)@),
            view_opt_pats(v@),
        ),
    decreases v,
{
    let ghost orig = view_opt_pats(v@);
    let ghost names0 = view_names(names@);
    proof {
        lemma_view_opt_pats(v@);
    }
    let ghost v0 = v;
    let mut v = v;
    let mut out: Vec<Option<Pat>> = Vec::new();
    let ghost mut done: int = 0;
    while v.len() > 0
        invariant
            0 <= done,
            done + v@.len() == orig.len(),
            view_opt_pats(v@) =~= orig.subrange(done, orig.len() as int),
            v@ =~= v0@.subrange(done, v0@.len() as int),
            fold_opt_pats_s(p, names0, orig).0 == fold_opt_pats_s(
                p,
                view_names(names@),
                view_opt_pats(v@),
            ).0,
            fold_opt_pats_s(p, names0, orig).1 =~= view_opt_pats(out@) + fold_opt_pats_s(
                p,
                view_names(names@),
                view_opt_pats(v@),
            ).1,
        decreases v@.len(),
    {
        let ghost pre = v@;
        let ghost pre_names = view_names(names@);
        let x = v.remove(0);
        proof {
            lemma_view_opt_pats(pre);
            lemma_view_opt_pats(v@);
            assert(view_opt_pat(x) == view_opt_pats(pre)[0]);
            assert(view_opt_pats(pre)[0] == orig[done]);
            assert(view_opt_pats(v@) =~= view_opt_pats(pre).drop_first());
            assert(x == v0@[done]);
            assert(decreases_to!(v0 => v0@));
            assert(decreases_to!(v0@ => v0@[done]));
            assert(v@ =~= v0@.subrange(done + 1, v0@.len() as int));
            done = done + 1;
        }
        let x2 = fold_opt_pat(p, names, x);
        let ghost pre_out = out@;
        out.push(x2);
        proof {
            lemma_view_opt_pats(out@);
            lemma_view_opt_pats(pre_out);
            assert(view_opt_pats(out@) =~= view_opt_pats(pre_out).push(view_opt_pat(x2)));
            assert(fold_opt_pats_s(p, pre_names, view_opt_pats(pre)).0 == fold_opt_pats_s(
                p,
                view_names(names@),
                view_opt_pats(v@),
            ).0);
            assert(fold_opt_pats_s(p, pre_names, view_opt_pats(pre)).1 =~= seq![
                view_opt_pat(x2),
            ] + fold_opt_pats_s(p, view_names(names@), view_opt_pats(v@)).1);
            assert(fold_opt_pats_s(p, names0, orig).1 =~= view_opt_pats(out@)
                + fold_opt_pats_s(p, view_names(names@), view_opt_pats(v@)).1);
        }
    }
    proof {
        assert(view_opt_pats(v@) =~= Seq::<Option<PatV>>::empty());
        assert(fold_opt_pats_s(p, names0, orig).1 =~= view_opt_pats(out@));
    }
    out
}

pub proof fn lemma_decls_of(names: Seq<Seq<char>>)
    ensures
        decls_of(names).len() == names.len(),
        forall|i: int| 0 <= i < names.len() ==> decls_of(names)[i] == (VarDeclaratorV {
            span: dummy_span(),
            name: PatV::Ident(IdentV { span: dummy_span(), sym: names[i] }),
            init: Option::None,
        }),
    decreases names.len(),
{
    if names.len() > 0 {
        lemma_decls_of(names.drop_first());
    }
}

/// The declarators of a scope's `var` statement.
#[verifier::loop_isolation(false)]
fn mk_scope_decls(names: &Vec<String>) -> (out: Vec<VarDeclarator>)
    ensures
        view_declarators(out@) == decls_of(view_names(names@)),
{
    let ghost nv = view_names(names@);
    proof {
        lemma_view_names(names@);
        lemma_decls_of(nv);
    }
    let n = names.len();
    let mut out: Vec<VarDeclarator> = Vec::new();
    let mut i: usize = 0;
    while i < n
        invariant
            0 <= i <= n,
            n == names@.len(),
            view_declarators(out@) =~= decls_of(nv).subrange(0, i as int),
        decreases n - i,
    {
        let d = VarDeclarator {
            span: Span::dummy(),
            name: Pat::Ident(Ident { span: Span::dummy(), sym: names[i].clone() }),
            init: Option::None,
        };
        let ghost pre_out = out@;
        out.push(d);
        proof {
            reveal_with_fuel(view_pat, 2);
            lemma_view_declarators(out@);
            lemma_view_declarators(pre_out);
            assert(view_declarator(d) == decls_of(nv)[i as int]);
            assert(view_declarators(out@) =~= view_declarators(pre_out).push(view_declarator(d)));
        }
        i = i + 1;
    }
    proof {
        assert(view_declarators(out@) =~= decls_of(nv));
    }
    out
}

/// The `var` statement that materializes a scope's temporaries.
fn mk_var_stmt(names: &Vec<String>) -> (r: Stmt)
    requires
        names@.len() > 0,
    ensures
        view_stmt(r) == var_stmt_of(view_names(names@)),
{
    let decls = mk_scope_decls(names);
    Stmt::Decl(
        Decl::Var(VarDecl { span: Span::dummy(), kind: VarDeclKind::Var, decls }),
    )
}

/// Prepend the scope's `var` statement to a function body.
fn finish_scope(names: Vec<String>, body: Vec<Stmt>) -> (r: Vec<Stmt>)
    ensures
        view_stmts(r@) == with_scope(view_names(names@), view_stmts(body@)),
{
    proof {
        lemma_view_names(names@);
    }
    if names.len() == 0 {
        proof {
            assert(view_names(names@) =~= Seq::<Seq<char>>::empty());
        }
        body
    } else {
        let vd = mk_var_stmt(&names);
        let ghost bodyv = view_stmts(body@);
        let mut out = body;
        let ghost pre = out@;
        out.insert(0, vd);
        proof {
            lemma_view_stmts(out@);
            lemma_view_stmts(pre);
            assert(view_stmts(out@) =~= seq![view_stmt(vd)] + bodyv);
        }
        out
    }
}

/// Prepend the scope's `var` statement to a module body.
fn finish_scope_items(names: Vec<String>, body: Vec<ModuleItem>) -> (r: Vec<ModuleItem>)
    ensures
        view_items(r@) == with_scope(view_names(names@), view_items(body@)),
{
    proof {
        lemma_view_names(names@);
    }
    if names.len() == 0 {
        proof {
            assert(view_names(names@) =~= Seq::<Seq<char>>::empty());
        }
        body
    } else {
        let vd = ModuleItem::Stmt(mk_var_stmt(&names));
        let ghost bodyv = view_items(body@);
        let mut out = body;
        let ghost pre = out@;
        out.insert(0, vd);
        proof {
            lemma_view_items(out@);
            lemma_view_items(pre);
            assert(view_items(out@) =~= seq![view_item(vd)] + bodyv);
        }
        out
    }
}

pub fn fold_stmt(p: Pass, names: &mut Vec<String>, s: Stmt) -> (r: Stmt)
    ensures
        (view_names(final(names)@), view_stmt(r)) == fold_stmt_s(
            p,
            view_names(old(names)@),
            view_stmt(s),
        ),
    decreases s,
{
    let ghost sv = view_stmt(s);
    match s {
        Stmt::Expr(es) => {
            proof {
                assert(sv == StmtV::Expr { span: es.span, expr: view_expr(*es.expr) });
            }
            let ExprStmt { span, expr } = es;
            let e2 = fold_expr(p, names, *expr);
            Stmt::Expr(ExprStmt { span, expr: Box::new(e2) })
        },
        Stmt::Block(b) => {
            proof {
                assert(sv == StmtV::Block(view_block(b)));
            }
            let b2 = fold_block(p, names, b);
            Stmt::Block(b2)
        },
        Stmt::Return(rs) => {
            let ghost av = match &rs.arg {
                Option::None => Option::None,
                Option::Some(e) => Option::Some(view_expr(**e)),
            };
            proof {
                assert(sv == StmtV::Return { span: rs.span, arg: av });
            }
            let ReturnStmt { span, arg } = rs;
            match arg {
                Option::None => Stmt::Return(ReturnStmt { span, arg: Option::None }),
                Option::Some(e) => {
                    proof {
                    }
                    let e2 = fold_expr(p, names, *e);
                    Stmt::Return(ReturnStmt { span, arg: Option::Some(Box::new(e2)) })
                },
            }
        },
        Stmt::Decl(d) => {
            proof {
                assert(sv == StmtV::Decl(view_decl(d)));
            }
            let d2 = fold_decl(p, names, d);
            Stmt::Decl(d2)
        },
    }
}

pub fn fold_block(p: Pass, names: &mut Vec<String>, b: BlockStmt) -> (r: BlockStmt)
    ensures
        (view_names(final(names)@), view_block(r)) == fold_block_s(
            p,
            view_names(old(names)@),
            view_block(b),
        ),
    decreases b,
{
    let ghost bv = view_block(b);
    proof {
    }
    let BlockStmt { span, stmts } = b;
    let s2 = fold_stmts(p, names, stmts);
    BlockStmt { span, stmts: s2 }
}

#[verifier::loop_isolation(false)]
fn fold_stmts(p: Pass, names: &mut Vec<String>, v: Vec<Stmt>) -> (r: Vec<Stmt>)
    ensures
        (view_names(final(names)@), view_stmts(r@)) == fold_stmts_s(
            p,
            view_names(old(names)@),
            view_stmts(v@),
        ),
    decreases v,
{
    let ghost orig = view_stmts(v@);
    let ghost names0 = view_names(names@);
    proof {
        lemma_view_stmts(v@);
    }
    let ghost v0 = v;
    let mut v = v;
    let mut out: Vec<Stmt> = Vec::new();
    let ghost mut done: int = 0;
    while v.len() > 0
        invariant
            0 <= done,
            done + v@.len() == orig.len(),
            view_stmts(v@) =~= orig.subrange(done, orig.len() as int),
            v@ =~= v0@.subrange(done, v0@.len() as int),
            fold_stmts_s(p, names0, orig).0 == fold_stmts_s(
                p,
                view_names(names@),
                view_stmts(v@),
            ).0,
            fold_stmts_s(p, names0, orig).1 =~= view_stmts(out@) + fold_stmts_s(
                p,
                view_names(names@),
                view_stmts(v@),
            ).1,
        decreases v@.len(),
    {
        let ghost pre = v@;
        let ghost pre_names = view_names(names@);
        let x = v.remove(0);
        proof {
            lemma_view_stmts(pre);
            lemma_view_stmts(v@);
            assert(view_stmt(x) == view_stmts(pre)[0]);
            assert(view_stmts(pre)[0] == orig[done]);
            assert(view_stmts(v@) =~= view_stmts(pre).drop_first());
            assert(x == v0@[done]);
            assert(decreases_to!(v0 => v0@));
            assert(decreases_to!(v0@ => v0@[done]));
            assert(v@ =~= v0@.subrange(done + 1, v0@.len() as int));
            done = done + 1;
        }
        let x2 = fold_stmt(p, names, x);
        let ghost pre_out = out@;
        out.push(x2);
        proof {
            lemma_view_stmts(out@);
            lemma_view_stmts(pre_out);
            assert(view_stmts(out@) =~= view_stmts(pre_out).push(view_stmt(x2)));
            assert(fold_stmts_s(p, pre_names, view_stmts(pre)).0 == fold_stmts_s(
                p,
                view_names(names@),
                view_stmts(v@),
            ).0);
            assert(fold_stmts_s(p, pre_names, view_stmts(pre)).1 =~= seq![view_stmt(x2)]
                + fold_stmts_s(p, view_names(names@), view_stmts(v@)).1);
            assert(fold_stmts_s(p, names0, orig).1 =~= view_stmts(out@) + fold_stmts_s(
                p,
                view_names(names@),
                view_stmts(v@),
            ).1);
        }
    }
    proof {
        assert(view_stmts(v@) =~= Seq::<StmtV>::empty());
        assert(fold_stmts_s(p, names0, orig).1 =~= view_stmts(out@));
    }
    out
}

pub fn fold_decl(p: Pass, names: &mut Vec<String>, d: Decl) -> (r: Decl)
    ensures
        (view_names(final(names)@), view_decl(r)) == fold_decl_s(
            p,
            view_names(old(names)@),
            view_decl(d),
        ),
    decreases d,
{
    let ghost dv = view_decl(d);
    match d {
        Decl::Var(v) => {
            proof {
                assert(dv == DeclV::Var(view_var_decl(v)));
            }
            let v2 = fold_var_decl(p, names, v);
            Decl::Var(v2)
        },
        Decl::Fn(f) => {
            proof {
                assert(dv == DeclV::Fn {
                    ident: view_ident(f.ident),
                    function: view_function(f.function),
                });
            }
            let FnDecl { ident, function } = f;
            let f2 = fold_function(p, function);
            Decl::Fn(FnDecl { ident, function: f2 })
        },
        Decl::TsInterface(t) => Decl::TsInterface(t),
        Decl::TsTypeAlias(t) => Decl::TsTypeAlias(t),
        Decl::TsEnum(t) => Decl::TsEnum(t),
        Decl::TsModule(t) => Decl::TsModule(t),
    }
}

fn fold_var_decl(p: Pass, names: &mut Vec<String>, v: VarDecl) -> (r: VarDecl)
    ensures
        (view_names(final(names)@), view_var_decl(r)) == fold_var_decl_s(
            p,
            view_names(old(names)@),
            view_var_decl(v),
        ),
    decreases v,
{
    let ghost vv = view_var_decl(v);
    proof {
    }
    let VarDecl { span, kind, decls } = v;
    let d2 = fold_declarators(p, names, decls);
    VarDecl { span, kind, decls: d2 }
}

fn fold_declarator(p: Pass, names: &mut Vec<String>, d: VarDeclarator) -> (r: VarDeclarator)
    ensures
        (view_names(final(names)@), view_declarator(r)) == fold_declarator_s(
            p,
            view_names(old(names)@),
            view_declarator(d),
        ),
    decreases d,
{
    let ghost dv = view_declarator(d);
    proof {
    }
    let VarDeclarator { span, name, init } = d;
    let n2 = fold_pat(p, names, name);
    match init {
        Option::None => VarDeclarator { span, name: n2, init: Option::None },
        Option::Some(e) => {
            proof {
                assert(dv.init == Option::Some(view_expr(*e)));
            }
            let e2 = fold_expr(p, names, *e);
            VarDeclarator { span, name: n2, init: Option::Some(Box::new(e2)) }
        },
    }
}

#[verifier::loop_isolation(false)]
fn fold_declarators(p: Pass, names: &mut Vec<String>, v: Vec<VarDeclarator>) -> (r: Vec<
    VarDeclarator,
>)
    ensures
        (view_names(final(names)@), view_declarators(r@)) == fold_declarators_s(
            p,
            view_names(old(names)@),
            view_declarators(v@),
        ),
    decreases v,
{
    let ghost orig = view_declarators(v@);
    let ghost names0 = view_names(names@);
    proof {
        lemma_view_declarators(v@);
    }
    let ghost v0 = v;
    let mut v = v;
    let mut out: Vec<VarDeclarator> = Vec::new();
    let ghost mut done: int = 0;
    while v.len() > 0
        invariant
            0 <= done,
            done + v@.len() == orig.len(),
            view_declarators(v@) =~= orig.subrange(done, orig.len() as int),
            v@ =~= v0@.subrange(done, v0@.len() as int),
            fold_declarators_s(p, names0, orig).0 == fold_declarators_s(
                p,
                view_names(names@),
                view_declarators(v@),
            ).0,
            fold_declarators_s(p, names0, orig).1 =~= view_declarators(out@)
                + fold_declarators_s(p, view_names(names@), view_declarators(v@)).1,
        decreases v@.len(),
    {
        let ghost pre = v@;
        let ghost pre_names = view_names(names@);
        let x = v.remove(0);
        proof {
            lemma_view_declarators(pre);
            lemma_view_declarators(v@);
            assert(view_declarator(x) == view_declarators(pre)[0]);
            assert(view_declarators(pre)[0] == orig[done]);
            assert(view_declarators(v@) =~= view_declarators(pre).drop_first());
            assert(x == v0@[done]);
            assert(decreases_to!(v0 => v0@));
            assert(decreases_to!(v0@ => v0@[done]));
            assert(v@ =~= v0@.subrange(done + 1, v0@.len() as int));
            done = done + 1;
        }
        let x2 = fold_declarator(p, names, x);
        let ghost pre_out = out@;
        out.push(x2);
        proof {
            lemma_view_declarators(out@);
            lemma_view_declarators(pre_out);
            assert(view_declarators(out@) =~= view_declarators(pre_out).push(
                view_declarator(x2),
            ));
            assert(fold_declarators_s(p, pre_names, view_declarators(pre)).0
                == fold_declarators_s(p, view_names(names@), view_declarators(v@)).0);
            assert(fold_declarators_s(p, pre_names, view_declarators(pre)).1 =~= seq![
                view_declarator(x2),
            ] + fold_declarators_s(p, view_names(names@), view_declarators(v@)).1);
            assert(fold_declarators_s(p, names0, orig).1 =~= view_declarators(out@)
                + fold_declarators_s(p, view_names(names@), view_declarators(v@)).1);
        }
    }
    proof {
        assert(view_declarators(v@) =~= Seq::<VarDeclaratorV>::empty());
        assert(fold_declarators_s(p, names0, orig).1 =~= view_declarators(out@));
    }
    out
}

/// Fold one function: its body opens a fresh temporary scope.
pub fn fold_function(p: Pass, f: Function) -> (r: Function)
    ensures
        view_function(r) == fold_function_s(p, view_function(f)),
    decreases f,
{
    let ghost fv = view_function(f);
    proof {
    }
    let Function { span, params, body } = f;
    let mut scope: Vec<String> = Vec::new();
    proof {
        assert(view_names(scope@) =~= Seq::<Seq<char>>::empty());
    }
    let params2 = fold_pats(p, &mut scope, params);
    let BlockStmt { span: bspan, stmts } = body;
    let stmts2 = fold_stmts(p, &mut scope, stmts);
    let stmts3 = finish_scope(scope, stmts2);
    Function { span, params: params2, body: BlockStmt { span: bspan, stmts: stmts3 } }
}

fn fold_item(p: Pass, names: &mut Vec<String>, it: ModuleItem) -> (r: ModuleItem)
    ensures
        (view_names(final(names)@), view_item(r)) == fold_stmt_s(
            p,
            view_names(old(names)@),
            view_item(it),
        ),
    decreases it,
{
    match it {
        ModuleItem::Stmt(s) => ModuleItem::Stmt(fold_stmt(p, names, s)),
    }
}

#[verifier::loop_isolation(false)]
fn fold_items(p: Pass, names: &mut Vec<String>, v: Vec<ModuleItem>) -> (r: Vec<ModuleItem>)
    ensures
        (view_names(final(names)@), view_items(r@)) == fold_stmts_s(
            p,
            view_names(old(names)@),
            view_items(v@),
        ),
    decreases v,
{
    let ghost orig = view_items(v@);
    let ghost names0 = view_names(names@);
    proof {
        lemma_view_items(v@);
    }
    let ghost v0 = v;
    let mut v = v;
    let mut out: Vec<ModuleItem> = Vec::new();
    let ghost mut done: int = 0;
    while v.len() > 0
        invariant
            0 <= done,
            done + v@.len() == orig.len(),
            view_items(v@) =~= orig.subrange(done, orig.len() as int),
            v@ =~= v0@.subrange(done, v0@.len() as int),
            fold_stmts_s(p, names0, orig).0 == fold_stmts_s(
                p,
                view_names(names@),
                view_items(v@),
            ).0,
            fold_stmts_s(p, names0, orig).1 =~= view_items(out@) + fold_stmts_s(
                p,
                view_names(names@),
                view_items(v@),
            ).1,
        decreases v@.len(),
    {
        let ghost pre = v@;
        let ghost pre_names = view_names(names@);
        let x = v.remove(0);
        proof {
            lemma_view_items(pre);
            lemma_view_items(v@);
            assert(view_item(x) == view_items(pre)[0]);
            assert(view_items(pre)[0] == orig[done]);
            assert(view_items(v@) =~= view_items(pre).drop_first());
            assert(x == v0@[done]);
            assert(decreases_to!(v0 => v0@));
            assert(decreases_to!(v0@ => v0@[done]));
            assert(v@ =~= v0@.subrange(done + 1, v0@.len() as int));
            done = done + 1;
        }
        let x2 = fold_item(p, names, x);
        let ghost pre_out = out@;
        out.push(x2);
        proof {
            lemma_view_items(out@);
            lemma_view_items(pre_out);
            assert(view_items(out@) =~= view_items(pre_out).push(view_item(x2)));
            assert(fold_stmts_s(p, pre_names, view_items(pre)).0 == fold_stmts_s(
                p,
                view_names(names@),
                view_items(v@),
            ).0);
            assert(fold_stmts_s(p, pre_names, view_items(pre)).1 =~= seq![view_item(x2)]
                + fold_stmts_s(p, view_names(names@), view_items(v@)).1);
            assert(fold_stmts_s(p, names0, orig).1 =~= view_items(out@) + fold_stmts_s(
                p,
                view_names(names@),
                view_items(v@),
            ).1);
        }
    }
    proof {
        assert(view_items(v@) =~= Seq::<StmtV>::empty());
        assert(fold_stmts_s(p, names0, orig).1 =~= view_items(out@));
    }
    out
}

/// Apply one pass to a whole module. The module body is the outermost
/// temporary scope.
pub fn apply_pass(p: Pass, m: Module) -> (r: Module)
    ensures
        view_module(r) == fold_module_s(p, view_module(m)),
{
    let Module { span, body } = m;
    let mut scope: Vec<String> = Vec::new();
    proof {
        assert(view_names(scope@) =~= Seq::<Seq<char>>::empty());
    }
    let body2 = fold_items(p, &mut scope, body);
    let body3 = finish_scope_items(scope, body2);
    Module { span, body: body3 }
}

/// Apply a pipeline of passes in order.
#[verifier::loop_isolation(false)]
pub fn apply_pipeline(passes: &Vec<Pass>, m: Module) -> (r: Module)
    ensures
        view_module(r) == pipeline_s(passes@, view_module(m)),
{
    let ghost orig = view_module(m);
    let mut m = m;
    let n = passes.len();
    proof {
        assert(passes@.subrange(0, n as int) =~= passes@);
    }
    let mut i: usize = 0;
    while i < n
        invariant
            0 <= i <= n,
            n == passes@.len(),
            pipeline_s(passes@, orig) == pipeline_s(
                passes@.subrange(i as int, n as int),
                view_module(m),
            ),
        decreases n - i,
    {
        let ghost pre = passes@.subrange(i as int, n as int);
        m = apply_pass(passes[i], m);
        proof {
            assert(pre[0] == passes@[i as int]);
            assert(pre.drop_first() =~= passes@.subrange(i + 1, n as int));
        }
        i = i + 1;
    }
    proof {
        assert(passes@.subrange(n as int, n as int) =~= Seq::<Pass>::empty());
    }
    m
}

} // verus!
