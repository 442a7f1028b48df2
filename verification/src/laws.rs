//! The laws of the spread pass.
//!
//! Proved here, over the spec-level fold of `fold` and the rewrite rules
//! of `spread`:
//! - a tree without spread syntax passes through the pass unchanged;
//! - the run partition preserves the elements of an argument/element
//!   list, in source order, so the rewritten `concat` form evaluates the
//!   same expressions in the same order as the source;
//! - a member-call rewrite assigns its hoisted temporary exactly once.
use crate::fold::fold_args_s;
use crate::fold::fold_block_s;
use crate::fold::fold_callee_s;
use crate::fold::fold_decl_s;
use crate::fold::fold_declarator_s;
use crate::fold::fold_declarators_s;
use crate::fold::fold_elems_s;
use crate::fold::fold_eos_s;
use crate::fold::fold_expr_s;
use crate::fold::fold_function_s;
use crate::fold::fold_module_s;
use crate::fold::fold_opt_eos_s;
use crate::fold::fold_opt_pat_s;
use crate::fold::fold_opt_pats_s;
use crate::fold::fold_pat_s;
use crate::fold::fold_pats_s;
use crate::fold::fold_stmt_s;
use crate::fold::fold_stmts_s;
use crate::fold::fold_var_decl_s;
use crate::fold::hook_s;
use crate::fold::Pass;
use crate::span::dummy_span;
use crate::span::Span;
use crate::spread::args_as_elems;
use crate::spread::concat_expr;
use crate::spread::expand_args;
use crate::spread::fresh_name;
use crate::spread::has_spread_arg;
use crate::spread::has_spread_elem;
use crate::spread::hint_of;
use crate::spread::is_spread_elem;
use crate::spread::partition;
use crate::spread::rewrite_call;
use crate::spread::run_expr;
use crate::spread::runs_args;
use crate::spread::spread_source;
use crate::spread::RunV;
use crate::views::IdentV;
use crate::views::BlockV;
use crate::views::CalleeV;
use crate::views::DeclV;
use crate::views::EosV;
use crate::views::ExprV;
use crate::views::FunctionV;
use crate::views::ModuleV;
use crate::views::PatV;
use crate::views::StmtV;
use crate::views::VarDeclV;
use crate::views::VarDeclaratorV;
use vstd::prelude::*;

verus! {

// ---------------------------------------------------------------------
// Spread-free trees.
// ---------------------------------------------------------------------
/// No spread syntax anywhere in the expression.
pub open spec fn sf_expr(e: ExprV) -> bool
    decreases e,
{
    match e {
        ExprV::This { .. } => true,
        ExprV::Ident(_) => true,
        ExprV::Lit(_) => true,
        ExprV::Array { elems, .. } => !has_spread_elem(elems) && sf_elems(elems),
        ExprV::Unary { arg, .. } => sf_expr(*arg),
        ExprV::Assign { left, right, .. } => sf_pat(*left) && sf_expr(*right),
        ExprV::Member { obj, prop, .. } => sf_callee(obj) && sf_expr(*prop),
        ExprV::Call { callee, args, .. } => !has_spread_arg(args) && sf_callee(callee) && sf_args(
            args,
        ),
        ExprV::New { callee, args, .. } => !has_spread_arg(args) && sf_expr(*callee) && sf_args(
            args,
        ),
        ExprV::TsTypeAssertion { expr, .. } => sf_expr(*expr),
        ExprV::TsNonNull { expr, .. } => sf_expr(*expr),
        ExprV::TsAs { expr, .. } => sf_expr(*expr),
    }
}

pub open spec fn sf_callee(c: CalleeV) -> bool
    decreases c,
{
    match c {
        CalleeV::Super(_) => true,
        CalleeV::Expr(e) => sf_expr(*e),
    }
}

pub open spec fn sf_eos(a: EosV) -> bool
    decreases a,
{
    sf_expr(a.expr)
}

pub open spec fn sf_opt_eos(o: Option<EosV>) -> bool
    decreases o,
{
    match o {
        Option::None => true,
        Option::Some(a) => sf_eos(a),
    }
}

pub open spec fn sf_elems(s: Seq<Option<EosV>>) -> bool
    decreases s,
{
    if s.len() == 0 {
        true
    } else {
        sf_opt_eos(s[0]) && sf_elems(s.drop_first())
    }
}

pub open spec fn sf_args(s: Seq<EosV>) -> bool
    decreases s,
{
    if s.len() == 0 {
        true
    } else {
        sf_eos(s[0]) && sf_args(s.drop_first())
    }
}

pub open spec fn sf_pat(p: PatV) -> bool
    decreases p,
{
    match p {
        PatV::Ident(_) => true,
        PatV::Array { elems, .. } => sf_opt_pats(elems),
        PatV::Rest { arg, .. } => sf_pat(*arg),
        PatV::Object { props, .. } => sf_pats(props),
        PatV::Assign { left, right, .. } => sf_pat(*left) && sf_expr(*right),
    }
}

pub open spec fn sf_opt_pat(o: Option<PatV>) -> bool
    decreases o,
{
    match o {
        Option::None => true,
        Option::Some(p) => sf_pat(p),
    }
}

pub open spec fn sf_pats(s: Seq<PatV>) -> bool
    decreases s,
{
    if s.len() == 0 {
        true
    } else {
        sf_pat(s[0]) && sf_pats(s.drop_first())
    }
}

pub open spec fn sf_opt_pats(s: Seq<Option<PatV>>) -> bool
    decreases s,
{
    if s.len() == 0 {
        true
    } else {
        sf_opt_pat(s[0]) && sf_opt_pats(s.drop_first())
    }
}

pub open spec fn sf_stmt(s: StmtV) -> bool
    decreases s,
{
    match s {
        StmtV::Expr { expr, .. } => sf_expr(expr),
        StmtV::Block(b) => sf_block(b),
        StmtV::Return { arg, .. } => match arg {
            Option::None => true,
            Option::Some(e) => sf_expr(e),
        },
        StmtV::Decl(d) => sf_decl(d),
    }
}

pub open spec fn sf_block(b: BlockV) -> bool
    decreases b,
{
    sf_stmts(b.stmts)
}

pub open spec fn sf_stmts(s: Seq<StmtV>) -> bool
    decreases s,
{
    if s.len() == 0 {
        true
    } else {
        sf_stmt(s[0]) && sf_stmts(s.drop_first())
    }
}

pub open spec fn sf_decl(d: DeclV) -> bool
    decreases d,
{
    match d {
        DeclV::Var(v) => sf_var_decl(v),
        DeclV::Fn { function, .. } => sf_function(function),
        DeclV::TsInterface(_) => true,
        DeclV::TsTypeAlias(_) => true,
        DeclV::TsEnum(_) => true,
        DeclV::TsModule(_) => true,
    }
}

pub open spec fn sf_var_decl(v: VarDeclV) -> bool
    decreases v,
{
    sf_declarators(v.decls)
}

pub open spec fn sf_declarator(d: VarDeclaratorV) -> bool
    decreases d,
{
    sf_pat(d.name) && match d.init {
        Option::None => true,
        Option::Some(e) => sf_expr(e),
    }
}

pub open spec fn sf_declarators(s: Seq<VarDeclaratorV>) -> bool
    decreases s,
{
    if s.len() == 0 {
        true
    } else {
        sf_declarator(s[0]) && sf_declarators(s.drop_first())
    }
}

pub open spec fn sf_function(f: FunctionV) -> bool
    decreases f,
{
    sf_pats(f.params) && sf_block(f.body)
}

pub open spec fn sf_module(m: ModuleV) -> bool {
    sf_stmts(m.body)
}

// ---------------------------------------------------------------------
// Law: a spread-free tree is a fixed point of the pass. Both passes'
// hooks leave a spread-free expression unchanged, so the whole fold is
// the identity and hoists no temporary.
// ---------------------------------------------------------------------
pub proof fn lemma_hook_sf(p: Pass, names: Seq<Seq<char>>, e: ExprV)
    requires
        sf_expr(e),
    ensures
        hook_s(p, names, e) == (names, e),
{
}

pub proof fn lemma_sf_expr(p: Pass, names: Seq<Seq<char>>, e: ExprV)
    requires
        sf_expr(e),
    ensures
        fold_expr_s(p, names, e) == (names, e),
    decreases e,
{
    match e {
        ExprV::This { .. } => {},
        ExprV::Ident(_) => {},
        ExprV::Lit(_) => {},
        ExprV::Array { span, elems } => {
            lemma_sf_elems(p, names, elems);
            assert(ExprV::Array { span, elems } == e);
        },
        ExprV::Unary { arg, .. } => {
            lemma_sf_expr(p, names, *arg);
        },
        ExprV::Assign { left, right, .. } => {
            lemma_sf_pat(p, names, *left);
            lemma_sf_expr(p, names, *right);
        },
        ExprV::Member { obj, prop, .. } => {
            lemma_sf_callee(p, names, obj);
            lemma_sf_expr(p, names, *prop);
        },
        ExprV::Call { span, callee, args } => {
            lemma_sf_callee(p, names, callee);
            lemma_sf_args(p, names, args);
            assert(ExprV::Call { span, callee, args } == e);
        },
        ExprV::New { span, callee, args } => {
            lemma_sf_expr(p, names, *callee);
            lemma_sf_args(p, names, args);
            assert(ExprV::New { span, callee, args } == e);
        },
        ExprV::TsTypeAssertion { expr, .. } => {
            lemma_sf_expr(p, names, *expr);
        },
        ExprV::TsNonNull { expr, .. } => {
            lemma_sf_expr(p, names, *expr);
        },
        ExprV::TsAs { expr, .. } => {
            lemma_sf_expr(p, names, *expr);
        },
    }
}

pub proof fn lemma_sf_callee(p: Pass, names: Seq<Seq<char>>, c: CalleeV)
    requires
        sf_callee(c),
    ensures
        fold_callee_s(p, names, c) == (names, c),
    decreases c,
{
    match c {
        CalleeV::Super(_) => {},
        CalleeV::Expr(e) => {
            lemma_sf_expr(p, names, *e);
        },
    }
}

pub proof fn lemma_sf_eos(p: Pass, names: Seq<Seq<char>>, a: EosV)
    requires
        sf_eos(a),
    ensures
        fold_eos_s(p, names, a) == (names, a),
    decreases a,
{
    lemma_sf_expr(p, names, a.expr);
}

pub proof fn lemma_sf_opt_eos(p: Pass, names: Seq<Seq<char>>, o: Option<EosV>)
    requires
        sf_opt_eos(o),
    ensures
        fold_opt_eos_s(p, names, o) == (names, o),
    decreases o,
{
    match o {
        Option::None => {},
        Option::Some(a) => {
            lemma_sf_eos(p, names, a);
        },
    }
}

pub proof fn lemma_sf_elems(p: Pass, names: Seq<Seq<char>>, s: Seq<Option<EosV>>)
    requires
        sf_elems(s),
    ensures
        fold_elems_s(p, names, s) == (names, s),
    decreases s,
{
    if s.len() == 0 {
        assert(fold_elems_s(p, names, s).1 =~= s);
    } else {
        lemma_sf_opt_eos(p, names, s[0]);
        lemma_sf_elems(p, names, s.drop_first());
        assert(seq![s[0]] + s.drop_first() =~= s);
    }
}

pub proof fn lemma_sf_args(p: Pass, names: Seq<Seq<char>>, s: Seq<EosV>)
    requires
        sf_args(s),
    ensures
        fold_args_s(p, names, s) == (names, s),
    decreases s,
{
    if s.len() == 0 {
        assert(fold_args_s(p, names, s).1 =~= s);
    } else {
        lemma_sf_eos(p, names, s[0]);
        lemma_sf_args(p, names, s.drop_first());
        assert(seq![s[0]] + s.drop_first() =~= s);
    }
}

pub proof fn lemma_sf_pat(p: Pass, names: Seq<Seq<char>>, pt: PatV)
    requires
        sf_pat(pt),
    ensures
        fold_pat_s(p, names, pt) == (names, pt),
    decreases pt,
{
    match pt {
        PatV::Ident(_) => {},
        PatV::Array { elems, .. } => {
            lemma_sf_opt_pats(p, names, elems);
        },
        PatV::Rest { arg, .. } => {
            lemma_sf_pat(p, names, *arg);
        },
        PatV::Object { props, .. } => {
            lemma_sf_pats(p, names, props);
        },
        PatV::Assign { left, right, .. } => {
            lemma_sf_pat(p, names, *left);
            lemma_sf_expr(p, names, *right);
        },
    }
}

pub proof fn lemma_sf_opt_pat(p: Pass, names: Seq<Seq<char>>, o: Option<PatV>)
    requires
        sf_opt_pat(o),
    ensures
        fold_opt_pat_s(p, names, o) == (names, o),
    decreases o,
{
    match o {
        Option::None => {},
        Option::Some(pt) => {
            lemma_sf_pat(p, names, pt);
        },
    }
}

pub proof fn lemma_sf_pats(p: Pass, names: Seq<Seq<char>>, s: Seq<PatV>)
    requires
        sf_pats(s),
    ensures
        fold_pats_s(p, names, s) == (names, s),
    decreases s,
{
    if s.len() == 0 {
        assert(fold_pats_s(p, names, s).1 =~= s);
    } else {
        lemma_sf_pat(p, names, s[0]);
        lemma_sf_pats(p, names, s.drop_first());
        assert(seq![s[0]] + s.drop_first() =~= s);
    }
}

pub proof fn lemma_sf_opt_pats(p: Pass, names: Seq<Seq<char>>, s: Seq<Option<PatV>>)
    requires
        sf_opt_pats(s),
    ensures
        fold_opt_pats_s(p, names, s) == (names, s),
    decreases s,
{
    if s.len() == 0 {
        assert(fold_opt_pats_s(p, names, s).1 =~= s);
    } else {
        lemma_sf_opt_pat(p, names, s[0]);
        lemma_sf_opt_pats(p, names, s.drop_first());
        assert(seq![s[0]] + s.drop_first() =~= s);
    }
}

pub proof fn lemma_sf_stmt(p: Pass, names: Seq<Seq<char>>, s: StmtV)
    requires
        sf_stmt(s),
    ensures
        fold_stmt_s(p, names, s) == (names, s),
    decreases s,
{
    match s {
        StmtV::Expr { expr, .. } => {
            lemma_sf_expr(p, names, expr);
        },
        StmtV::Block(b) => {
            lemma_sf_block(p, names, b);
        },
        StmtV::Return { arg, .. } => {
            match arg {
                Option::None => {},
                Option::Some(e) => {
                    lemma_sf_expr(p, names, e);
                },
            }
        },
        StmtV::Decl(d) => {
            lemma_sf_decl(p, names, d);
        },
    }
}

pub proof fn lemma_sf_block(p: Pass, names: Seq<Seq<char>>, b: BlockV)
    requires
        sf_block(b),
    ensures
        fold_block_s(p, names, b) == (names, b),
    decreases b,
{
    lemma_sf_stmts(p, names, b.stmts);
}

pub proof fn lemma_sf_stmts(p: Pass, names: Seq<Seq<char>>, s: Seq<StmtV>)
    requires
        sf_stmts(s),
    ensures
        fold_stmts_s(p, names, s) == (names, s),
    decreases s,
{
    if s.len() == 0 {
        assert(fold_stmts_s(p, names, s).1 =~= s);
    } else {
        lemma_sf_stmt(p, names, s[0]);
        lemma_sf_stmts(p, names, s.drop_first());
        assert(seq![s[0]] + s.drop_first() =~= s);
    }
}

pub proof fn lemma_sf_decl(p: Pass, names: Seq<Seq<char>>, d: DeclV)
    requires
        sf_decl(d),
    ensures
        fold_decl_s(p, names, d) == (names, d),
    decreases d,
{
    match d {
        DeclV::Var(v) => {
            lemma_sf_var_decl(p, names, v);
        },
        DeclV::Fn { ident, function } => {
            lemma_sf_function(p, function);
            assert(DeclV::Fn { ident, function } == d);
        },
        DeclV::TsInterface(_) => {},
        DeclV::TsTypeAlias(_) => {},
        DeclV::TsEnum(_) => {},
        DeclV::TsModule(_) => {},
    }
}

pub proof fn lemma_sf_var_decl(p: Pass, names: Seq<Seq<char>>, v: VarDeclV)
    requires
        sf_var_decl(v),
    ensures
        fold_var_decl_s(p, names, v) == (names, v),
    decreases v,
{
    lemma_sf_declarators(p, names, v.decls);
}

pub proof fn lemma_sf_declarator(p: Pass, names: Seq<Seq<char>>, d: VarDeclaratorV)
    requires
        sf_declarator(d),
    ensures
        fold_declarator_s(p, names, d) == (names, d),
    decreases d,
{
    lemma_sf_pat(p, names, d.name);
    match d.init {
        Option::None => {},
        Option::Some(e) => {
            lemma_sf_expr(p, names, e);
        },
    }
}

pub proof fn lemma_sf_declarators(p: Pass, names: Seq<Seq<char>>, s: Seq<VarDeclaratorV>)
    requires
        sf_declarators(s),
    ensures
        fold_declarators_s(p, names, s) == (names, s),
    decreases s,
{
    if s.len() == 0 {
        assert(fold_declarators_s(p, names, s).1 =~= s);
    } else {
        lemma_sf_declarator(p, names, s[0]);
        lemma_sf_declarators(p, names, s.drop_first());
        assert(seq![s[0]] + s.drop_first() =~= s);
    }
}

pub proof fn lemma_sf_function(p: Pass, f: FunctionV)
    requires
        sf_function(f),
    ensures
        fold_function_s(p, f) == f,
    decreases f,
{
    lemma_sf_pats(p, Seq::empty(), f.params);
    lemma_sf_stmts(p, Seq::empty(), f.body.stmts);
    assert(fold_function_s(p, f) == (FunctionV {
        span: f.span,
        params: f.params,
        body: BlockV { span: f.body.span, stmts: f.body.stmts },
    }));
    assert((BlockV { span: f.body.span, stmts: f.body.stmts }) == f.body);
}

/// A module without spread syntax passes through any pass of the
/// pipeline unchanged: the lowering is the identity on spread-free
/// input, and hoists no temporary.
pub proof fn lemma_sf_module(p: Pass, m: ModuleV)
    requires
        sf_module(m),
    ensures
        fold_module_s(p, m) == m,
{
    lemma_sf_stmts(p, Seq::empty(), m.body);
    assert((ModuleV { span: m.span, body: m.body }) == m);
}

// ---------------------------------------------------------------------
// Law: the run partition preserves content and order.
// ---------------------------------------------------------------------
/// The element list a sequence of runs stands for, read left to right.
pub open spec fn flatten_runs(rs: Seq<RunV>) -> Seq<Option<EosV>>
    decreases rs.len(),
{
    if rs.len() == 0 {
        Seq::empty()
    } else {
        (match rs[0] {
            RunV::Plain(pl) => pl,
            RunV::Spread(e) => seq![Option::Some(EosV { spread: true, expr: e })],
        }) + flatten_runs(rs.drop_first())
    }
}

/// Partitioning an argument/element list into runs loses nothing, adds
/// nothing, and keeps source order: flattening the runs yields the
/// original list again. Since the rewrite emits the runs of the
/// partition in order, the rewritten `concat` form evaluates the same
/// expressions, in the same left-to-right order, as the source list.
pub proof fn lemma_partition_flatten(elems: Seq<Option<EosV>>)
    ensures
        flatten_runs(partition(elems)) == elems,
    decreases elems.len(),
{
    if elems.len() == 0 {
        assert(flatten_runs(partition(elems)) =~= elems);
    } else {
        let rest = partition(elems.drop_first());
        lemma_partition_flatten(elems.drop_first());
        if is_spread_elem(elems[0]) {
            let a = elems[0]->Some_0;
            assert(a == (EosV { spread: true, expr: a.expr }));
            assert(partition(elems) == seq![RunV::Spread(a.expr)] + rest);
            assert((seq![RunV::Spread(a.expr)] + rest).drop_first() =~= rest);
            assert(flatten_runs(partition(elems)) =~= elems);
        } else {
            if rest.len() > 0 && (rest[0] matches RunV::Plain(_)) {
                let pl = rest[0]->Plain_0;
                assert(partition(elems) == seq![RunV::Plain(seq![elems[0]] + pl)]
                    + rest.drop_first());
                assert((seq![RunV::Plain(seq![elems[0]] + pl)] + rest.drop_first()).drop_first()
                    =~= rest.drop_first());
                assert(flatten_runs(rest) == pl + flatten_runs(rest.drop_first()));
                assert(elems.drop_first() == pl + flatten_runs(rest.drop_first()));
                assert(flatten_runs(partition(elems)) == (seq![elems[0]] + pl)
                    + flatten_runs(rest.drop_first()));
                assert(elems =~= seq![elems[0]] + elems.drop_first());
                assert((seq![elems[0]] + pl) + flatten_runs(rest.drop_first()) =~= seq![
                    elems[0],
                ] + (pl + flatten_runs(rest.drop_first())));
                assert(flatten_runs(partition(elems)) =~= elems);
            } else {
                assert(partition(elems) == seq![RunV::Plain(seq![elems[0]])] + rest);
                assert((seq![RunV::Plain(seq![elems[0]])] + rest).drop_first() =~= rest);
                assert(flatten_runs(partition(elems)) =~= elems);
            }
        }
    }
}

// ---------------------------------------------------------------------
// Law: a member-call rewrite evaluates the receiver exactly once.
//
// Occurrences are counted with a predicate that can hold only of
// assignment expressions; the rewrite synthesizes exactly one
// assignment, the one that hoists the receiver into the fresh
// temporary, and everything else it builds is calls, member accesses,
// identifiers and array literals.
// ---------------------------------------------------------------------
pub open spec fn cnt_expr(f: spec_fn(ExprV) -> bool, e: ExprV) -> nat
    decreases e,
{
    (if f(e) {
        1nat
    } else {
        0nat
    }) + match e {
        ExprV::This { .. } => 0,
        ExprV::Ident(_) => 0,
        ExprV::Lit(_) => 0,
        ExprV::Array { elems, .. } => cnt_elems(f, elems),
        ExprV::Unary { arg, .. } => cnt_expr(f, *arg),
        ExprV::Assign { left, right, .. } => cnt_pat(f, *left) + cnt_expr(f, *right),
        ExprV::Member { obj, prop, .. } => cnt_callee(f, obj) + cnt_expr(f, *prop),
        ExprV::Call { callee, args, .. } => cnt_callee(f, callee) + cnt_args(f, args),
        ExprV::New { callee, args, .. } => cnt_expr(f, *callee) + cnt_args(f, args),
        ExprV::TsTypeAssertion { expr, .. } => cnt_expr(f, *expr),
        ExprV::TsNonNull { expr, .. } => cnt_expr(f, *expr),
        ExprV::TsAs { expr, .. } => cnt_expr(f, *expr),
    }
}

pub open spec fn cnt_callee(f: spec_fn(ExprV) -> bool, c: CalleeV) -> nat
    decreases c,
{
    match c {
        CalleeV::Super(_) => 0,
        CalleeV::Expr(e) => cnt_expr(f, *e),
    }
}

pub open spec fn cnt_opt_eos(f: spec_fn(ExprV) -> bool, o: Option<EosV>) -> nat
    decreases o,
{
    match o {
        Option::None => 0,
        Option::Some(a) => cnt_expr(f, a.expr),
    }
}

pub open spec fn cnt_elems(f: spec_fn(ExprV) -> bool, s: Seq<Option<EosV>>) -> nat
    decreases s,
{
    if s.len() == 0 {
        0
    } else {
        cnt_opt_eos(f, s[0]) + cnt_elems(f, s.drop_first())
    }
}

pub open spec fn cnt_args(f: spec_fn(ExprV) -> bool, s: Seq<EosV>) -> nat
    decreases s,
{
    if s.len() == 0 {
        0
    } else {
        cnt_expr(f, s[0].expr) + cnt_args(f, s.drop_first())
    }
}

pub open spec fn cnt_pat(f: spec_fn(ExprV) -> bool, p: PatV) -> nat
    decreases p,
{
    match p {
        PatV::Ident(_) => 0,
        PatV::Array { elems, .. } => cnt_opt_pats(f, elems),
        PatV::Rest { arg, .. } => cnt_pat(f, *arg),
        PatV::Object { props, .. } => cnt_pats(f, props),
        PatV::Assign { left, right, .. } => cnt_pat(f, *left) + cnt_expr(f, *right),
    }
}

pub open spec fn cnt_opt_pat(f: spec_fn(ExprV) -> bool, o: Option<PatV>) -> nat
    decreases o,
{
    match o {
        Option::None => 0,
        Option::Some(p) => cnt_pat(f, p),
    }
}

pub open spec fn cnt_pats(f: spec_fn(ExprV) -> bool, s: Seq<PatV>) -> nat
    decreases s,
{
    if s.len() == 0 {
        0
    } else {
        cnt_pat(f, s[0]) + cnt_pats(f, s.drop_first())
    }
}

pub open spec fn cnt_opt_pats(f: spec_fn(ExprV) -> bool, s: Seq<Option<PatV>>) -> nat
    decreases s,
{
    if s.len() == 0 {
        0
    } else {
        cnt_opt_pat(f, s[0]) + cnt_opt_pats(f, s.drop_first())
    }
}

/// A predicate that can hold only of assignments.
pub open spec fn assign_only(f: spec_fn(ExprV) -> bool) -> bool {
    forall|e: ExprV| #[trigger] f(e) ==> e matches ExprV::Assign { .. }
}

/// The hoisting assignment `t = o` the member-call rewrite builds.
pub open spec fn hoist_assign(t: Seq<char>, o: ExprV) -> ExprV {
    ExprV::Assign {
        span: dummy_span(),
        op: crate::expr::AssignOp::Assign,
        left: Box::new(PatV::Ident(IdentV { span: dummy_span(), sym: t })),
        right: Box::new(o),
    }
}

pub proof fn lemma_cnt_elems_add(f: spec_fn(ExprV) -> bool, a: Seq<Option<EosV>>, b: Seq<
    Option<EosV>,
>)
    ensures
        cnt_elems(f, a + b) == cnt_elems(f, a) + cnt_elems(f, b),
    decreases a.len(),
{
    if a.len() == 0 {
        assert(a + b =~= b);
    } else {
        lemma_cnt_elems_add(f, a.drop_first(), b);
        assert((a + b).drop_first() =~= a.drop_first() + b);
    }
}

pub proof fn lemma_cnt_spread_source(f: spec_fn(ExprV) -> bool, e: ExprV)
    requires
        assign_only(f),
    ensures
        cnt_expr(f, spread_source(e)) == cnt_expr(f, e),
{
    reveal_with_fuel(cnt_expr, 8);
    reveal_with_fuel(cnt_callee, 8);
    reveal_with_fuel(cnt_args, 3);
    assert(seq![crate::spread::plain(e)].drop_first() =~= Seq::<EosV>::empty());
    assert(cnt_args(f, seq![crate::spread::plain(e)]) == cnt_expr(f, e));
    if crate::spread::is_arguments(e) {
        let a1 = crate::spread::ident_expr("Array"@);
        let m1 = crate::spread::member_expr(a1, "prototype"@);
        let m2 = crate::spread::member_expr(m1, "slice"@);
        let m3 = crate::spread::member_expr(m2, "call"@);
        assert(cnt_expr(f, a1) == 0);
        assert(cnt_expr(f, m1) == 0);
        assert(cnt_expr(f, m2) == 0);
        assert(cnt_expr(f, m3) == 0);
        assert(cnt_expr(f, spread_source(e)) == cnt_expr(f, m3) + cnt_args(
            f,
            seq![crate::spread::plain(e)],
        ));
    } else {
        assert(cnt_expr(f, crate::spread::ident_expr("_toConsumableArray"@)) == 0);
        assert(cnt_expr(f, spread_source(e)) == cnt_args(f, seq![crate::spread::plain(e)]));
    }
}

pub proof fn lemma_cnt_runs_args(f: spec_fn(ExprV) -> bool, rs: Seq<RunV>)
    requires
        assign_only(f),
    ensures
        cnt_args(f, runs_args(rs)) == cnt_elems(f, flatten_runs(rs)),
    decreases rs.len(),
{
    if rs.len() == 0 {
        assert(cnt_args(f, runs_args(rs)) == 0);
    } else {
        lemma_cnt_runs_args(f, rs.drop_first());
        assert(runs_args(rs).drop_first() =~= runs_args(rs.drop_first()));
        match rs[0] {
            RunV::Plain(pl) => {
                assert(cnt_expr(f, run_expr(rs[0])) == cnt_elems(f, pl));
                lemma_cnt_elems_add(f, pl, flatten_runs(rs.drop_first()));
            },
            RunV::Spread(e) => {
                lemma_cnt_spread_source(f, e);
                let one = seq![Option::Some(EosV { spread: true, expr: e })];
                assert(one.drop_first() =~= Seq::<Option<EosV>>::empty());
                assert(cnt_elems(f, one) == cnt_opt_eos(f, one[0]) + cnt_elems(
                    f,
                    one.drop_first(),
                ));
                assert(cnt_elems(f, one) == cnt_expr(f, e));
                lemma_cnt_elems_add(f, one, flatten_runs(rs.drop_first()));
            },
        }
    }
}

pub proof fn lemma_cnt_concat(f: spec_fn(ExprV) -> bool, span: Span, rs: Seq<RunV>)
    requires
        assign_only(f),
        rs.len() > 0,
    ensures
        cnt_expr(f, concat_expr(span, rs)) == cnt_elems(f, flatten_runs(rs)),
{
    reveal_with_fuel(cnt_expr, 6);
    reveal_with_fuel(cnt_callee, 6);
    reveal_with_fuel(cnt_elems, 2);
    lemma_cnt_runs_args(f, rs);
    match rs[0] {
        RunV::Plain(pl) => {
            lemma_cnt_runs_args(f, rs.drop_first());
            lemma_cnt_elems_add(f, pl, flatten_runs(rs.drop_first()));
            assert(!f(concat_expr(span, rs)));
            assert(cnt_expr(f, crate::spread::array_expr(pl)) == cnt_elems(f, pl));
        },
        RunV::Spread(_) => {
            assert(!f(concat_expr(span, rs)));
            assert(cnt_elems(f, Seq::<Option<EosV>>::empty()) == 0);
        },
    }
}

pub proof fn lemma_cnt_args_as_elems(f: spec_fn(ExprV) -> bool, args: Seq<EosV>)
    ensures
        cnt_elems(f, args_as_elems(args)) == cnt_args(f, args),
    decreases args.len(),
{
    if args.len() > 0 {
        lemma_cnt_args_as_elems(f, args.drop_first());
        assert(args_as_elems(args).drop_first() =~= args_as_elems(args.drop_first()));
        assert(args_as_elems(args)[0] == Option::Some(args[0]));
        assert(cnt_opt_eos(f, args_as_elems(args)[0]) == cnt_expr(f, args[0].expr));
        assert(cnt_elems(f, args_as_elems(args)) == cnt_opt_eos(f, args_as_elems(args)[0])
            + cnt_elems(f, args_as_elems(args).drop_first()));
    }
}

/// Lowering an argument list neither adds nor drops an assignment: the
/// expression handed to `apply` contains exactly the assignments of the
/// original arguments.
pub proof fn lemma_cnt_expand_args(f: spec_fn(ExprV) -> bool, span: Span, args: Seq<EosV>)
    requires
        assign_only(f),
        has_spread_arg(args),
    ensures
        cnt_expr(f, expand_args(span, args)) == cnt_args(f, args),
{
    if args.len() == 1 && args[0].spread {
        assert(cnt_args(f, args) == cnt_expr(f, args[0].expr) + cnt_args(f, args.drop_first()));
    } else {
        let elems = args_as_elems(args);
        lemma_args_nonempty(args);
        lemma_cnt_args_as_elems(f, args);
        crate::spread::lemma_partition_nonempty(elems);
        lemma_cnt_concat(f, span, partition(elems));
        lemma_partition_flatten(elems);
    }
}

proof fn lemma_args_nonempty(args: Seq<EosV>)
    requires
        has_spread_arg(args),
    ensures
        args.len() > 0,
        args_as_elems(args).len() > 0,
{
    lemma_args_as_elems_len(args);
}

proof fn lemma_args_as_elems_len(args: Seq<EosV>)
    ensures
        args_as_elems(args).len() == args.len(),
    decreases args.len(),
{
    if args.len() > 0 {
        lemma_args_as_elems_len(args.drop_first());
    }
}

/// In the member-call spread rewrite with a receiver that must be
/// hoisted, any assignment-shaped occurrence that is absent from the
/// receiver, the member name, and the arguments occurs in the rewritten
/// call exactly as often as it holds of the hoisting assignment itself:
/// at most once, and exactly once for the hoisting assignment `t = o`.
pub proof fn lemma_member_rewrite_counts(
    f: spec_fn(ExprV) -> bool,
    names: Seq<Seq<char>>,
    span: Span,
    mspan: Span,
    o: ExprV,
    prop: Box<ExprV>,
    computed: bool,
    args: Seq<EosV>,
)
    requires
        assign_only(f),
        has_spread_arg(args),
        !(o matches ExprV::This { .. }),
        cnt_expr(f, o) == 0,
        cnt_expr(f, *prop) == 0,
        cnt_args(f, args) == 0,
    ensures
        cnt_expr(
            f,
            rewrite_call(
                names,
                span,
                ExprV::Member {
                    span: mspan,
                    obj: CalleeV::Expr(Box::new(o)),
                    prop,
                    computed,
                },
                args,
            ).1,
        ) == if f(hoist_assign(fresh_name(names, hint_of(o)), o)) {
            1nat
        } else {
            0nat
        },
{
    reveal_with_fuel(cnt_expr, 5);
    reveal_with_fuel(cnt_callee, 4);
    reveal_with_fuel(cnt_args, 4);
    reveal_with_fuel(cnt_pat, 2);
    let t = fresh_name(names, hint_of(o));
    let result = rewrite_call(
        names,
        span,
        ExprV::Member { span: mspan, obj: CalleeV::Expr(Box::new(o)), prop, computed },
        args,
    ).1;
    lemma_cnt_expand_args(f, span, args);
    let args_expr = expand_args(span, args);
    let receiver = hoist_assign(t, o);
    let callee2 = ExprV::Member {
        span: mspan,
        obj: CalleeV::Expr(Box::new(receiver)),
        prop,
        computed,
    };
    assert(result == crate::spread::apply_call(span, callee2, crate::spread::ident_expr(t), args_expr));
    assert(!f(result));
    assert(!f(crate::spread::member_expr(callee2, "apply"@)));
    assert(!f(callee2));
    assert(!f(crate::spread::ident_expr("apply"@)));
    assert(!f(crate::spread::ident_expr(t)));
    assert(cnt_expr(f, receiver) == (if f(receiver) {
        1nat
    } else {
        0nat
    }));
    let pair = seq![
        crate::spread::plain(crate::spread::ident_expr(t)),
        crate::spread::plain(args_expr),
    ];
    assert(pair.drop_first() =~= seq![crate::spread::plain(args_expr)]);
    assert(seq![crate::spread::plain(args_expr)].drop_first() =~= Seq::<EosV>::empty());
    assert(cnt_args(f, pair) == cnt_expr(f, args_expr));
    assert(cnt_expr(f, args_expr) == 0);
    assert(cnt_expr(f, receiver) == (if f(receiver) {
        1nat
    } else {
        0nat
    }));
    assert(cnt_expr(f, callee2) == cnt_expr(f, receiver));
    assert(cnt_expr(f, crate::spread::member_expr(callee2, "apply"@)) == cnt_expr(f, receiver));
    assert(cnt_expr(f, result) == cnt_expr(f, crate::spread::member_expr(callee2, "apply"@))
        + cnt_args(f, pair));
}

/// The temporary hoisted for the receiver of a member-call spread
/// rewrite is assigned exactly once in the rewritten call, and what
/// that one assignment evaluates is exactly the receiver — provided the
/// original call contained no assignment to that fresh name.
pub proof fn lemma_member_rewrite_receiver_once(
    names: Seq<Seq<char>>,
    span: Span,
    mspan: Span,
    o: ExprV,
    prop: Box<ExprV>,
    computed: bool,
    args: Seq<EosV>,
)
    requires
        has_spread_arg(args),
        !(o matches ExprV::This { .. }),
        cnt_expr(assigns_receiver(fresh_name(names, hint_of(o)), o), o) == 0,
        cnt_expr(assigns_receiver(fresh_name(names, hint_of(o)), o), *prop) == 0,
        cnt_args(assigns_receiver(fresh_name(names, hint_of(o)), o), args) == 0,
    ensures
        cnt_expr(
            assigns_receiver(fresh_name(names, hint_of(o)), o),
            rewrite_call(
                names,
                span,
                ExprV::Member {
                    span: mspan,
                    obj: CalleeV::Expr(Box::new(o)),
                    prop,
                    computed,
                },
                args,
            ).1,
        ) == 1,
{
    let t = fresh_name(names, hint_of(o));
    let f = assigns_receiver(t, o);
    assert(f(hoist_assign(t, o)));
    lemma_member_rewrite_counts(f, names, span, mspan, o, prop, computed, args);
}

/// An assignment of exactly the receiver `o` to the temporary `t`.
pub open spec fn assigns_receiver(t: Seq<char>, o: ExprV) -> spec_fn(ExprV) -> bool {
    |e: ExprV|
        e matches ExprV::Assign { span, op, left, right } && span == dummy_span() && op
            == crate::expr::AssignOp::Assign && *left == PatV::Ident(
            IdentV { span: dummy_span(), sym: t },
        ) && *right == o
}

} // verus!
