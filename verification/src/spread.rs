//! Spread lowering: the rewrite rules.
//!
//! This module states, as spec functions, exactly what the spread pass
//! does to an array literal, a call, or a `new`-expression whose
//! argument/element list contains spread syntax. The executable rewrite
//! lives in `fold`, whose contracts refer to these functions; the laws
//! about evaluation order and receiver hoisting are proved in `laws`.
use crate::expr::AssignOp;
use crate::expr::Expr;
use crate::expr::ExprOrSpread;
use crate::expr::ExprOrSuper;
use crate::expr::UnaryExpr;
use crate::expr::UnaryOp;
use crate::ident::Ident;
use crate::lit::Number;
use crate::span::dummy_span;
use crate::span::Span;
use crate::views::lemma_view_elems;
use crate::views::lemma_view_names;
use crate::views::view_elems;
use crate::views::view_expr;
use crate::views::view_names;
use crate::views::view_opt_eos;
use crate::views::CalleeV;
use crate::views::EosV;
use crate::views::ExprV;
use crate::views::IdentV;
use crate::views::LitV;
use crate::views::PatV;
use vstd::prelude::*;
use vstd::string::StringExecFns;

verus! {

/// An identifier expression with the dummy span.
pub open spec fn ident_expr(sym: Seq<char>) -> ExprV {
    ExprV::Ident(IdentV { span: dummy_span(), sym })
}

/// Whether an expression is literally the `arguments` object.
pub open spec fn is_arguments(e: ExprV) -> bool {
    e matches ExprV::Ident(i) && i.sym == "arguments"@
}

/// A plain (non-spread) argument position.
pub open spec fn plain(e: ExprV) -> EosV {
    EosV { spread: false, expr: e }
}

/// A static member access `obj.name` with the dummy span.
pub open spec fn member_expr(obj: ExprV, name: Seq<char>) -> ExprV {
    ExprV::Member {
        span: dummy_span(),
        obj: CalleeV::Expr(Box::new(obj)),
        prop: Box::new(ident_expr(name)),
        computed: false,
    }
}

/// An array literal with the dummy span.
pub open spec fn array_expr(elems: Seq<Option<EosV>>) -> ExprV {
    ExprV::Array { span: dummy_span(), elems }
}

/// A call of a single-argument helper, `name(arg)`.
pub open spec fn helper_call(name: Seq<char>, arg: ExprV) -> ExprV {
    ExprV::Call {
        span: dummy_span(),
        callee: CalleeV::Expr(Box::new(ident_expr(name))),
        args: seq![plain(arg)],
    }
}

/// The aggregation of one spread source into an array:
/// `_toConsumableArray(e)`, or `Array.prototype.slice.call(arguments)`
/// when the source is literally the `arguments` object, which a helper
/// must not consume lazily.
pub open spec fn spread_source(e: ExprV) -> ExprV {
    if is_arguments(e) {
        ExprV::Call {
            span: dummy_span(),
            callee: CalleeV::Expr(
                Box::new(
                    member_expr(
                        member_expr(member_expr(ident_expr("Array"@), "prototype"@), "slice"@),
                        "call"@,
                    ),
                ),
            ),
            args: seq![plain(e)],
        }
    } else {
        helper_call("_toConsumableArray"@, e)
    }
}

/// `void 0`, the undefined value used as the `this` argument of
/// `callee.apply` when no receiver exists.
pub open spec fn void_zero() -> ExprV {
    ExprV::Unary {
        span: dummy_span(),
        op: UnaryOp::Void,
        arg: Box::new(ExprV::Lit(LitV::Num(Number { span: dummy_span(), value: 0 }))),
    }
}

/// One maximal run of an argument/element list: consecutive plain
/// positions (holes included), or a single spread source.
pub enum RunV {
    Plain(Seq<Option<EosV>>),
    Spread(ExprV),
}

/// Whether a position is a spread element.
pub open spec fn is_spread_elem(o: Option<EosV>) -> bool {
    o matches Option::Some(a) && a.spread
}

/// Partition a list into maximal runs, in source order.
pub open spec fn partition(elems: Seq<Option<EosV>>) -> Seq<RunV>
    decreases elems.len(),
{
    if elems.len() == 0 {
        Seq::empty()
    } else {
        let rest = partition(elems.drop_first());
        if is_spread_elem(elems[0]) {
            seq![RunV::Spread(elems[0]->Some_0.expr)] + rest
        } else {
            if rest.len() > 0 && (rest[0] matches RunV::Plain(_)) {
                seq![RunV::Plain(seq![elems[0]] + rest[0]->Plain_0)] + rest.drop_first()
            } else {
                seq![RunV::Plain(seq![elems[0]])] + rest
            }
        }
    }
}

/// The expression one run contributes to the `concat` argument list.
pub open spec fn run_expr(r: RunV) -> ExprV {
    match r {
        RunV::Plain(p) => array_expr(p),
        RunV::Spread(e) => spread_source(e),
    }
}

pub open spec fn runs_args(rs: Seq<RunV>) -> Seq<EosV>
    decreases rs.len(),
{
    if rs.len() == 0 {
        Seq::empty()
    } else {
        seq![plain(run_expr(rs[0]))] + runs_args(rs.drop_first())
    }
}

/// Join the runs with `concat`: the leading plain run (or `[]`) is the
/// receiver, every later run an argument, all in source order.
pub open spec fn concat_expr(span: Span, runs: Seq<RunV>) -> ExprV
    recommends
        runs.len() > 0,
{
    match runs[0] {
        RunV::Plain(p) => ExprV::Call {
            span,
            callee: CalleeV::Expr(Box::new(member_expr(array_expr(p), "concat"@))),
            args: runs_args(runs.drop_first()),
        },
        RunV::Spread(_) => ExprV::Call {
            span,
            callee: CalleeV::Expr(
                Box::new(member_expr(array_expr(Seq::empty()), "concat"@)),
            ),
            args: runs_args(runs),
        },
    }
}

/// Lower an element list in array or constructor position. A sole,
/// single spread stays bare inside `[].concat(..)` (or becomes the
/// `arguments` copy); anything else goes through the run partition.
pub open spec fn expand_elems(span: Span, elems: Seq<Option<EosV>>) -> ExprV
    recommends
        has_spread_elem(elems),
{
    if elems.len() == 1 && is_spread_elem(elems[0]) {
        let e = elems[0]->Some_0.expr;
        if is_arguments(e) {
            spread_source(e)
        } else {
            ExprV::Call {
                span,
                callee: CalleeV::Expr(
                    Box::new(member_expr(array_expr(Seq::empty()), "concat"@)),
                ),
                args: seq![plain(e)],
            }
        }
    } else {
        concat_expr(span, partition(elems))
    }
}

pub open spec fn has_spread_elem(elems: Seq<Option<EosV>>) -> bool {
    exists|i: int| 0 <= i < elems.len() && is_spread_elem(elems[i])
}

pub open spec fn has_spread_arg(args: Seq<EosV>) -> bool {
    exists|i: int| 0 <= i < args.len() && args[i].spread
}

/// An argument list seen as an element list without holes.
pub open spec fn args_as_elems(args: Seq<EosV>) -> Seq<Option<EosV>>
    decreases args.len(),
{
    if args.len() == 0 {
        Seq::empty()
    } else {
        seq![Option::Some(args[0])] + args_as_elems(args.drop_first())
    }
}

/// Lower a call argument list to the single expression handed to
/// `apply`. A sole, single spread is passed bare: `apply` accepts any
/// array-like value directly.
pub open spec fn expand_args(span: Span, args: Seq<EosV>) -> ExprV
    recommends
        has_spread_arg(args),
{
    if args.len() == 1 && args[0].spread {
        args[0].expr
    } else {
        concat_expr(span, partition(args_as_elems(args)))
    }
}

/// `callee.apply(this_arg, args_expr)`.
pub open spec fn apply_call(span: Span, callee: ExprV, this_arg: ExprV, args_expr: ExprV) -> ExprV {
    ExprV::Call {
        span,
        callee: CalleeV::Expr(Box::new(member_expr(callee, "apply"@))),
        args: seq![plain(this_arg), plain(args_expr)],
    }
}

/// The name hint for the hoisting temporary of a receiver.
pub open spec fn hint_of(e: ExprV) -> Seq<char> {
    match e {
        ExprV::Ident(i) => i.sym,
        ExprV::Member { prop, computed, .. } => if !computed && (*prop matches ExprV::Ident(_)) {
            (*prop)->Ident_0.sym
        } else {
            "ref"@
        },
        _ => "ref"@,
    }
}

/// The longest name in scope; bounds candidate growth for fresh names.
pub open spec fn max_len(names: Seq<Seq<char>>) -> nat
    decreases names.len(),
{
    if names.len() == 0 {
        0
    } else {
        let rest = max_len(names.drop_first());
        if names[0].len() > rest {
            names[0].len()
        } else {
            rest
        }
    }
}

pub proof fn lemma_max_len(names: Seq<Seq<char>>, n: Seq<char>)
    requires
        names.contains(n),
    ensures
        n.len() <= max_len(names),
    decreases names.len(),
{
    if names.len() > 0 {
        if names[0] =~= n {
        } else {
            let i = choose|i: int| 0 <= i < names.len() && names[i] == n;
            assert(names.drop_first()[i - 1] == n);
            lemma_max_len(names.drop_first(), n);
        }
    }
}

/// Extend a candidate with underscores until it collides with no name
/// in scope.
pub open spec fn fresh_from(names: Seq<Seq<char>>, cand: Seq<char>) -> Seq<char>
    decreases max_len(names) + 2 - cand.len() via fresh_from_decreases
{
    if names.contains(cand) {
        fresh_from(names, cand.push('_'))
    } else {
        cand
    }
}

#[via_fn]
proof fn fresh_from_decreases(names: Seq<Seq<char>>, cand: Seq<char>) {
    if names.contains(cand) {
        lemma_max_len(names, cand);
    }
}

/// The fresh temporary name for a hint: an underscore, the hint, and as
/// few further underscores as collision avoidance requires.
pub open spec fn fresh_name(names: Seq<Seq<char>>, hint: Seq<char>) -> Seq<char> {
    fresh_from(names, seq!['_'] + hint)
}

pub proof fn lemma_fresh_from_free(names: Seq<Seq<char>>, cand: Seq<char>)
    ensures
        !names.contains(fresh_from(names, cand)),
    decreases max_len(names) + 2 - cand.len(),
{
    if names.contains(cand) {
        lemma_max_len(names, cand);
        lemma_fresh_from_free(names, cand.push('_'));
    }
}

/// Rewrite one call whose argument list contains spread syntax. Returns
/// the scope extended with any temporary it hoisted, and the rewritten
/// expression.
pub open spec fn rewrite_call(
    names: Seq<Seq<char>>,
    span: Span,
    callee: ExprV,
    args: Seq<EosV>,
) -> (Seq<Seq<char>>, ExprV) {
    let args_expr = expand_args(span, args);
    match callee {
        ExprV::Member { span: mspan, obj, prop, computed } => {
            match obj {
                CalleeV::Super(_) => (
                    names,
                    apply_call(span, callee, ExprV::This { span: dummy_span() }, args_expr),
                ),
                CalleeV::Expr(o) => {
                    if *o matches ExprV::This { .. } {
                        (names, apply_call(span, callee, *o, args_expr))
                    } else {
                        let t = fresh_name(names, hint_of(*o));
                        let receiver = ExprV::Assign {
                            span: dummy_span(),
                            op: AssignOp::Assign,
                            left: Box::new(PatV::Ident(IdentV { span: dummy_span(), sym: t })),
                            right: o,
                        };
                        let callee2 = ExprV::Member {
                            span: mspan,
                            obj: CalleeV::Expr(Box::new(receiver)),
                            prop,
                            computed,
                        };
                        (names.push(t), apply_call(span, callee2, ident_expr(t), args_expr))
                    }
                },
            }
        },
        _ => (names, apply_call(span, callee, void_zero(), args_expr)),
    }
}

/// The per-expression rewrite hook of the spread pass: applied to every
/// expression after its children have been lowered. An expression
/// without spread syntax in an eligible position is returned unchanged.
pub open spec fn hook_expr(names: Seq<Seq<char>>, e: ExprV) -> (Seq<Seq<char>>, ExprV) {
    match e {
        ExprV::Array { span, elems } => if has_spread_elem(elems) {
            (names, expand_elems(span, elems))
        } else {
            (names, e)
        },
        ExprV::Call { span, callee, args } => if has_spread_arg(args) {
            match callee {
                CalleeV::Expr(ce) => rewrite_call(names, span, *ce, args),
                CalleeV::Super(_) => (names, e),
            }
        } else {
            (names, e)
        },
        ExprV::New { span, callee, args } => if has_spread_arg(args) {
            (
                names,
                ExprV::Call {
                    span,
                    callee: CalleeV::Expr(Box::new(ident_expr("_construct"@))),
                    args: seq![
                        plain(*callee),
                        plain(expand_elems(dummy_span(), args_as_elems(args))),
                    ],
                },
            )
        } else {
            (names, e)
        },
        _ => (names, e),
    }
}

// ---------------------------------------------------------------------
// Executable builders for the rewritten syntax. Each one's contract ties
// it to the spec function of the same shape above.
// ---------------------------------------------------------------------
fn mk_ident_expr(sym: String) -> (e: Expr)
    ensures
        view_expr(e) == ident_expr(sym@),
{
    Expr::Ident(Ident { span: Span::dummy(), sym })
}

fn mk_plain(e: Expr) -> (a: ExprOrSpread)
    ensures
        crate::views::view_eos(a) == plain(view_expr(e)),
{
    ExprOrSpread { spread: false, expr: Box::new(e) }
}

fn mk_member(obj: Expr, name: &str) -> (e: Expr)
    ensures
        view_expr(e) == member_expr(view_expr(obj), name@),
{
    proof {
        reveal_with_fuel(view_expr, 3);
    }
    Expr::Member(
        crate::expr::MemberExpr {
            span: Span::dummy(),
            obj: ExprOrSuper::Expr(Box::new(obj)),
            prop: Box::new(mk_ident_expr(String::from_str(name))),
            computed: false,
        },
    )
}

fn mk_helper_call(name: &str, arg: Expr) -> (e: Expr)
    ensures
        view_expr(e) == helper_call(name@, view_expr(arg)),
{
    proof {
        reveal_with_fuel(view_expr, 3);
    }
    let mut args: Vec<ExprOrSpread> = Vec::new();
    args.push(mk_plain(arg));
    let e = Expr::Call(
        crate::expr::CallExpr {
            span: Span::dummy(),
            callee: ExprOrSuper::Expr(Box::new(mk_ident_expr(String::from_str(name)))),
            args,
        },
    );
    proof {
        crate::views::lemma_view_args(e->Call_0.args@);
        assert(crate::views::view_args(e->Call_0.args@) =~= helper_call(
            name@,
            view_expr(*e->Call_0.args@[0].expr),
        )->Call_args);
    }
    e
}

fn is_arguments_exec(e: &Expr) -> (b: bool)
    ensures
        b == is_arguments(view_expr(*e)),
{
    match e {
        Expr::Ident(i) => i.sym == String::from_str("arguments"),
        _ => false,
    }
}

/// Build `_toConsumableArray(e)`, or the `arguments` copy
/// `Array.prototype.slice.call(arguments)`.
fn mk_spread_source(e: Expr) -> (r: Expr)
    ensures
        view_expr(r) == spread_source(view_expr(e)),
{
    proof {
        reveal_with_fuel(view_expr, 2);
    }
    if is_arguments_exec(&e) {
        let slice = mk_member(
            mk_member(mk_ident_expr(String::from_str("Array")), "prototype"),
            "slice",
        );
        let callee = mk_member(slice, "call");
        let mut args: Vec<ExprOrSpread> = Vec::new();
        let ghost ev = view_expr(e);
        args.push(mk_plain(e));
        let r = Expr::Call(
            crate::expr::CallExpr {
                span: Span::dummy(),
                callee: ExprOrSuper::Expr(Box::new(callee)),
                args,
            },
        );
        proof {
            crate::views::lemma_view_args(r->Call_0.args@);
            assert(crate::views::view_args(r->Call_0.args@) =~= seq![plain(ev)]);
        }
        r
    } else {
        mk_helper_call("_toConsumableArray", e)
    }
}

fn mk_void_zero() -> (r: Expr)
    ensures
        view_expr(r) == void_zero(),
{
    proof {
        reveal_with_fuel(view_expr, 3);
    }
    Expr::Unary(
        UnaryExpr {
            span: Span::dummy(),
            op: UnaryOp::Void,
            arg: Box::new(
                Expr::Lit(crate::lit::Lit::Num(Number { span: Span::dummy(), value: 0 })),
            ),
        },
    )
}

fn mk_array(elems: Vec<Option<ExprOrSpread>>) -> (r: Expr)
    ensures
        view_expr(r) == array_expr(view_elems(elems@)),
{
    Expr::Array(crate::expr::ArrayLit { span: Span::dummy(), elems })
}

#[verifier::loop_isolation(false)]
fn has_spread_elem_exec(elems: &Vec<Option<ExprOrSpread>>) -> (b: bool)
    ensures
        b == has_spread_elem(view_elems(elems@)),
{
    proof {
        lemma_view_elems(elems@);
    }
    let n = elems.len();
    let mut i: usize = 0;
    let mut found = false;
    while i < n
        invariant
            n == elems@.len(),
            0 <= i <= n,
            found == exists|j: int| 0 <= j < i && is_spread_elem(view_elems(elems@)[j]),
        decreases n - i,
    {
        match &elems[i] {
            Option::Some(a) => if a.spread {
                found = true;
            },
            Option::None => {},
        }
        proof {
            assert(view_elems(elems@)[i as int] == view_opt_eos(elems@[i as int]));
        }
        i = i + 1;
    }
    found
}

#[verifier::loop_isolation(false)]
fn has_spread_arg_exec(args: &Vec<ExprOrSpread>) -> (b: bool)
    ensures
        b == has_spread_arg(crate::views::view_args(args@)),
{
    proof {
        crate::views::lemma_view_args(args@);
    }
    let n = args.len();
    let mut i: usize = 0;
    let mut found = false;
    while i < n
        invariant
            n == args@.len(),
            0 <= i <= n,
            found == exists|j: int| 0 <= j < i && crate::views::view_args(args@)[j].spread,
        decreases n - i,
    {
        if args[i].spread {
            found = true;
        }
        proof {
            assert(crate::views::view_args(args@)[i as int] == crate::views::view_eos(
                args@[i as int],
            ));
        }
        i = i + 1;
    }
    found
}

#[verifier::loop_isolation(false)]
fn contains_name(names: &Vec<String>, cand: &String) -> (b: bool)
    ensures
        b == view_names(names@).contains(cand@),
{
    proof {
        lemma_view_names(names@);
    }
    let n = names.len();
    let mut i: usize = 0;
    let mut found = false;
    while i < n
        invariant
            n == names@.len(),
            0 <= i <= n,
            found == exists|j: int| 0 <= j < i && view_names(names@)[j] == cand@,
        decreases n - i,
    {
        if names[i] == *cand {
            found = true;
        }
        proof {
            assert(view_names(names@)[i as int] == names@[i as int]@);
        }
        i = i + 1;
    }
    proof {
        if found {
            let j = choose|j: int| 0 <= j < n && view_names(names@)[j] == cand@;
            assert(view_names(names@).contains(cand@));
        }
    }
    found
}

/// The fresh, scope-unique temporary name for a hint.
#[verifier::loop_isolation(false)]
fn fresh_exec(names: &Vec<String>, hint: &String) -> (r: String)
    ensures
        r@ == fresh_name(view_names(names@), hint@),
        !view_names(names@).contains(r@),
{
    let mut cand = String::from_str("_");
    cand.append(hint.as_str());
    proof {
        reveal_strlit("_");
        assert(cand@ =~= seq!['_'] + hint@);
    }
    while contains_name(names, &cand)
        invariant
            fresh_from(view_names(names@), cand@) == fresh_name(view_names(names@), hint@),
        decreases max_len(view_names(names@)) + 2 - cand@.len(),
    {
        proof {
            lemma_max_len(view_names(names@), cand@);
        }
        let ghost pre = cand@;
        cand.append("_");
        proof {
            reveal_strlit("_");
            assert(cand@ =~= pre.push('_'));
        }
    }
    proof {
        lemma_fresh_from_free(view_names(names@), cand@);
    }
    cand
}

/// The receiver hint: the receiver's own name, the name of its member,
/// or a generic fallback.
fn hint_exec(e: &Expr) -> (h: String)
    ensures
        h@ == hint_of(view_expr(*e)),
{
    proof {
        reveal_with_fuel(view_expr, 3);
    }
    match e {
        Expr::Ident(i) => i.sym.clone(),
        Expr::Member(m) => {
            if m.computed {
                String::from_str("ref")
            } else {
                match &*m.prop {
                    Expr::Ident(i) => i.sym.clone(),
                    _ => String::from_str("ref"),
                }
            }
        },
        _ => String::from_str("ref"),
    }
}

/// The view of an expression has the constructor of the expression.
pub proof fn lemma_view_variants(e: Expr)
    ensures
        (view_expr(e) matches ExprV::Array { .. }) <==> (e matches Expr::Array(_)),
        (view_expr(e) matches ExprV::Call { .. }) <==> (e matches Expr::Call(_)),
        (view_expr(e) matches ExprV::New { .. }) <==> (e matches Expr::New(_)),
        (view_expr(e) matches ExprV::Member { .. }) <==> (e matches Expr::Member(_)),
        (view_expr(e) matches ExprV::This { .. }) <==> (e matches Expr::This(_)),
{
    match e {
        Expr::This(_) => {},
        Expr::Ident(_) => {},
        Expr::Lit(_) => {},
        Expr::Array(_) => {},
        Expr::Unary(_) => {},
        Expr::Assign(_) => {},
        Expr::Member(_) => {},
        Expr::Call(_) => {},
        Expr::New(_) => {},
        Expr::TsTypeAssertion(_) => {},
        Expr::TsNonNull(_) => {},
        Expr::TsAs(_) => {},
    }
}

/// The executable mirror of one run.
pub(crate) enum Run {
    Plain(Vec<Option<ExprOrSpread>>),
    Spread(Box<Expr>),
}

pub(crate) open spec fn view_run(r: Run) -> RunV {
    match r {
        Run::Plain(v) => RunV::Plain(view_elems(v@)),
        Run::Spread(e) => RunV::Spread(view_expr(*e)),
    }
}

pub(crate) open spec fn view_runs(s: Seq<Run>) -> Seq<RunV>
    decreases s,
{
    if s.len() == 0 {
        Seq::empty()
    } else {
        seq![view_run(s[0])] + view_runs(s.drop_first())
    }
}

pub(crate) proof fn lemma_view_runs(s: Seq<Run>)
    ensures
        view_runs(s).len() == s.len(),
        forall|i: int| 0 <= i < s.len() ==> view_runs(s)[i] == view_run(s[i]),
    decreases s.len(),
{
    if s.len() > 0 {
        lemma_view_runs(s.drop_first());
    }
}

pub proof fn lemma_args_as_elems(s: Seq<EosV>)
    ensures
        args_as_elems(s).len() == s.len(),
        forall|i: int| 0 <= i < s.len() ==> args_as_elems(s)[i] == Option::Some(s[i]),
    decreases s.len(),
{
    if s.len() > 0 {
        lemma_args_as_elems(s.drop_first());
    }
}

pub proof fn lemma_runs_args(s: Seq<RunV>)
    ensures
        runs_args(s).len() == s.len(),
        forall|i: int| 0 <= i < s.len() ==> runs_args(s)[i] == plain(run_expr(s[i])),
    decreases s.len(),
{
    if s.len() > 0 {
        lemma_runs_args(s.drop_first());
    }
}

/// Split an element list into its maximal runs.
#[verifier::loop_isolation(false)]
fn partition_exec(elems: Vec<Option<ExprOrSpread>>) -> (rs: Vec<Run>)
    ensures
        view_runs(rs@) == partition(view_elems(elems@)),
{
    let ghost orig_e = elems@;
    let ghost orig = view_elems(orig_e);
    proof {
        lemma_view_elems(orig_e);
    }
    let mut elems = elems;
    let mut rs: Vec<Run> = Vec::new();
    while elems.len() > 0
        invariant
            elems@.len() <= orig_e.len(),
            orig.len() == orig_e.len(),
            elems@ =~= orig_e.subrange(0, elems@.len() as int),
            view_runs(rs@) == partition(orig.subrange(elems@.len() as int, orig.len() as int)),
        decreases elems@.len(),
    {
        let ghost k = elems@.len() as int;
        let ghost suffix = orig.subrange(k - 1, orig.len() as int);
        proof {
            lemma_view_elems(elems@);
            assert(suffix[0] == orig[k - 1]);
            assert(orig[k - 1] == view_opt_eos(orig_e[k - 1]));
            assert(suffix.drop_first() =~= orig.subrange(k, orig.len() as int));
        }
        let x = match elems.pop() {
            Option::Some(x) => x,
            Option::None => {
                proof {
                    assert(false);
                }
                Option::None
            },
        };
        proof {
            assert(x == orig_e[k - 1]);
        }
        let is_spread = match &x {
            Option::Some(a) => a.spread,
            Option::None => false,
        };
        if is_spread {
            let a = match x {
                Option::Some(a) => a,
                Option::None => {
                    proof {
                        assert(false);
                    }
                    ExprOrSpread { spread: true, expr: Box::new(mk_void_zero()) }
                },
            };
            let ghost pre_rs = rs@;
            rs.insert(0, Run::Spread(a.expr));
            proof {
                lemma_view_runs(rs@);
                lemma_view_runs(pre_rs);
                assert(view_runs(rs@) =~= seq![view_run(rs@[0])] + view_runs(pre_rs));
                assert(view_runs(rs@) == partition(suffix));
            }
        } else {
            let first_plain = if rs.len() > 0 {
                match &rs[0] {
                    Run::Plain(_) => true,
                    Run::Spread(_) => false,
                }
            } else {
                false
            };
            if first_plain {
                let r0 = rs.remove(0);
                let ghost pre_rs0 = rs@;
                match r0 {
                    Run::Plain(v) => {
                        let mut v = v;
                        let ghost pre_v = v@;
                        v.insert(0, x);
                        proof {
                            lemma_view_elems(v@);
                            lemma_view_elems(pre_v);
                            assert(view_elems(v@) =~= seq![view_opt_eos(orig_e[k - 1])]
                                + view_elems(pre_v));
                        }
                        let ghost pre_rs = rs@;
                        rs.insert(0, Run::Plain(v));
                        proof {
                            lemma_view_runs(rs@);
                            lemma_view_runs(pre_rs);
                            assert(view_runs(rs@) =~= seq![view_run(rs@[0])] + view_runs(pre_rs));
                            assert(view_runs(pre_rs) =~= view_runs(pre_rs0));
                            assert(view_runs(rs@) == partition(suffix));
                        }
                    },
                    Run::Spread(b) => {
                        proof {
                            assert(false);
                        }
                        rs.insert(0, Run::Spread(b));
                    },
                }
            } else {
                let mut v: Vec<Option<ExprOrSpread>> = Vec::new();
                v.push(x);
                proof {
                    lemma_view_elems(v@);
                    assert(view_elems(v@) =~= seq![view_opt_eos(orig_e[k - 1])]);
                }
                let ghost pre_rs = rs@;
                rs.insert(0, Run::Plain(v));
                proof {
                    lemma_view_runs(rs@);
                    lemma_view_runs(pre_rs);
                    assert(view_runs(rs@) =~= seq![view_run(rs@[0])] + view_runs(pre_rs));
                    assert(view_runs(rs@) == partition(suffix));
                }
            }
        }
        proof {
            assert(elems@ =~= orig_e.subrange(0, elems@.len() as int));
        }
    }
    proof {
        assert(orig.subrange(0, orig.len() as int) =~= orig);
    }
    rs
}

fn mk_run_expr(r: Run) -> (e: Expr)
    ensures
        view_expr(e) == run_expr(view_run(r)),
{
    match r {
        Run::Plain(v) => mk_array(v),
        Run::Spread(b) => mk_spread_source(*b),
    }
}

#[verifier::loop_isolation(false)]
fn mk_runs_args(rs: Vec<Run>) -> (out: Vec<ExprOrSpread>)
    ensures
        crate::views::view_args(out@) == runs_args(view_runs(rs@)),
{
    let ghost orig = view_runs(rs@);
    proof {
        lemma_view_runs(rs@);
        lemma_runs_args(orig);
    }
    let mut rs = rs;
    let mut out: Vec<ExprOrSpread> = Vec::new();
    while rs.len() > 0
        invariant
            runs_args(orig) =~= crate::views::view_args(out@) + runs_args(view_runs(rs@)),
        decreases rs@.len(),
    {
        let ghost pre = rs@;
        let first = rs.remove(0);
        proof {
            lemma_view_runs(pre);
            lemma_view_runs(rs@);
            assert(view_runs(rs@) =~= view_runs(pre).drop_first());
            assert(first == pre[0]);
        }
        let e = mk_run_expr(first);
        let ghost pre_out = out@;
        out.push(mk_plain(e));
        proof {
            crate::views::lemma_view_args(out@);
            crate::views::lemma_view_args(pre_out);
            assert(crate::views::view_args(out@) =~= crate::views::view_args(pre_out).push(
                plain(run_expr(view_run(first))),
            ));
            assert(runs_args(view_runs(pre)) =~= seq![plain(run_expr(view_runs(pre)[0]))]
                + runs_args(view_runs(rs@)));
            assert(runs_args(orig) =~= crate::views::view_args(out@) + runs_args(view_runs(rs@)));
        }
    }
    proof {
        assert(runs_args(orig) =~= crate::views::view_args(out@));
    }
    out
}

/// Build the `prefix.concat(run, ...)` expression from the runs.
fn mk_concat(span: Span, rs: Vec<Run>) -> (r: Expr)
    requires
        view_runs(rs@).len() > 0,
    ensures
        view_expr(r) == concat_expr(span, view_runs(rs@)),
{
    let ghost orig = view_runs(rs@);
    proof {
        lemma_view_runs(rs@);
    }
    let mut rs = rs;
    let first_plain = match &rs[0] {
        Run::Plain(_) => true,
        Run::Spread(_) => false,
    };
    let prefix = if first_plain {
        let r0 = rs.remove(0);
        proof {
            lemma_view_runs(rs@);
            assert(view_runs(rs@) =~= orig.drop_first());
        }
        match r0 {
            Run::Plain(v) => mk_array(v),
            Run::Spread(b) => {
                proof {
                    assert(false);
                }
                mk_spread_source(*b)
            },
        }
    } else {
        mk_array(Vec::new())
    };
    let args = mk_runs_args(rs);
    let callee = mk_member(prefix, "concat");
    let r = Expr::Call(
        crate::expr::CallExpr { span, callee: ExprOrSuper::Expr(Box::new(callee)), args },
    );
    proof {
        reveal_with_fuel(view_expr, 2);
        if orig[0] matches RunV::Plain(p) {
            assert(view_elems(Seq::<Option<ExprOrSpread>>::empty()) =~= Seq::<
                Option<EosV>,
            >::empty());
        } else {
            assert(view_elems(Seq::<Option<ExprOrSpread>>::empty()) =~= Seq::<
                Option<EosV>,
            >::empty());
        }
    }
    r
}

fn args_to_elems(args: Vec<ExprOrSpread>) -> (out: Vec<Option<ExprOrSpread>>)
    ensures
        view_elems(out@) == args_as_elems(crate::views::view_args(args@)),
{
    let ghost orig = crate::views::view_args(args@);
    proof {
        crate::views::lemma_view_args(args@);
        lemma_args_as_elems(orig);
    }
    let mut args = args;
    let mut out: Vec<Option<ExprOrSpread>> = Vec::new();
    #[verifier::loop_isolation(false)]
    while args.len() > 0
        invariant
            args_as_elems(orig) =~= view_elems(out@) + args_as_elems(
                crate::views::view_args(args@),
            ),
        decreases args@.len(),
    {
        let ghost pre = args@;
        let first = args.remove(0);
        proof {
            crate::views::lemma_view_args(pre);
            crate::views::lemma_view_args(args@);
            assert(crate::views::view_args(args@) =~= crate::views::view_args(pre).drop_first());
        }
        let ghost pre_out = out@;
        out.push(Option::Some(first));
        proof {
            lemma_view_elems(out@);
            lemma_view_elems(pre_out);
            assert(view_elems(out@) =~= view_elems(pre_out).push(
                Option::Some(crate::views::view_eos(first)),
            ));
            assert(args_as_elems(crate::views::view_args(pre)) =~= seq![
                Option::Some(crate::views::view_args(pre)[0]),
            ] + args_as_elems(crate::views::view_args(args@)));
            assert(args_as_elems(orig) =~= view_elems(out@) + args_as_elems(
                crate::views::view_args(args@),
            ));
        }
    }
    proof {
        assert(args_as_elems(orig) =~= view_elems(out@));
    }
    out
}

pub proof fn lemma_partition_nonempty(s: Seq<Option<EosV>>)
    requires
        s.len() > 0,
    ensures
        partition(s).len() > 0,
{
}

/// Lower an element list (array or constructor position).
fn expand_elems_exec(span: Span, elems: Vec<Option<ExprOrSpread>>) -> (r: Expr)
    requires
        has_spread_elem(view_elems(elems@)),
    ensures
        view_expr(r) == expand_elems(span, view_elems(elems@)),
{
    let ghost ev = view_elems(elems@);
    proof {
        lemma_view_elems(elems@);
    }
    let sole = elems.len() == 1 && (match &elems[0] {
        Option::Some(a) => a.spread,
        Option::None => false,
    });
    if sole {
        let mut elems = elems;
        let e = match elems.pop() {
            Option::Some(Option::Some(a)) => *a.expr,
            _ => {
                proof {
                    assert(false);
                }
                mk_void_zero()
            },
        };
        if is_arguments_exec(&e) {
            mk_spread_source(e)
        } else {
            let prefix = mk_array(Vec::new());
            let callee = mk_member(prefix, "concat");
            let mut args: Vec<ExprOrSpread> = Vec::new();
            let ghost e_v = view_expr(e);
            args.push(mk_plain(e));
            let r = Expr::Call(
                crate::expr::CallExpr { span, callee: ExprOrSuper::Expr(Box::new(callee)), args },
            );
            proof {
                reveal_with_fuel(view_expr, 2);
                crate::views::lemma_view_args(r->Call_0.args@);
                assert(crate::views::view_args(r->Call_0.args@) =~= seq![plain(e_v)]);
                assert(view_elems(Seq::<Option<ExprOrSpread>>::empty()) =~= Seq::<
                    Option<EosV>,
                >::empty());
            }
            r
        }
    } else {
        proof {
            if ev.len() > 0 {
                lemma_partition_nonempty(ev);
            }
        }
        let rs = partition_exec(elems);
        mk_concat(span, rs)
    }
}

/// Lower a call argument list to the expression handed to `apply`.
fn expand_args_exec(span: Span, args: Vec<ExprOrSpread>) -> (r: Expr)
    requires
        has_spread_arg(crate::views::view_args(args@)),
    ensures
        view_expr(r) == expand_args(span, crate::views::view_args(args@)),
{
    let ghost av = crate::views::view_args(args@);
    proof {
        crate::views::lemma_view_args(args@);
    }
    let sole = args.len() == 1 && args[0].spread;
    if sole {
        let mut args = args;
        let e = match args.pop() {
            Option::Some(a) => *a.expr,
            Option::None => {
                proof {
                    assert(false);
                }
                mk_void_zero()
            },
        };
        e
    } else {
        proof {
            lemma_args_as_elems(av);
            lemma_partition_nonempty(args_as_elems(av));
        }
        let elems = args_to_elems(args);
        let rs = partition_exec(elems);
        mk_concat(span, rs)
    }
}

fn mk_apply(span: Span, callee: Expr, this_arg: Expr, args_expr: Expr) -> (r: Expr)
    ensures
        view_expr(r) == apply_call(span, view_expr(callee), view_expr(this_arg), view_expr(
            args_expr,
        )),
{
    let ghost cv = view_expr(callee);
    let ghost tv = view_expr(this_arg);
    let ghost av = view_expr(args_expr);
    let ap = mk_member(callee, "apply");
    let mut args: Vec<ExprOrSpread> = Vec::new();
    args.push(mk_plain(this_arg));
    args.push(mk_plain(args_expr));
    let r = Expr::Call(crate::expr::CallExpr { span, callee: ExprOrSuper::Expr(Box::new(ap)), args });
    proof {
        reveal_with_fuel(view_expr, 2);
        crate::views::lemma_view_args(r->Call_0.args@);
        assert(crate::views::view_args(r->Call_0.args@) =~= seq![plain(tv), plain(av)]);
    }
    r
}

/// Rewrite one spread call, hoisting the receiver of a member callee
/// into a fresh temporary of the enclosing scope.
fn rewrite_call_exec(names: &mut Vec<String>, span: Span, callee: Expr, args: Vec<ExprOrSpread>) -> (r:
    Expr)
    requires
        has_spread_arg(crate::views::view_args(args@)),
    ensures
        (view_names(final(names)@), view_expr(r)) == rewrite_call(
            view_names(old(names)@),
            span,
            view_expr(callee),
            crate::views::view_args(args@),
        ),
{
    let ghost cv = view_expr(callee);
    let args_expr = expand_args_exec(span, args);
    proof {
        lemma_view_variants(callee);
    }
    match callee {
        Expr::Member(m) => {
            proof {
                assert(cv == ExprV::Member {
                    span: m.span,
                    obj: crate::views::view_callee(m.obj),
                    prop: Box::new(view_expr(*m.prop)),
                    computed: m.computed,
                });
            }
            let ghost pv = view_expr(*m.prop);
            let crate::expr::MemberExpr { span: mspan, obj, prop, computed } = m;
            match obj {
                ExprOrSuper::Super(sp) => {
                    let callee2 = Expr::Member(
                        crate::expr::MemberExpr {
                            span: mspan,
                            obj: ExprOrSuper::Super(sp),
                            prop,
                            computed,
                        },
                    );
                    proof {
                        assert(view_expr(callee2) == cv);
                    }
                    mk_apply(
                        span,
                        callee2,
                        Expr::This(crate::expr::ThisExpr { span: Span::dummy() }),
                        args_expr,
                    )
                },
                ExprOrSuper::Expr(o) => {
                    let ghost ov = view_expr(*o);
                    proof {
                        lemma_view_variants(*o);
                    }
                    let is_this = match &*o {
                        Expr::This(_) => true,
                        _ => false,
                    };
                    if is_this {
                        let t = match *o {
                            Expr::This(t) => t,
                            _ => {
                                proof {
                                    assert(false);
                                }
                                crate::expr::ThisExpr { span: Span::dummy() }
                            },
                        };
                        let callee2 = Expr::Member(
                            crate::expr::MemberExpr {
                                span: mspan,
                                obj: ExprOrSuper::Expr(Box::new(Expr::This(t))),
                                prop,
                                computed,
                            },
                        );
                        proof {
                            assert(view_expr(callee2) == cv);
                        }
                        mk_apply(span, callee2, Expr::This(t), args_expr)
                    } else {
                        let hint = hint_exec(&o);
                        let t = fresh_exec(names, &hint);
                        let ghost tv = t@;
                        let ghost pre_names = names@;
                        names.push(t.clone());
                        proof {
                            crate::views::lemma_view_names_push(pre_names, t);
                        }
                        let receiver = Expr::Assign(
                            crate::expr::AssignExpr {
                                span: Span::dummy(),
                                op: AssignOp::Assign,
                                left: Box::new(
                                    crate::pat::Pat::Ident(
                                        Ident { span: Span::dummy(), sym: t.clone() },
                                    ),
                                ),
                                right: o,
                            },
                        );
                        let callee2 = Expr::Member(
                            crate::expr::MemberExpr {
                                span: mspan,
                                obj: ExprOrSuper::Expr(Box::new(receiver)),
                                prop,
                                computed,
                            },
                        );
                        proof {
                            reveal_with_fuel(view_expr, 2);
                            reveal_with_fuel(crate::views::view_pat, 2);
                            assert(view_expr(receiver) == ExprV::Assign {
                                span: dummy_span(),
                                op: AssignOp::Assign,
                                left: Box::new(
                                    PatV::Ident(IdentV { span: dummy_span(), sym: tv }),
                                ),
                                right: Box::new(ov),
                            });
                            assert(view_expr(callee2) == ExprV::Member {
                                span: mspan,
                                obj: CalleeV::Expr(Box::new(view_expr(receiver))),
                                prop: Box::new(pv),
                                computed,
                            });
                        }
                        let r = mk_apply(span, callee2, mk_ident_expr(t), args_expr);
                        r
                    }
                },
            }
        },
        other => mk_apply(span, other, mk_void_zero(), args_expr),
    }
}

/// The per-expression hook of the spread pass, on the executable tree.
#[verifier::rlimit(30)]
pub(crate) fn spread_hook(names: &mut Vec<String>, e: Expr) -> (r: Expr)
    ensures
        (view_names(final(names)@), view_expr(r)) == hook_expr(
            view_names(old(names)@),
            view_expr(e),
        ),
{
    let ghost ev = view_expr(e);
    proof {
        lemma_view_variants(e);
    }
    match e {
        Expr::Array(a) => {
            proof {
                assert(ev == ExprV::Array { span: a.span, elems: view_elems(a.elems@) });
            }
            if has_spread_elem_exec(&a.elems) {
                expand_elems_exec(a.span, a.elems)
            } else {
                Expr::Array(a)
            }
        },
        Expr::Call(c) => {
            proof {
                assert(ev == ExprV::Call {
                    span: c.span,
                    callee: crate::views::view_callee(c.callee),
                    args: crate::views::view_args(c.args@),
                });
            }
            if has_spread_arg_exec(&c.args) {
                let crate::expr::CallExpr { span, callee, args } = c;
                match callee {
                    ExprOrSuper::Expr(ce) => rewrite_call_exec(names, span, *ce, args),
                    ExprOrSuper::Super(sp) => {
                        let r = Expr::Call(
                            crate::expr::CallExpr { span, callee: ExprOrSuper::Super(sp), args },
                        );
                        proof {
                            assert(view_expr(r) == ev);
                        }
                        r
                    },
                }
            } else {
                Expr::Call(c)
            }
        },
        Expr::New(n) => {
            proof {
                assert(ev == ExprV::New {
                    span: n.span,
                    callee: Box::new(view_expr(*n.callee)),
                    args: crate::views::view_args(n.args@),
                });
            }
            if has_spread_arg_exec(&n.args) {
                let crate::expr::NewExpr { span, callee, args } = n;
                let ghost av = crate::views::view_args(args@);
                proof {
                    lemma_args_as_elems(av);
                    crate::views::lemma_view_args(args@);
                    let i = choose|i: int| 0 <= i < av.len() && av[i].spread;
                    assert(is_spread_elem(args_as_elems(av)[i]));
                }
                let elems = args_to_elems(args);
                let packed = expand_elems_exec(Span::dummy(), elems);
                let ghost pv = view_expr(packed);
                let ctor = mk_ident_expr(String::from_str("_construct"));
                let mut cargs: Vec<ExprOrSpread> = Vec::new();
                let ghost calleev = view_expr(*callee);
                cargs.push(mk_plain(*callee));
                cargs.push(mk_plain(packed));
                let r = Expr::Call(
                    crate::expr::CallExpr {
                        span,
                        callee: ExprOrSuper::Expr(Box::new(ctor)),
                        args: cargs,
                    },
                );
                proof {
                    reveal_with_fuel(view_expr, 2);
                    crate::views::lemma_view_args(r->Call_0.args@);
                    assert(crate::views::view_args(r->Call_0.args@) =~= seq![
                        plain(calleev),
                        plain(pv),
                    ]);
                }
                r
            } else {
                Expr::New(n)
            }
        },
        other => other,
    }
}

} // verus!
