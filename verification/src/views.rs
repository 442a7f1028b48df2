//! Mathematical views of the tree.
//!
//! Every contract of the rewrite framework and of the serialization
//! contract speaks about these spec-level mirrors rather than about the
//! executable types: sequences stand for vectors, character sequences
//! stand for strings. TypeScript type-annotation payloads are carried in
//! the views as opaque values, since no pass rewrites them.
use crate::expr::AssignOp;
use crate::expr::Expr;
use crate::expr::ExprOrSpread;
use crate::expr::ExprOrSuper;
use crate::expr::UnaryOp;
use crate::ident::Ident;
use crate::lit::Bool;
use crate::lit::Lit;
use crate::lit::Number;
use crate::lit::Str;
use crate::module::Module;
use crate::module::ModuleItem;
use crate::pat::Pat;
use crate::span::Span;
use crate::stmt::BlockStmt;
use crate::stmt::Decl;
use crate::stmt::Function;
use crate::stmt::Stmt;
use crate::stmt::VarDecl;
use crate::stmt::VarDeclKind;
use crate::stmt::VarDeclarator;
use crate::typescript::TsEntityName;
use crate::typescript::TsEnumDecl;
use crate::typescript::TsEnumMemberId;
use crate::typescript::TsInterfaceDecl;
use crate::typescript::TsLit;
use crate::typescript::TsModuleDecl;
use crate::typescript::TsModuleName;
use crate::typescript::TsType;
use crate::typescript::TsTypeAliasDecl;
use vstd::prelude::*;

verus! {

pub struct IdentV {
    pub span: Span,
    pub sym: Seq<char>,
}

pub struct StrV {
    pub span: Span,
    pub value: Seq<char>,
}

pub enum LitV {
    Str(StrV),
    Bool(Bool),
    Num(Number),
}

/// View of one argument/element position.
pub struct EosV {
    pub spread: bool,
    pub expr: ExprV,
}

/// View of a callee or member object.
pub enum CalleeV {
    Super(Span),
    Expr(Box<ExprV>),
}

pub enum ExprV {
    This { span: Span },
    Ident(IdentV),
    Lit(LitV),
    Array { span: Span, elems: Seq<Option<EosV>> },
    Unary { span: Span, op: UnaryOp, arg: Box<ExprV> },
    Assign { span: Span, op: AssignOp, left: Box<PatV>, right: Box<ExprV> },
    Member { span: Span, obj: CalleeV, prop: Box<ExprV>, computed: bool },
    Call { span: Span, callee: CalleeV, args: Seq<EosV> },
    New { span: Span, callee: Box<ExprV>, args: Seq<EosV> },
    TsTypeAssertion { span: Span, expr: Box<ExprV>, type_ann: TsType },
    TsNonNull { span: Span, expr: Box<ExprV> },
    TsAs { span: Span, expr: Box<ExprV>, type_ann: TsType },
}

pub enum PatV {
    Ident(IdentV),
    Array { span: Span, elems: Seq<Option<PatV>> },
    Rest { span: Span, arg: Box<PatV> },
    Object { span: Span, props: Seq<PatV> },
    Assign { span: Span, left: Box<PatV>, right: Box<ExprV> },
}

pub enum StmtV {
    Expr { span: Span, expr: ExprV },
    Block(BlockV),
    Return { span: Span, arg: Option<ExprV> },
    Decl(DeclV),
}

pub struct BlockV {
    pub span: Span,
    pub stmts: Seq<StmtV>,
}

pub enum DeclV {
    Var(VarDeclV),
    Fn { ident: IdentV, function: FunctionV },
    TsInterface(TsInterfaceDecl),
    TsTypeAlias(TsTypeAliasDecl),
    TsEnum(TsEnumDecl),
    TsModule(TsModuleDecl),
}

pub struct VarDeclV {
    pub span: Span,
    pub kind: VarDeclKind,
    pub decls: Seq<VarDeclaratorV>,
}

pub struct VarDeclaratorV {
    pub span: Span,
    pub name: PatV,
    pub init: Option<ExprV>,
}

pub struct FunctionV {
    pub span: Span,
    pub params: Seq<PatV>,
    pub body: BlockV,
}

pub struct ModuleV {
    pub span: Span,
    pub body: Seq<StmtV>,
}

pub open spec fn view_ident(i: Ident) -> IdentV {
    IdentV { span: i.span, sym: i.sym@ }
}

pub open spec fn view_str(s: Str) -> StrV {
    StrV { span: s.span, value: s.value@ }
}

pub open spec fn view_lit(l: Lit) -> LitV {
    match l {
        Lit::Str(s) => LitV::Str(view_str(s)),
        Lit::Bool(b) => LitV::Bool(b),
        Lit::Num(n) => LitV::Num(n),
    }
}

pub open spec fn view_expr(e: Expr) -> ExprV
    decreases e,
{
    match e {
        Expr::This(t) => ExprV::This { span: t.span },
        Expr::Ident(i) => ExprV::Ident(view_ident(i)),
        Expr::Lit(l) => ExprV::Lit(view_lit(l)),
        Expr::Array(a) => ExprV::Array { span: a.span, elems: view_elems(a.elems@) },
        Expr::Unary(u) => ExprV::Unary {
            span: u.span,
            op: u.op,
            arg: Box::new(view_expr(*u.arg)),
        },
        Expr::Assign(a) => ExprV::Assign {
            span: a.span,
            op: a.op,
            left: Box::new(view_pat(*a.left)),
            right: Box::new(view_expr(*a.right)),
        },
        Expr::Member(m) => ExprV::Member {
            span: m.span,
            obj: view_callee(m.obj),
            prop: Box::new(view_expr(*m.prop)),
            computed: m.computed,
        },
        Expr::Call(c) => ExprV::Call {
            span: c.span,
            callee: view_callee(c.callee),
            args: view_args(c.args@),
        },
        Expr::New(n) => ExprV::New {
            span: n.span,
            callee: Box::new(view_expr(*n.callee)),
            args: view_args(n.args@),
        },
        Expr::TsTypeAssertion(t) => ExprV::TsTypeAssertion {
            span: t.span,
            expr: Box::new(view_expr(*t.expr)),
            type_ann: *t.type_ann,
        },
        Expr::TsNonNull(t) => ExprV::TsNonNull { span: t.span, expr: Box::new(view_expr(*t.expr)) },
        Expr::TsAs(t) => ExprV::TsAs {
            span: t.span,
            expr: Box::new(view_expr(*t.expr)),
            type_ann: *t.type_ann,
        },
    }
}

pub open spec fn view_callee(c: ExprOrSuper) -> CalleeV
    decreases c,
{
    match c {
        ExprOrSuper::Super(sp) => CalleeV::Super(sp),
        ExprOrSuper::Expr(e) => CalleeV::Expr(Box::new(view_expr(*e))),
    }
}

pub open spec fn view_eos(a: ExprOrSpread) -> EosV
    decreases a,
{
    EosV { spread: a.spread, expr: view_expr(*a.expr) }
}

pub open spec fn view_opt_eos(o: Option<ExprOrSpread>) -> Option<EosV>
    decreases o,
{
    match o {
        Option::None => Option::None,
        Option::Some(a) => Option::Some(view_eos(a)),
    }
}

pub open spec fn view_elems(s: Seq<Option<ExprOrSpread>>) -> Seq<Option<EosV>>
    decreases s,
{
    if s.len() == 0 {
        Seq::empty()
    } else {
        seq![view_opt_eos(s[0])] + view_elems(s.drop_first())
    }
}

pub open spec fn view_args(s: Seq<ExprOrSpread>) -> Seq<EosV>
    decreases s,
{
    if s.len() == 0 {
        Seq::empty()
    } else {
        seq![view_eos(s[0])] + view_args(s.drop_first())
    }
}

pub open spec fn view_pat(p: Pat) -> PatV
    decreases p,
{
    match p {
        Pat::Ident(i) => PatV::Ident(view_ident(i)),
        Pat::Array(a) => PatV::Array { span: a.span, elems: view_opt_pats(a.elems@) },
        Pat::Rest(r) => PatV::Rest { span: r.span, arg: Box::new(view_pat(*r.arg)) },
        Pat::Object(o) => PatV::Object { span: o.span, props: view_pats(o.props@) },
        Pat::Assign(a) => PatV::Assign {
            span: a.span,
            left: Box::new(view_pat(*a.left)),
            right: Box::new(view_expr(*a.right)),
        },
    }
}

pub open spec fn view_opt_pat(o: Option<Pat>) -> Option<PatV>
    decreases o,
{
    match o {
        Option::None => Option::None,
        Option::Some(p) => Option::Some(view_pat(p)),
    }
}

pub open spec fn view_pats(s: Seq<Pat>) -> Seq<PatV>
    decreases s,
{
    if s.len() == 0 {
        Seq::empty()
    } else {
        seq![view_pat(s[0])] + view_pats(s.drop_first())
    }
}

pub open spec fn view_opt_pats(s: Seq<Option<Pat>>) -> Seq<Option<PatV>>
    decreases s,
{
    if s.len() == 0 {
        Seq::empty()
    } else {
        seq![view_opt_pat(s[0])] + view_opt_pats(s.drop_first())
    }
}

pub open spec fn view_stmt(s: Stmt) -> StmtV
    decreases s,
{
    match s {
        Stmt::Expr(e) => StmtV::Expr { span: e.span, expr: view_expr(*e.expr) },
        Stmt::Block(b) => StmtV::Block(view_block(b)),
        Stmt::Return(r) => StmtV::Return {
            span: r.span,
            arg: match r.arg {
                Option::None => Option::None,
                Option::Some(e) => Option::Some(view_expr(*e)),
            },
        },
        Stmt::Decl(d) => StmtV::Decl(view_decl(d)),
    }
}

pub open spec fn view_block(b: BlockStmt) -> BlockV
    decreases b,
{
    BlockV { span: b.span, stmts: view_stmts(b.stmts@) }
}

pub open spec fn view_stmts(s: Seq<Stmt>) -> Seq<StmtV>
    decreases s,
{
    if s.len() == 0 {
        Seq::empty()
    } else {
        seq![view_stmt(s[0])] + view_stmts(s.drop_first())
    }
}

pub open spec fn view_decl(d: Decl) -> DeclV
    decreases d,
{
    match d {
        Decl::Var(v) => DeclV::Var(view_var_decl(v)),
        Decl::Fn(f) => DeclV::Fn {
            ident: view_ident(f.ident),
            function: view_function(f.function),
        },
        Decl::TsInterface(t) => DeclV::TsInterface(t),
        Decl::TsTypeAlias(t) => DeclV::TsTypeAlias(t),
        Decl::TsEnum(t) => DeclV::TsEnum(t),
        Decl::TsModule(t) => DeclV::TsModule(t),
    }
}

pub open spec fn view_var_decl(v: VarDecl) -> VarDeclV
    decreases v,
{
    VarDeclV { span: v.span, kind: v.kind, decls: view_declarators(v.decls@) }
}

pub open spec fn view_declarator(d: VarDeclarator) -> VarDeclaratorV
    decreases d,
{
    VarDeclaratorV {
        span: d.span,
        name: view_pat(d.name),
        init: match d.init {
            Option::None => Option::None,
            Option::Some(e) => Option::Some(view_expr(*e)),
        },
    }
}

pub open spec fn view_declarators(s: Seq<VarDeclarator>) -> Seq<VarDeclaratorV>
    decreases s,
{
    if s.len() == 0 {
        Seq::empty()
    } else {
        seq![view_declarator(s[0])] + view_declarators(s.drop_first())
    }
}

pub open spec fn view_function(f: Function) -> FunctionV
    decreases f,
{
    FunctionV { span: f.span, params: view_pats(f.params@), body: view_block(f.body) }
}

pub open spec fn view_item(it: ModuleItem) -> StmtV
    decreases it,
{
    match it {
        ModuleItem::Stmt(s) => view_stmt(s),
    }
}

pub open spec fn view_items(s: Seq<ModuleItem>) -> Seq<StmtV>
    decreases s,
{
    if s.len() == 0 {
        Seq::empty()
    } else {
        seq![view_item(s[0])] + view_items(s.drop_first())
    }
}

pub open spec fn view_module(m: Module) -> ModuleV
    decreases m,
{
    ModuleV { span: m.span, body: view_items(m.body@) }
}

/// View of a TypeScript literal type's literal.
pub enum TsLitV {
    Num(Number),
    Str(StrV),
    Bool(Bool),
}

pub open spec fn view_ts_lit(l: TsLit) -> TsLitV {
    match l {
        TsLit::Number(n) => TsLitV::Num(n),
        TsLit::Str(s) => TsLitV::Str(view_str(s)),
        TsLit::Bool(b) => TsLitV::Bool(b),
    }
}

/// View of an entity name: an identifier or a left-dotted chain.
pub enum TsEntityNameV {
    Ident(IdentV),
    Qualified { left: Box<TsEntityNameV>, right: IdentV },
}

pub open spec fn view_entity_name(n: TsEntityName) -> TsEntityNameV
    decreases n,
{
    match n {
        TsEntityName::Ident(i) => TsEntityNameV::Ident(view_ident(i)),
        TsEntityName::TsQualifiedName(q) => TsEntityNameV::Qualified {
            left: Box::new(view_entity_name(q.left)),
            right: view_ident(q.right),
        },
    }
}

pub enum TsEnumMemberIdV {
    Ident(IdentV),
    Str(StrV),
}

pub open spec fn view_enum_member_id(i: TsEnumMemberId) -> TsEnumMemberIdV {
    match i {
        TsEnumMemberId::Ident(x) => TsEnumMemberIdV::Ident(view_ident(x)),
        TsEnumMemberId::Str(s) => TsEnumMemberIdV::Str(view_str(s)),
    }
}

pub enum TsModuleNameV {
    Ident(IdentV),
    Str(StrV),
}

pub open spec fn view_module_name(i: TsModuleName) -> TsModuleNameV {
    match i {
        TsModuleName::Ident(x) => TsModuleNameV::Ident(view_ident(x)),
        TsModuleName::Str(s) => TsModuleNameV::Str(view_str(s)),
    }
}

/// View of a list of scope names.
pub open spec fn view_names(s: Seq<String>) -> Seq<Seq<char>>
    decreases s,
{
    if s.len() == 0 {
        Seq::empty()
    } else {
        seq![s[0]@] + view_names(s.drop_first())
    }
}

pub proof fn lemma_view_names(s: Seq<String>)
    ensures
        view_names(s).len() == s.len(),
        forall|i: int| 0 <= i < s.len() ==> view_names(s)[i] == s[i]@,
    decreases s.len(),
{
    if s.len() > 0 {
        lemma_view_names(s.drop_first());
    }
}

/// Appending one name extends the view by its characters.
pub proof fn lemma_view_names_push(s: Seq<String>, x: String)
    ensures
        view_names(s.push(x)) =~= view_names(s).push(x@),
    decreases s.len(),
{
    lemma_view_names(s.push(x));
    lemma_view_names(s);
    assert forall|i: int| 0 <= i < s.len() + 1 implies view_names(s.push(x))[i] == view_names(
        s,
    ).push(x@)[i] by {
        if i < s.len() {
            assert(s.push(x)[i] == s[i]);
        } else {
            assert(s.push(x)[i] == x);
        }
    }
}

pub proof fn lemma_view_elems(s: Seq<Option<ExprOrSpread>>)
    ensures
        view_elems(s).len() == s.len(),
        forall|i: int| 0 <= i < s.len() ==> view_elems(s)[i] == view_opt_eos(s[i]),
    decreases s.len(),
{
    if s.len() > 0 {
        lemma_view_elems(s.drop_first());
    }
}

pub proof fn lemma_view_args(s: Seq<ExprOrSpread>)
    ensures
        view_args(s).len() == s.len(),
        forall|i: int| 0 <= i < s.len() ==> view_args(s)[i] == view_eos(s[i]),
    decreases s.len(),
{
    if s.len() > 0 {
        lemma_view_args(s.drop_first());
    }
}

pub proof fn lemma_view_pats(s: Seq<Pat>)
    ensures
        view_pats(s).len() == s.len(),
        forall|i: int| 0 <= i < s.len() ==> view_pats(s)[i] == view_pat(s[i]),
    decreases s.len(),
{
    if s.len() > 0 {
        lemma_view_pats(s.drop_first());
    }
}

pub proof fn lemma_view_opt_pats(s: Seq<Option<Pat>>)
    ensures
        view_opt_pats(s).len() == s.len(),
        forall|i: int| 0 <= i < s.len() ==> view_opt_pats(s)[i] == view_opt_pat(s[i]),
    decreases s.len(),
{
    if s.len() > 0 {
        lemma_view_opt_pats(s.drop_first());
    }
}

pub proof fn lemma_view_stmts(s: Seq<Stmt>)
    ensures
        view_stmts(s).len() == s.len(),
        forall|i: int| 0 <= i < s.len() ==> view_stmts(s)[i] == view_stmt(s[i]),
    decreases s.len(),
{
    if s.len() > 0 {
        lemma_view_stmts(s.drop_first());
    }
}

pub proof fn lemma_view_declarators(s: Seq<VarDeclarator>)
    ensures
        view_declarators(s).len() == s.len(),
        forall|i: int| 0 <= i < s.len() ==> view_declarators(s)[i] == view_declarator(s[i]),
    decreases s.len(),
{
    if s.len() > 0 {
        lemma_view_declarators(s.drop_first());
    }
}

pub proof fn lemma_view_items(s: Seq<ModuleItem>)
    ensures
        view_items(s).len() == s.len(),
        forall|i: int| 0 <= i < s.len() ==> view_items(s)[i] == view_item(s[i]),
    decreases s.len(),
{
    if s.len() > 0 {
        lemma_view_items(s.drop_first());
    }
}

} // verus!
