//! Scenario tests for the spread-lowering pass: each builds a module
//! tree, runs the pass, and compares against the expected tree.
use ecma_tree::expr::ArrayLit;
use ecma_tree::expr::AssignExpr;
use ecma_tree::expr::AssignOp;
use ecma_tree::expr::CallExpr;
use ecma_tree::expr::Expr;
use ecma_tree::expr::ExprOrSpread;
use ecma_tree::expr::ExprOrSuper;
use ecma_tree::expr::MemberExpr;
use ecma_tree::expr::NewExpr;
use ecma_tree::expr::UnaryExpr;
use ecma_tree::expr::UnaryOp;
use ecma_tree::fold::apply_pass;
use ecma_tree::fold::apply_pipeline;
use ecma_tree::fold::Pass;
use ecma_tree::ident::Ident;
use ecma_tree::lit::Lit;
use ecma_tree::lit::Number;
use ecma_tree::lit::Str;
use ecma_tree::module::Module;
use ecma_tree::module::ModuleItem;
use ecma_tree::pat::Pat;
use ecma_tree::span::Span;
use ecma_tree::stmt::BlockStmt;
use ecma_tree::stmt::Decl;
use ecma_tree::stmt::ExprStmt;
use ecma_tree::stmt::FnDecl;
use ecma_tree::stmt::Function;
use ecma_tree::stmt::ReturnStmt;
use ecma_tree::stmt::Stmt;
use ecma_tree::stmt::VarDecl;
use ecma_tree::stmt::VarDeclKind;
use ecma_tree::stmt::VarDeclarator;

fn dsp() -> Span {
    Span::dummy()
}

fn id(name: &str) -> Ident {
    Ident { span: dsp(), sym: name.to_string() }
}

fn id_expr(name: &str) -> Expr {
    Expr::Ident(id(name))
}

fn plain(e: Expr) -> ExprOrSpread {
    ExprOrSpread { spread: false, expr: Box::new(e) }
}

fn spread(e: Expr) -> ExprOrSpread {
    ExprOrSpread { spread: true, expr: Box::new(e) }
}

fn call(span: Span, callee: Expr, args: Vec<ExprOrSpread>) -> Expr {
    Expr::Call(CallExpr { span, callee: ExprOrSuper::Expr(Box::new(callee)), args })
}

fn member(obj: Expr, name: &str) -> Expr {
    Expr::Member(MemberExpr {
        span: dsp(),
        obj: ExprOrSuper::Expr(Box::new(obj)),
        prop: Box::new(id_expr(name)),
        computed: false,
    })
}

fn array(span: Span, elems: Vec<Option<ExprOrSpread>>) -> Expr {
    Expr::Array(ArrayLit { span, elems })
}

fn void_zero() -> Expr {
    Expr::Unary(UnaryExpr {
        span: dsp(),
        op: UnaryOp::Void,
        arg: Box::new(Expr::Lit(Lit::Num(Number { span: dsp(), value: 0 }))),
    })
}

fn tca(e: Expr) -> Expr {
    call(dsp(), id_expr("_toConsumableArray"), vec![plain(e)])
}

fn expr_module(stmts: Vec<Stmt>) -> Module {
    Module { span: dsp(), body: stmts.into_iter().map(ModuleItem::Stmt).collect() }
}

fn expr_stmt(e: Expr) -> Stmt {
    Stmt::Expr(ExprStmt { span: dsp(), expr: Box::new(e) })
}

fn var_of_temps(names: &[&str]) -> Stmt {
    Stmt::Decl(Decl::Var(VarDecl {
        span: dsp(),
        kind: VarDeclKind::Var,
        decls: names
            .iter()
            .map(|n| VarDeclarator { span: dsp(), name: Pat::Ident(id(n)), init: None })
            .collect(),
    }))
}

#[test]
fn method_call_middle() {
    // add(foo, ...numbers, bar)
    // => add.apply(void 0, [foo].concat(_toConsumableArray(numbers), [bar]));
    let cs = Span::new(3, 25);
    let input = expr_module(vec![expr_stmt(call(
        cs,
        id_expr("add"),
        vec![plain(id_expr("foo")), spread(id_expr("numbers")), plain(id_expr("bar"))],
    ))]);
    let args_expr = Expr::Call(CallExpr {
        span: cs,
        callee: ExprOrSuper::Expr(Box::new(member(
            array(dsp(), vec![Some(plain(id_expr("foo")))]),
            "concat",
        ))),
        args: vec![
            plain(tca(id_expr("numbers"))),
            plain(array(dsp(), vec![Some(plain(id_expr("bar")))])),
        ],
    });
    let expected = expr_module(vec![expr_stmt(Expr::Call(CallExpr {
        span: cs,
        callee: ExprOrSuper::Expr(Box::new(member(id_expr("add"), "apply"))),
        args: vec![plain(void_zero()), plain(args_expr)],
    }))]);
    assert_eq!(apply_pass(Pass::Spread, input), expected);
}

#[test]
fn contexted_computed_method_call_single_arg() {
    // obj[method](...args) => var _obj; (_obj = obj)[method].apply(_obj, args);
    let cs = Span::new(10, 30);
    let ms = Span::new(10, 21);
    let input = expr_module(vec![expr_stmt(Expr::Call(CallExpr {
        span: cs,
        callee: ExprOrSuper::Expr(Box::new(Expr::Member(MemberExpr {
            span: ms,
            obj: ExprOrSuper::Expr(Box::new(id_expr("obj"))),
            prop: Box::new(id_expr("method")),
            computed: true,
        }))),
        args: vec![spread(id_expr("args"))],
    }))]);
    let receiver = Expr::Assign(AssignExpr {
        span: dsp(),
        op: AssignOp::Assign,
        left: Box::new(Pat::Ident(id("_obj"))),
        right: Box::new(id_expr("obj")),
    });
    let rewritten = Expr::Call(CallExpr {
        span: cs,
        callee: ExprOrSuper::Expr(Box::new(member(
            Expr::Member(MemberExpr {
                span: ms,
                obj: ExprOrSuper::Expr(Box::new(receiver)),
                prop: Box::new(id_expr("method")),
                computed: true,
            }),
            "apply",
        ))),
        args: vec![plain(id_expr("_obj")), plain(id_expr("args"))],
    });
    let expected = expr_module(vec![var_of_temps(&["_obj"]), expr_stmt(rewritten)]);
    assert_eq!(apply_pass(Pass::Spread, input), expected);
}

#[test]
fn new_expression() {
    // new Numbers(...nums) => _construct(Numbers, [].concat(nums));
    let ns = Span::new(0, 20);
    let input = expr_module(vec![expr_stmt(Expr::New(NewExpr {
        span: ns,
        callee: Box::new(id_expr("Numbers")),
        args: vec![spread(id_expr("nums"))],
    }))]);
    let packed = Expr::Call(CallExpr {
        span: dsp(),
        callee: ExprOrSuper::Expr(Box::new(member(array(dsp(), vec![]), "concat"))),
        args: vec![plain(id_expr("nums"))],
    });
    let expected = expr_module(vec![expr_stmt(Expr::Call(CallExpr {
        span: ns,
        callee: ExprOrSuper::Expr(Box::new(id_expr("_construct"))),
        args: vec![plain(id_expr("Numbers")), plain(packed)],
    }))]);
    assert_eq!(apply_pass(Pass::Spread, input), expected);
}

#[test]
fn array_literal_middle() {
    // [a, b, c, ...d, e] => [a, b, c].concat(_toConsumableArray(d), [e])
    let asp = Span::new(5, 23);
    let input = expr_module(vec![expr_stmt(array(
        asp,
        vec![
            Some(plain(id_expr("a"))),
            Some(plain(id_expr("b"))),
            Some(plain(id_expr("c"))),
            Some(spread(id_expr("d"))),
            Some(plain(id_expr("e"))),
        ],
    ))]);
    let expected = expr_module(vec![expr_stmt(Expr::Call(CallExpr {
        span: asp,
        callee: ExprOrSuper::Expr(Box::new(member(
            array(
                dsp(),
                vec![
                    Some(plain(id_expr("a"))),
                    Some(plain(id_expr("b"))),
                    Some(plain(id_expr("c"))),
                ],
            ),
            "concat",
        ))),
        args: vec![
            plain(tca(id_expr("d"))),
            plain(array(dsp(), vec![Some(plain(id_expr("e")))])),
        ],
    }))]);
    assert_eq!(apply_pass(Pass::Spread, input), expected);
}

#[test]
fn array_literal_with_hole() {
    // ['a',, 'b', ...c] => ['a',, 'b'].concat(_toConsumableArray(c))
    let asp = Span::new(0, 17);
    let input = expr_module(vec![expr_stmt(array(
        asp,
        vec![Some(plain(str_lit("a"))), None, Some(plain(str_lit("b"))), Some(spread(
            id_expr("c"),
        ))],
    ))]);
    let expected = expr_module(vec![expr_stmt(Expr::Call(CallExpr {
        span: asp,
        callee: ExprOrSuper::Expr(Box::new(member(
            array(dsp(), vec![Some(plain(str_lit("a"))), None, Some(plain(str_lit("b")))]),
            "concat",
        ))),
        args: vec![plain(tca(id_expr("c")))],
    }))]);
    assert_eq!(apply_pass(Pass::Spread, input), expected);
}

fn str_lit(v: &str) -> Expr {
    Expr::Lit(Lit::Str(Str { span: Span::dummy(), value: v.to_string() }))
}

#[test]
fn arguments_sole_spread_stays_bare() {
    // function foo(){ return bar(...arguments); }
    // => function foo(){ return bar.apply(void 0, arguments); }
    let cs = Span::new(16, 36);
    let body = |stmts: Vec<Stmt>| BlockStmt { span: dsp(), stmts };
    let input = expr_module(vec![Stmt::Decl(Decl::Fn(FnDecl {
        ident: id("foo"),
        function: Function {
            span: dsp(),
            params: vec![],
            body: body(vec![Stmt::Return(ReturnStmt {
                span: dsp(),
                arg: Some(Box::new(call(cs, id_expr("bar"), vec![spread(id_expr(
                    "arguments",
                ))]))),
            })]),
        },
    }))]);
    let expected = expr_module(vec![Stmt::Decl(Decl::Fn(FnDecl {
        ident: id("foo"),
        function: Function {
            span: dsp(),
            params: vec![],
            body: body(vec![Stmt::Return(ReturnStmt {
                span: dsp(),
                arg: Some(Box::new(Expr::Call(CallExpr {
                    span: cs,
                    callee: ExprOrSuper::Expr(Box::new(member(id_expr("bar"), "apply"))),
                    args: vec![plain(void_zero()), plain(id_expr("arguments"))],
                }))),
            })]),
        },
    }))]);
    assert_eq!(apply_pass(Pass::Spread, input), expected);
}

#[test]
fn arguments_in_concat_is_copied() {
    // bar("test", ...arguments)
    // => bar.apply(void 0, ["test"].concat(Array.prototype.slice.call(arguments)));
    let cs = Span::new(0, 25);
    let lit_test = || str_lit("test");
    let input = expr_module(vec![expr_stmt(call(
        cs,
        id_expr("bar"),
        vec![plain(lit_test()), spread(id_expr("arguments"))],
    ))]);
    let slice_call = Expr::Call(CallExpr {
        span: dsp(),
        callee: ExprOrSuper::Expr(Box::new(member(
            member(member(id_expr("Array"), "prototype"), "slice"),
            "call",
        ))),
        args: vec![plain(id_expr("arguments"))],
    });
    let args_expr = Expr::Call(CallExpr {
        span: cs,
        callee: ExprOrSuper::Expr(Box::new(member(
            array(dsp(), vec![Some(plain(lit_test()))]),
            "concat",
        ))),
        args: vec![plain(slice_call)],
    });
    let expected = expr_module(vec![expr_stmt(Expr::Call(CallExpr {
        span: cs,
        callee: ExprOrSuper::Expr(Box::new(member(id_expr("bar"), "apply"))),
        args: vec![plain(void_zero()), plain(args_expr)],
    }))]);
    assert_eq!(apply_pass(Pass::Spread, input), expected);
}

#[test]
fn custom_call_noop() {
    // ca(a, b, c, d, e) is returned unchanged.
    let build = || {
        expr_module(vec![expr_stmt(call(
            Span::new(0, 17),
            id_expr("ca"),
            vec![
                plain(id_expr("a")),
                plain(id_expr("b")),
                plain(id_expr("c")),
                plain(id_expr("d")),
                plain(id_expr("e")),
            ],
        ))])
    };
    assert_eq!(apply_pass(Pass::Spread, build()), build());
}

#[test]
fn this_receiver_is_not_hoisted() {
    // this.bar(...args) => this.bar.apply(this, args);
    let cs = Span::new(0, 17);
    let this = || Expr::This(ecma_tree::expr::ThisExpr { span: dsp() });
    let input = expr_module(vec![expr_stmt(Expr::Call(CallExpr {
        span: cs,
        callee: ExprOrSuper::Expr(Box::new(Expr::Member(MemberExpr {
            span: dsp(),
            obj: ExprOrSuper::Expr(Box::new(this())),
            prop: Box::new(id_expr("bar")),
            computed: false,
        }))),
        args: vec![spread(id_expr("args"))],
    }))]);
    let expected = expr_module(vec![expr_stmt(Expr::Call(CallExpr {
        span: cs,
        callee: ExprOrSuper::Expr(Box::new(member(
            Expr::Member(MemberExpr {
                span: dsp(),
                obj: ExprOrSuper::Expr(Box::new(this())),
                prop: Box::new(id_expr("bar")),
                computed: false,
            }),
            "apply",
        ))),
        args: vec![plain(this()), plain(id_expr("args"))],
    }))]);
    assert_eq!(apply_pass(Pass::Spread, input), expected);
}

#[test]
fn super_method_call_applies_this() {
    // super.bar(...args) => super.bar.apply(this, args)
    let cs = Span::new(0, 18);
    let ss = Span::new(0, 5);
    let input = expr_module(vec![expr_stmt(Expr::Call(CallExpr {
        span: cs,
        callee: ExprOrSuper::Expr(Box::new(Expr::Member(MemberExpr {
            span: dsp(),
            obj: ExprOrSuper::Super(ss),
            prop: Box::new(id_expr("bar")),
            computed: false,
        }))),
        args: vec![spread(id_expr("args"))],
    }))]);
    let expected = expr_module(vec![expr_stmt(Expr::Call(CallExpr {
        span: cs,
        callee: ExprOrSuper::Expr(Box::new(member(
            Expr::Member(MemberExpr {
                span: dsp(),
                obj: ExprOrSuper::Super(ss),
                prop: Box::new(id_expr("bar")),
                computed: false,
            }),
            "apply",
        ))),
        args: vec![plain(Expr::This(ecma_tree::expr::ThisExpr { span: dsp() })), plain(
            id_expr("args"),
        )],
    }))]);
    assert_eq!(apply_pass(Pass::Spread, input), expected);
}

#[test]
fn two_hoists_use_distinct_temps() {
    // foob.add(...numbers); foob.test.add(...numbers);
    // => var _foob, _test; (_foob = foob).add.apply(_foob, numbers);
    //    (_test = foob.test).add.apply(_test, numbers);
    let input = expr_module(vec![
        expr_stmt(Expr::Call(CallExpr {
            span: dsp(),
            callee: ExprOrSuper::Expr(Box::new(member(id_expr("foob"), "add"))),
            args: vec![spread(id_expr("numbers"))],
        })),
        expr_stmt(Expr::Call(CallExpr {
            span: dsp(),
            callee: ExprOrSuper::Expr(Box::new(member(
                member(id_expr("foob"), "test"),
                "add",
            ))),
            args: vec![spread(id_expr("numbers"))],
        })),
    ]);
    let out = apply_pass(Pass::Spread, input);
    match &out.body[0] {
        ModuleItem::Stmt(Stmt::Decl(Decl::Var(v))) => {
            assert_eq!(v.decls.len(), 2);
            assert_eq!(v.decls[0].name, Pat::Ident(id("_foob")));
            assert_eq!(v.decls[1].name, Pat::Ident(id("_test")));
        },
        other => panic!("expected the hoisted var statement, got {:?}", other),
    }
    assert_eq!(out.body.len(), 3);
}

#[test]
fn pipeline_applies_passes_in_order() {
    let build = || expr_module(vec![expr_stmt(call(dsp(), id_expr("f"), vec![spread(
        id_expr("xs"),
    )]))]);
    let passes = vec![Pass::Noop, Pass::Spread];
    let once = apply_pass(Pass::Spread, build());
    assert_eq!(apply_pipeline(&passes, build()), once);
}

#[test]
fn noop_pass_returns_input() {
    let build = || expr_module(vec![expr_stmt(call(dsp(), id_expr("f"), vec![spread(
        id_expr("xs"),
    )]))]);
    assert_eq!(apply_pass(Pass::Noop, build()), build());
}

#[test]
fn custom_call_multi_spread() {
    // ca(a, b, ...d, e, f, ...h)
    // => ca.apply(void 0, [a, b].concat(_toConsumableArray(d), [e, f], _toConsumableArray(h)));
    let cs = Span::new(0, 26);
    let input = expr_module(vec![expr_stmt(call(
        cs,
        id_expr("ca"),
        vec![
            plain(id_expr("a")),
            plain(id_expr("b")),
            spread(id_expr("d")),
            plain(id_expr("e")),
            plain(id_expr("f")),
            spread(id_expr("h")),
        ],
    ))]);
    let args_expr = Expr::Call(CallExpr {
        span: cs,
        callee: ExprOrSuper::Expr(Box::new(member(
            array(dsp(), vec![Some(plain(id_expr("a"))), Some(plain(id_expr("b")))]),
            "concat",
        ))),
        args: vec![
            plain(tca(id_expr("d"))),
            plain(array(dsp(), vec![Some(plain(id_expr("e"))), Some(plain(id_expr("f")))])),
            plain(tca(id_expr("h"))),
        ],
    });
    let expected = expr_module(vec![expr_stmt(Expr::Call(CallExpr {
        span: cs,
        callee: ExprOrSuper::Expr(Box::new(member(id_expr("ca"), "apply"))),
        args: vec![plain(void_zero()), plain(args_expr)],
    }))]);
    assert_eq!(apply_pass(Pass::Spread, input), expected);
}

#[test]
fn array_sole_spread_wraps_in_concat() {
    // [...foo] => [].concat(foo)
    let asp = Span::new(0, 8);
    let input = expr_module(vec![expr_stmt(array(asp, vec![Some(spread(id_expr("foo")))]))]);
    let expected = expr_module(vec![expr_stmt(Expr::Call(CallExpr {
        span: asp,
        callee: ExprOrSuper::Expr(Box::new(member(array(dsp(), vec![]), "concat"))),
        args: vec![plain(id_expr("foo"))],
    }))]);
    assert_eq!(apply_pass(Pass::Spread, input), expected);
}

#[test]
fn array_sole_spread_of_arguments_is_copied() {
    // [...arguments] => Array.prototype.slice.call(arguments)
    let asp = Span::new(0, 14);
    let input = expr_module(vec![expr_stmt(array(asp, vec![Some(spread(id_expr(
        "arguments",
    )))]))]);
    let expected = expr_module(vec![expr_stmt(Expr::Call(CallExpr {
        span: dsp(),
        callee: ExprOrSuper::Expr(Box::new(member(
            member(member(id_expr("Array"), "prototype"), "slice"),
            "call",
        ))),
        args: vec![plain(id_expr("arguments"))],
    }))]);
    assert_eq!(apply_pass(Pass::Spread, input), expected);
}
