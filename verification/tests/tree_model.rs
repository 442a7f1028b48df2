//! Tests of the tree model itself: conversions and nested ownership.
use ecma_tree::ident::Ident;
use ecma_tree::span::Span;
use ecma_tree::typescript::TsEntityName;
use ecma_tree::typescript::TsFnOrConstructorType;
use ecma_tree::typescript::TsFnType;
use ecma_tree::typescript::TsKeywordType;
use ecma_tree::typescript::TsKeywordTypeKind;
use ecma_tree::typescript::TsQualifiedName;
use ecma_tree::typescript::TsType;
use ecma_tree::typescript::TsTypeAnn;
use ecma_tree::typescript::TsUnionOrIntersectionType;
use ecma_tree::typescript::TsUnionType;

fn id(name: &str) -> Ident {
    Ident { span: Span::dummy(), sym: name.to_string() }
}

fn keyword(kind: TsKeywordTypeKind) -> TsType {
    TsType::TsKeywordType(TsKeywordType { span: Span::dummy(), kind })
}

#[test]
fn fn_type_converts_through_the_wrapper_variant() {
    let f = TsFnType {
        span: Span::dummy(),
        params: vec![],
        type_params: None,
        type_ann: TsTypeAnn {
            span: Span::dummy(),
            type_ann: Box::new(keyword(TsKeywordTypeKind::TsVoidKeyword)),
        },
    };
    let t = TsType::from(f);
    assert!(matches!(
        t,
        TsType::TsFnOrConstructorType(TsFnOrConstructorType::TsFnType(_))
    ));
}

#[test]
fn union_type_converts_through_the_wrapper_variant() {
    let u = TsUnionType {
        span: Span::dummy(),
        types: vec![
            Box::new(keyword(TsKeywordTypeKind::TsStringKeyword)),
            Box::new(keyword(TsKeywordTypeKind::TsNumberKeyword)),
        ],
    };
    let t = TsType::from(u);
    match &t {
        TsType::TsUnionOrIntersectionType(TsUnionOrIntersectionType::TsUnionType(u)) => {
            assert_eq!(u.types.len(), 2);
        },
        other => panic!("expected a union type, got {:?}", other),
    }
}

#[test]
fn qualified_names_nest_to_any_depth() {
    let mut n = TsEntityName::Ident(id("a"));
    for part in ["b", "c", "d"] {
        n = TsEntityName::TsQualifiedName(Box::new(TsQualifiedName {
            left: n,
            right: id(part),
        }));
    }
    let mut depth = 0;
    let mut cur = &n;
    while let TsEntityName::TsQualifiedName(q) = cur {
        depth += 1;
        cur = &q.left;
    }
    assert_eq!(depth, 3);
}
