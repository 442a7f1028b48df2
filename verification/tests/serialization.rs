//! Tests of the serialization contract: round trips, the tri-state
//! special case, and rejection of invalid values.
use ecma_tree::config::syntax;
use ecma_tree::config::Syntax;
use ecma_tree::ident::Ident;
use ecma_tree::serial::deserialize_entity_name;
use ecma_tree::serial::deserialize_ident;
use ecma_tree::serial::deserialize_keyword_kind;
use ecma_tree::serial::deserialize_true_plus_minus;
use ecma_tree::serial::key_text;
use ecma_tree::serial::serialize_entity_name;
use ecma_tree::serial::serialize_ident;
use ecma_tree::serial::serialize_keyword_kind;
use ecma_tree::serial::serialize_true_plus_minus;
use ecma_tree::serial::tag_text;
use ecma_tree::serial::Key;
use ecma_tree::serial::SerError;
use ecma_tree::serial::SerField;
use ecma_tree::serial::SerValue;
use ecma_tree::serial::Tag;
use ecma_tree::lit::Bool;
use ecma_tree::lit::Number;
use ecma_tree::lit::Str;
use ecma_tree::serial::deserialize_accessibility;
use ecma_tree::serial::deserialize_module_name;
use ecma_tree::serial::deserialize_ts_lit;
use ecma_tree::serial::deserialize_type_operator;
use ecma_tree::serial::serialize_accessibility;
use ecma_tree::serial::serialize_module_name;
use ecma_tree::serial::serialize_ts_lit;
use ecma_tree::serial::serialize_type_operator;
use ecma_tree::span::Span;
use ecma_tree::typescript::Accessibility;
use ecma_tree::typescript::TsEntityName;
use ecma_tree::typescript::TsLit;
use ecma_tree::typescript::TsModuleName;
use ecma_tree::typescript::TsTypeOperatorOp;
use ecma_tree::typescript::TsKeywordTypeKind;
use ecma_tree::typescript::TsQualifiedName;
use ecma_tree::typescript::TruePlusMinus;

fn id(name: &str) -> Ident {
    Ident { span: Span::new(1, 4), sym: name.to_string() }
}

#[test]
fn tri_state_serializes_to_exact_tokens() {
    assert_eq!(serialize_true_plus_minus(TruePlusMinus::True), SerValue::Bool(true));
    assert_eq!(
        serialize_true_plus_minus(TruePlusMinus::Plus),
        SerValue::Str("+".to_string())
    );
    assert_eq!(
        serialize_true_plus_minus(TruePlusMinus::Minus),
        SerValue::Str("-".to_string())
    );
}

#[test]
fn tri_state_round_trips() {
    for t in [TruePlusMinus::True, TruePlusMinus::Plus, TruePlusMinus::Minus] {
        assert_eq!(deserialize_true_plus_minus(serialize_true_plus_minus(t)), Ok(t));
    }
}

#[test]
fn tri_state_rejects_false() {
    assert_eq!(
        deserialize_true_plus_minus(SerValue::Bool(false)),
        Err(SerError::Invalid { value: SerValue::Bool(false) })
    );
}

#[test]
fn tri_state_rejects_other_strings() {
    assert_eq!(
        deserialize_true_plus_minus(SerValue::Str("true".to_string())),
        Err(SerError::Invalid { value: SerValue::Str("true".to_string()) })
    );
    assert_eq!(
        deserialize_true_plus_minus(SerValue::Str("+-".to_string())),
        Err(SerError::Invalid { value: SerValue::Str("+-".to_string()) })
    );
}

#[test]
fn tri_state_rejects_numbers() {
    assert_eq!(
        deserialize_true_plus_minus(SerValue::Int(1)),
        Err(SerError::Invalid { value: SerValue::Int(1) })
    );
}

#[test]
fn keyword_kind_round_trips() {
    let kinds = [
        TsKeywordTypeKind::TsAnyKeyword,
        TsKeywordTypeKind::TsUnknownKeyword,
        TsKeywordTypeKind::TsNumberKeyword,
        TsKeywordTypeKind::TsObjectKeyword,
        TsKeywordTypeKind::TsBooleanKeyword,
        TsKeywordTypeKind::TsBigIntKeyword,
        TsKeywordTypeKind::TsStringKeyword,
        TsKeywordTypeKind::TsSymbolKeyword,
        TsKeywordTypeKind::TsVoidKeyword,
        TsKeywordTypeKind::TsUndefinedKeyword,
        TsKeywordTypeKind::TsNullKeyword,
        TsKeywordTypeKind::TsNeverKeyword,
    ];
    for k in kinds {
        assert_eq!(deserialize_keyword_kind(serialize_keyword_kind(k)), Ok(k));
    }
}

#[test]
fn keyword_kind_exact_token() {
    assert_eq!(
        serialize_keyword_kind(TsKeywordTypeKind::TsUndefinedKeyword),
        SerValue::Str("undefined".to_string())
    );
    assert_eq!(
        deserialize_keyword_kind(SerValue::Str("nevermore".to_string())),
        Err(SerError::Invalid { value: SerValue::Str("nevermore".to_string()) })
    );
}

#[test]
fn ident_round_trips() {
    let i = id("foo");
    let v = serialize_ident(&i);
    assert_eq!(deserialize_ident(&v), Ok(id("foo")));
}

#[test]
fn ident_serialized_shape() {
    let v = serialize_ident(&id("x"));
    let expected = SerValue::Obj(
        Tag::Identifier,
        vec![
            SerField {
                key: Key::Span,
                value: SerValue::Arr(vec![SerValue::Int(1), SerValue::Int(4)]),
            },
            SerField { key: Key::Value, value: SerValue::Str("x".to_string()) },
        ],
    );
    assert_eq!(v, expected);
}

#[test]
fn ident_missing_field_is_reported() {
    let v = SerValue::Obj(
        Tag::Identifier,
        vec![SerField {
            key: Key::Span,
            value: SerValue::Arr(vec![SerValue::Int(0), SerValue::Int(0)]),
        }],
    );
    assert_eq!(deserialize_ident(&v), Err(SerError::Missing { key: Key::Value }));
}

#[test]
fn ident_wrong_tag_is_reported() {
    let v = SerValue::Obj(Tag::TsQualifiedName, vec![]);
    assert_eq!(
        deserialize_ident(&v),
        Err(SerError::WrongTag { found: Tag::TsQualifiedName })
    );
}

#[test]
fn qualified_name_round_trips() {
    // A.B.c as a left-dotted chain.
    let n = TsEntityName::TsQualifiedName(Box::new(TsQualifiedName {
        left: TsEntityName::TsQualifiedName(Box::new(TsQualifiedName {
            left: TsEntityName::Ident(id("A")),
            right: id("B"),
        })),
        right: id("c"),
    }));
    let v = serialize_entity_name(&n);
    let back = deserialize_entity_name(&v).unwrap();
    assert_eq!(back, n);
}

#[test]
fn entity_name_uses_leaf_tags() {
    // The wrapper enum contributes no tag of its own.
    let v = serialize_entity_name(&TsEntityName::Ident(id("A")));
    match v {
        SerValue::Obj(tag, _) => assert_eq!(tag, Tag::Identifier),
        other => panic!("expected an object, got {:?}", other),
    }
}

#[test]
fn external_spellings() {
    assert_eq!(tag_text(Tag::Identifier), "Identifier");
    assert_eq!(tag_text(Tag::TsQualifiedName), "TsQualifiedName");
    assert_eq!(key_text(Key::Span), "span");
    assert_eq!(key_text(Key::Value), "value");
    assert_eq!(key_text(Key::Left), "left");
    assert_eq!(key_text(Key::Right), "right");
}

#[test]
fn default_syntax_is_es() {
    assert_eq!(syntax(), Syntax::Es);
}

#[test]
fn ts_lit_round_trips_with_leaf_tags() {
    let num = TsLit::Number(Number { span: Span::new(2, 3), value: 42 });
    let v = serialize_ts_lit(&num);
    assert_eq!(deserialize_ts_lit(&v).unwrap(), num);

    let s = TsLit::Str(Str { span: Span::dummy(), value: "hi".to_string() });
    let v = serialize_ts_lit(&s);
    assert_eq!(deserialize_ts_lit(&v).unwrap(), s);

    let b = TsLit::Bool(Bool { span: Span::dummy(), value: false });
    let v = serialize_ts_lit(&b);
    assert_eq!(deserialize_ts_lit(&v).unwrap(), b);
}

#[test]
fn module_name_round_trips() {
    let n = TsModuleName::Ident(id("ns"));
    assert_eq!(
        deserialize_module_name(&serialize_module_name(&n)).unwrap(),
        TsModuleName::Ident(id("ns"))
    );
}

#[test]
fn accessibility_tokens() {
    for a in [Accessibility::Public, Accessibility::Protected, Accessibility::Private] {
        assert_eq!(deserialize_accessibility(serialize_accessibility(a)), Ok(a));
    }
    assert_eq!(
        serialize_accessibility(Accessibility::Protected),
        SerValue::Str("protected".to_string())
    );
}

#[test]
fn type_operator_tokens() {
    for op in [TsTypeOperatorOp::KeyOf, TsTypeOperatorOp::Unique] {
        assert_eq!(deserialize_type_operator(serialize_type_operator(op)), Ok(op));
    }
    assert_eq!(
        serialize_type_operator(TsTypeOperatorOp::KeyOf),
        SerValue::Str("keyof".to_string())
    );
}

#[test]
fn span_out_of_range_is_rejected() {
    let v = SerValue::Obj(
        Tag::Identifier,
        vec![
            SerField {
                key: Key::Span,
                value: SerValue::Arr(vec![SerValue::Int(-1), SerValue::Int(0)]),
            },
            SerField { key: Key::Value, value: SerValue::Str("x".to_string()) },
        ],
    );
    assert!(deserialize_ident(&v).is_err());
}
