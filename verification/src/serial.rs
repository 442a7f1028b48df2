//! The serialization contract.
//!
//! A node serializes to a tagged structural value: every object carries
//! the discriminant tag of its variant and a list of keyed fields; the
//! exact external spellings of tags and keys are fixed by `tag_text`
//! and `key_text`. A span serializes under the `span` key as a two
//! element array of its byte offsets. Deserialization accepts exactly
//! what serialization emits, ignores unknown fields, and rejects a
//! wrong tag, a missing field, or an ill-shaped value, reporting which.
//!
//! The tri-state mapped-type modifier serializes as boolean `true` or
//! the strings `"+"` and `"-"`; boolean `false` and every other string
//! are rejected, since absence of the modifier is represented by the
//! absence of the field, never by a value.
use crate::ident::Ident;
use crate::lit::Bool;
use crate::lit::Number;
use crate::lit::Str;
use crate::span::Span;
use crate::typescript::Accessibility;
use crate::typescript::TsEntityName;
use crate::typescript::TsEnumMemberId;
use crate::typescript::TsLit;
use crate::typescript::TsModuleName;
use crate::typescript::TsTypeOperatorOp;
use crate::typescript::TsKeywordTypeKind;
use crate::typescript::TsQualifiedName;
use crate::typescript::TruePlusMinus;
use crate::views::view_entity_name;
use crate::views::view_enum_member_id;
use crate::views::view_ident;
use crate::views::view_module_name;
use crate::views::view_str;
use crate::views::view_ts_lit;
use crate::views::IdentV;
use crate::views::StrV;
use crate::views::TsEntityNameV;
use crate::views::TsEnumMemberIdV;
use crate::views::TsLitV;
use crate::views::TsModuleNameV;
use vstd::prelude::*;
use vstd::string::StringExecFns;

verus! {

/// The closed set of discriminant tags.
#[derive(Clone, Copy, Debug, PartialEq, Eq, Structural)]
pub enum Tag {
    Identifier,
    StringLiteral,
    BooleanLiteral,
    NumericLiteral,
    TsQualifiedName,
}

/// The closed set of field keys.
#[derive(Clone, Copy, Debug, PartialEq, Eq, Structural)]
pub enum Key {
    Span,
    Value,
    Left,
    Right,
}

/// One keyed field of a serialized object.
#[derive(Debug, PartialEq, Eq)]
pub struct SerField {
    pub key: Key,
    pub value: SerValue,
}

/// A serialized value.
#[derive(Debug, PartialEq, Eq)]
pub enum SerValue {
    Bool(bool),
    Int(i64),
    Str(String),
    Arr(Vec<SerValue>),
    Obj(Tag, Vec<SerField>),
}

/// A deserialization failure, with what offended.
#[derive(Debug, PartialEq, Eq)]
pub enum SerError {
    WrongShape,
    WrongTag { found: Tag },
    Missing { key: Key },
    BadField { key: Key },
    Invalid { value: SerValue },
}

pub struct FieldV {
    pub key: Key,
    pub value: SerValueV,
}

pub enum SerValueV {
    Bool(bool),
    Int(i64),
    Str(Seq<char>),
    Arr(Seq<SerValueV>),
    Obj(Tag, Seq<FieldV>),
}

pub open spec fn view_ser_value(v: SerValue) -> SerValueV
    decreases v,
{
    match v {
        SerValue::Bool(b) => SerValueV::Bool(b),
        SerValue::Int(i) => SerValueV::Int(i),
        SerValue::Str(s) => SerValueV::Str(s@),
        SerValue::Arr(vs) => SerValueV::Arr(view_values(vs@)),
        SerValue::Obj(t, fs) => SerValueV::Obj(t, view_fields(fs@)),
    }
}

pub open spec fn view_values(s: Seq<SerValue>) -> Seq<SerValueV>
    decreases s,
{
    if s.len() == 0 {
        Seq::empty()
    } else {
        seq![view_ser_value(s[0])] + view_values(s.drop_first())
    }
}

pub open spec fn view_fields(s: Seq<SerField>) -> Seq<FieldV>
    decreases s,
{
    if s.len() == 0 {
        Seq::empty()
    } else {
        seq![FieldV { key: s[0].key, value: view_ser_value(s[0].value) }] + view_fields(
            s.drop_first(),
        )
    }
}

pub proof fn lemma_view_fields(s: Seq<SerField>)
    ensures
        view_fields(s).len() == s.len(),
        forall|i: int| 0 <= i < s.len() ==> view_fields(s)[i] == (FieldV {
            key: s[i].key,
            value: view_ser_value(s[i].value),
        }),
    decreases s.len(),
{
    if s.len() > 0 {
        lemma_view_fields(s.drop_first());
    }
}

// ---------------------------------------------------------------------
// The external spellings of tags, keys, and keyword tokens.
// ---------------------------------------------------------------------
pub open spec fn tag_text_s(t: Tag) -> Seq<char> {
    match t {
        Tag::Identifier => "Identifier"@,
        Tag::StringLiteral => "StringLiteral"@,
        Tag::BooleanLiteral => "BooleanLiteral"@,
        Tag::NumericLiteral => "NumericLiteral"@,
        Tag::TsQualifiedName => "TsQualifiedName"@,
    }
}

pub fn tag_text(t: Tag) -> (r: String)
    ensures
        r@ == tag_text_s(t),
{
    match t {
        Tag::Identifier => String::from_str("Identifier"),
        Tag::StringLiteral => String::from_str("StringLiteral"),
        Tag::BooleanLiteral => String::from_str("BooleanLiteral"),
        Tag::NumericLiteral => String::from_str("NumericLiteral"),
        Tag::TsQualifiedName => String::from_str("TsQualifiedName"),
    }
}

pub open spec fn key_text_s(k: Key) -> Seq<char> {
    match k {
        Key::Span => "span"@,
        Key::Value => "value"@,
        Key::Left => "left"@,
        Key::Right => "right"@,
    }
}

pub fn key_text(k: Key) -> (r: String)
    ensures
        r@ == key_text_s(k),
{
    match k {
        Key::Span => String::from_str("span"),
        Key::Value => String::from_str("value"),
        Key::Left => String::from_str("left"),
        Key::Right => String::from_str("right"),
    }
}

/// The external token of a keyword type kind.
pub open spec fn keyword_token_s(k: TsKeywordTypeKind) -> Seq<char> {
    match k {
        TsKeywordTypeKind::TsAnyKeyword => "any"@,
        TsKeywordTypeKind::TsUnknownKeyword => "unknown"@,
        TsKeywordTypeKind::TsNumberKeyword => "number"@,
        TsKeywordTypeKind::TsObjectKeyword => "object"@,
        TsKeywordTypeKind::TsBooleanKeyword => "boolean"@,
        TsKeywordTypeKind::TsBigIntKeyword => "bigint"@,
        TsKeywordTypeKind::TsStringKeyword => "string"@,
        TsKeywordTypeKind::TsSymbolKeyword => "symbol"@,
        TsKeywordTypeKind::TsVoidKeyword => "void"@,
        TsKeywordTypeKind::TsUndefinedKeyword => "undefined"@,
        TsKeywordTypeKind::TsNullKeyword => "null"@,
        TsKeywordTypeKind::TsNeverKeyword => "never"@,
    }
}

// ---------------------------------------------------------------------
// Serialization, at the spec level.
// ---------------------------------------------------------------------
pub open spec fn ser_span_s(s: Span) -> SerValueV {
    SerValueV::Arr(seq![SerValueV::Int(s.lo as i64), SerValueV::Int(s.hi as i64)])
}

pub open spec fn ser_tri_s(t: TruePlusMinus) -> SerValueV {
    match t {
        TruePlusMinus::True => SerValueV::Bool(true),
        TruePlusMinus::Plus => SerValueV::Str("+"@),
        TruePlusMinus::Minus => SerValueV::Str("-"@),
    }
}

pub open spec fn ser_keyword_kind_s(k: TsKeywordTypeKind) -> SerValueV {
    SerValueV::Str(keyword_token_s(k))
}

pub open spec fn ser_ident_s(i: IdentV) -> SerValueV {
    SerValueV::Obj(
        Tag::Identifier,
        seq![
            FieldV { key: Key::Span, value: ser_span_s(i.span) },
            FieldV { key: Key::Value, value: SerValueV::Str(i.sym) },
        ],
    )
}

/// The external token of an accessibility modifier.
pub open spec fn accessibility_token_s(a: Accessibility) -> Seq<char> {
    match a {
        Accessibility::Public => "public"@,
        Accessibility::Protected => "protected"@,
        Accessibility::Private => "private"@,
    }
}

pub open spec fn ser_accessibility_s(a: Accessibility) -> SerValueV {
    SerValueV::Str(accessibility_token_s(a))
}

/// The external token of a type operator.
pub open spec fn type_operator_token_s(op: TsTypeOperatorOp) -> Seq<char> {
    match op {
        TsTypeOperatorOp::KeyOf => "keyof"@,
        TsTypeOperatorOp::Unique => "unique"@,
    }
}

pub open spec fn ser_type_operator_s(op: TsTypeOperatorOp) -> SerValueV {
    SerValueV::Str(type_operator_token_s(op))
}

pub open spec fn ser_str_s(s: StrV) -> SerValueV {
    SerValueV::Obj(
        Tag::StringLiteral,
        seq![
            FieldV { key: Key::Span, value: ser_span_s(s.span) },
            FieldV { key: Key::Value, value: SerValueV::Str(s.value) },
        ],
    )
}

pub open spec fn ser_bool_s(b: Bool) -> SerValueV {
    SerValueV::Obj(
        Tag::BooleanLiteral,
        seq![
            FieldV { key: Key::Span, value: ser_span_s(b.span) },
            FieldV { key: Key::Value, value: SerValueV::Bool(b.value) },
        ],
    )
}

pub open spec fn ser_number_s(n: Number) -> SerValueV {
    SerValueV::Obj(
        Tag::NumericLiteral,
        seq![
            FieldV { key: Key::Span, value: ser_span_s(n.span) },
            FieldV { key: Key::Value, value: SerValueV::Int(n.value) },
        ],
    )
}

/// A literal-type literal carries the tag of its leaf variant.
pub open spec fn ser_ts_lit_s(l: TsLitV) -> SerValueV {
    match l {
        TsLitV::Num(n) => ser_number_s(n),
        TsLitV::Str(s) => ser_str_s(s),
        TsLitV::Bool(b) => ser_bool_s(b),
    }
}

/// An enum member name carries the tag of its leaf variant.
pub open spec fn ser_enum_member_id_s(i: TsEnumMemberIdV) -> SerValueV {
    match i {
        TsEnumMemberIdV::Ident(x) => ser_ident_s(x),
        TsEnumMemberIdV::Str(s) => ser_str_s(s),
    }
}

/// A module name carries the tag of its leaf variant.
pub open spec fn ser_module_name_s(i: TsModuleNameV) -> SerValueV {
    match i {
        TsModuleNameV::Ident(x) => ser_ident_s(x),
        TsModuleNameV::Str(s) => ser_str_s(s),
    }
}

/// An entity name carries the tag of its leaf variant: a plain
/// identifier serializes as an identifier, a qualified chain under its
/// own tag with `left` and `right` fields, and no synthetic outer tag.
pub open spec fn ser_entity_name_s(n: TsEntityNameV) -> SerValueV
    decreases n,
{
    match n {
        TsEntityNameV::Ident(i) => ser_ident_s(i),
        TsEntityNameV::Qualified { left, right } => SerValueV::Obj(
            Tag::TsQualifiedName,
            seq![
                FieldV { key: Key::Left, value: ser_entity_name_s(*left) },
                FieldV { key: Key::Right, value: ser_ident_s(right) },
            ],
        ),
    }
}

// ---------------------------------------------------------------------
// Deserialization, at the spec level. The first field under a key wins;
// unknown fields are ignored.
// ---------------------------------------------------------------------
pub open spec fn lookup_s(fields: Seq<FieldV>, k: Key) -> Option<SerValueV>
    decreases fields.len(),
{
    if fields.len() == 0 {
        Option::None
    } else if fields[0].key == k {
        Option::Some(fields[0].value)
    } else {
        lookup_s(fields.drop_first(), k)
    }
}

pub open spec fn de_span_s(v: SerValueV) -> Option<Span> {
    match v {
        SerValueV::Arr(s) => if s.len() == 2 && (s[0] matches SerValueV::Int(lo)) && (
        s[1] matches SerValueV::Int(hi)) && 0 <= s[0]->Int_0 <= u32::MAX && 0 <= s[1]->Int_0
            <= u32::MAX {
            Option::Some(Span { lo: s[0]->Int_0 as u32, hi: s[1]->Int_0 as u32 })
        } else {
            Option::None
        },
        _ => Option::None,
    }
}

/// Boolean `true` is the `True` state; `"+"` and `"-"` are the signed
/// states; everything else is invalid — in particular boolean `false`,
/// since absence, not a value, means "no modifier".
pub open spec fn de_tri_s(v: SerValueV) -> Option<TruePlusMinus> {
    match v {
        SerValueV::Bool(b) => if b {
            Option::Some(TruePlusMinus::True)
        } else {
            Option::None
        },
        SerValueV::Str(s) => if s == "+"@ {
            Option::Some(TruePlusMinus::Plus)
        } else if s == "-"@ {
            Option::Some(TruePlusMinus::Minus)
        } else {
            Option::None
        },
        _ => Option::None,
    }
}

pub open spec fn de_keyword_kind_s(v: SerValueV) -> Option<TsKeywordTypeKind> {
    match v {
        SerValueV::Str(s) => if s == "any"@ {
            Option::Some(TsKeywordTypeKind::TsAnyKeyword)
        } else if s == "unknown"@ {
            Option::Some(TsKeywordTypeKind::TsUnknownKeyword)
        } else if s == "number"@ {
            Option::Some(TsKeywordTypeKind::TsNumberKeyword)
        } else if s == "object"@ {
            Option::Some(TsKeywordTypeKind::TsObjectKeyword)
        } else if s == "boolean"@ {
            Option::Some(TsKeywordTypeKind::TsBooleanKeyword)
        } else if s == "bigint"@ {
            Option::Some(TsKeywordTypeKind::TsBigIntKeyword)
        } else if s == "string"@ {
            Option::Some(TsKeywordTypeKind::TsStringKeyword)
        } else if s == "symbol"@ {
            Option::Some(TsKeywordTypeKind::TsSymbolKeyword)
        } else if s == "void"@ {
            Option::Some(TsKeywordTypeKind::TsVoidKeyword)
        } else if s == "undefined"@ {
            Option::Some(TsKeywordTypeKind::TsUndefinedKeyword)
        } else if s == "null"@ {
            Option::Some(TsKeywordTypeKind::TsNullKeyword)
        } else if s == "never"@ {
            Option::Some(TsKeywordTypeKind::TsNeverKeyword)
        } else {
            Option::None
        },
        _ => Option::None,
    }
}

pub open spec fn de_ident_s(v: SerValueV) -> Option<IdentV> {
    match v {
        SerValueV::Obj(tag, fields) => if tag == Tag::Identifier {
            match (lookup_s(fields, Key::Span), lookup_s(fields, Key::Value)) {
                (Option::Some(sv), Option::Some(SerValueV::Str(sym))) => match de_span_s(sv) {
                    Option::Some(span) => Option::Some(IdentV { span, sym }),
                    Option::None => Option::None,
                },
                _ => Option::None,
            }
        } else {
            Option::None
        },
        _ => Option::None,
    }
}

pub open spec fn de_accessibility_s(v: SerValueV) -> Option<Accessibility> {
    match v {
        SerValueV::Str(s) => if s == "public"@ {
            Option::Some(Accessibility::Public)
        } else if s == "protected"@ {
            Option::Some(Accessibility::Protected)
        } else if s == "private"@ {
            Option::Some(Accessibility::Private)
        } else {
            Option::None
        },
        _ => Option::None,
    }
}

pub open spec fn de_type_operator_s(v: SerValueV) -> Option<TsTypeOperatorOp> {
    match v {
        SerValueV::Str(s) => if s == "keyof"@ {
            Option::Some(TsTypeOperatorOp::KeyOf)
        } else if s == "unique"@ {
            Option::Some(TsTypeOperatorOp::Unique)
        } else {
            Option::None
        },
        _ => Option::None,
    }
}

pub open spec fn de_str_s(v: SerValueV) -> Option<StrV> {
    match v {
        SerValueV::Obj(tag, fields) => if tag == Tag::StringLiteral {
            match (lookup_s(fields, Key::Span), lookup_s(fields, Key::Value)) {
                (Option::Some(sv), Option::Some(SerValueV::Str(value))) => match de_span_s(sv) {
                    Option::Some(span) => Option::Some(StrV { span, value }),
                    Option::None => Option::None,
                },
                _ => Option::None,
            }
        } else {
            Option::None
        },
        _ => Option::None,
    }
}

pub open spec fn de_bool_s(v: SerValueV) -> Option<Bool> {
    match v {
        SerValueV::Obj(tag, fields) => if tag == Tag::BooleanLiteral {
            match (lookup_s(fields, Key::Span), lookup_s(fields, Key::Value)) {
                (Option::Some(sv), Option::Some(SerValueV::Bool(value))) => match de_span_s(sv) {
                    Option::Some(span) => Option::Some(Bool { span, value }),
                    Option::None => Option::None,
                },
                _ => Option::None,
            }
        } else {
            Option::None
        },
        _ => Option::None,
    }
}

pub open spec fn de_number_s(v: SerValueV) -> Option<Number> {
    match v {
        SerValueV::Obj(tag, fields) => if tag == Tag::NumericLiteral {
            match (lookup_s(fields, Key::Span), lookup_s(fields, Key::Value)) {
                (Option::Some(sv), Option::Some(SerValueV::Int(value))) => match de_span_s(sv) {
                    Option::Some(span) => Option::Some(Number { span, value }),
                    Option::None => Option::None,
                },
                _ => Option::None,
            }
        } else {
            Option::None
        },
        _ => Option::None,
    }
}

pub open spec fn de_ts_lit_s(v: SerValueV) -> Option<TsLitV> {
    match v {
        SerValueV::Obj(tag, _) => if tag == Tag::NumericLiteral {
            match de_number_s(v) {
                Option::Some(n) => Option::Some(TsLitV::Num(n)),
                Option::None => Option::None,
            }
        } else if tag == Tag::StringLiteral {
            match de_str_s(v) {
                Option::Some(x) => Option::Some(TsLitV::Str(x)),
                Option::None => Option::None,
            }
        } else if tag == Tag::BooleanLiteral {
            match de_bool_s(v) {
                Option::Some(b) => Option::Some(TsLitV::Bool(b)),
                Option::None => Option::None,
            }
        } else {
            Option::None
        },
        _ => Option::None,
    }
}

pub open spec fn de_enum_member_id_s(v: SerValueV) -> Option<TsEnumMemberIdV> {
    match v {
        SerValueV::Obj(tag, _) => if tag == Tag::Identifier {
            match de_ident_s(v) {
                Option::Some(i) => Option::Some(TsEnumMemberIdV::Ident(i)),
                Option::None => Option::None,
            }
        } else if tag == Tag::StringLiteral {
            match de_str_s(v) {
                Option::Some(x) => Option::Some(TsEnumMemberIdV::Str(x)),
                Option::None => Option::None,
            }
        } else {
            Option::None
        },
        _ => Option::None,
    }
}

pub open spec fn de_module_name_s(v: SerValueV) -> Option<TsModuleNameV> {
    match v {
        SerValueV::Obj(tag, _) => if tag == Tag::Identifier {
            match de_ident_s(v) {
                Option::Some(i) => Option::Some(TsModuleNameV::Ident(i)),
                Option::None => Option::None,
            }
        } else if tag == Tag::StringLiteral {
            match de_str_s(v) {
                Option::Some(x) => Option::Some(TsModuleNameV::Str(x)),
                Option::None => Option::None,
            }
        } else {
            Option::None
        },
        _ => Option::None,
    }
}

pub open spec fn de_entity_name_s(v: SerValueV) -> Option<TsEntityNameV>
    decreases v via de_entity_name_s_decreases
{
    match v {
        SerValueV::Obj(tag, fields) => if tag == Tag::Identifier {
            match de_ident_s(v) {
                Option::Some(i) => Option::Some(TsEntityNameV::Ident(i)),
                Option::None => Option::None,
            }
        } else if tag == Tag::TsQualifiedName {
            match (lookup_s(fields, Key::Left), lookup_s(fields, Key::Right)) {
                (Option::Some(lv), Option::Some(rv)) => {
                    match (de_entity_name_s(lv), de_ident_s(rv)) {
                        (Option::Some(left), Option::Some(right)) => Option::Some(
                            TsEntityNameV::Qualified { left: Box::new(left), right },
                        ),
                        _ => Option::None,
                    }
                },
                _ => Option::None,
            }
        } else {
            Option::None
        },
        _ => Option::None,
    }
}

#[via_fn]
proof fn de_entity_name_s_decreases(v: SerValueV) {
    match v {
        SerValueV::Obj(tag, fields) => {
            if tag == Tag::TsQualifiedName {
                if lookup_s(fields, Key::Left) is Some {
                    lemma_lookup_height(fields, Key::Left);
                    assert(decreases_to!(v => v->Obj_1));
                }
            }
        },
        _ => {},
    }
}

/// The value a successful lookup returns sits inside the field list.
pub proof fn lemma_lookup_height(fields: Seq<FieldV>, k: Key)
    requires
        lookup_s(fields, k) is Some,
    ensures
        decreases_to!(fields => lookup_s(fields, k)->Some_0),
    decreases fields.len(),
{
    if fields.len() > 0 && fields[0].key == k {
        assert(decreases_to!(fields => fields[0]));
        assert(decreases_to!(fields[0] => fields[0].value));
    } else {
        lemma_lookup_height(fields.drop_first(), k);
        assert(decreases_to!(fields => fields.subrange(1, fields.len() as int)));
        assert(fields.drop_first() =~= fields.subrange(1, fields.len() as int));
    }
}

// ---------------------------------------------------------------------
// Executable serialization.
// ---------------------------------------------------------------------
fn mk_span_value(s: Span) -> (r: SerValue)
    ensures
        view_ser_value(r) == ser_span_s(s),
{
    let mut vs: Vec<SerValue> = Vec::new();
    vs.push(SerValue::Int(s.lo as i64));
    vs.push(SerValue::Int(s.hi as i64));
    let r = SerValue::Arr(vs);
    proof {
        reveal_with_fuel(view_values, 3);
        assert(view_values(r->Arr_0@) =~= seq![
            SerValueV::Int(s.lo as i64),
            SerValueV::Int(s.hi as i64),
        ]);
    }
    r
}

pub fn serialize_true_plus_minus(t: TruePlusMinus) -> (r: SerValue)
    ensures
        view_ser_value(r) == ser_tri_s(t),
{
    match t {
        TruePlusMinus::True => SerValue::Bool(true),
        TruePlusMinus::Plus => SerValue::Str(String::from_str("+")),
        TruePlusMinus::Minus => SerValue::Str(String::from_str("-")),
    }
}

/// Deserialize the tri-state modifier. Exactly boolean `true` and the
/// strings `"+"` and `"-"` are accepted; any other value is returned in
/// the error.
pub fn deserialize_true_plus_minus(v: SerValue) -> (r: Result<TruePlusMinus, SerError>)
    ensures
        r matches Ok(t) ==> de_tri_s(view_ser_value(v)) == Some(t),
        r is Ok <==> de_tri_s(view_ser_value(v)) is Some,
        r matches Err(e) ==> e == (SerError::Invalid { value: v }),
{
    match v {
        SerValue::Bool(b) => {
            if b {
                Ok(TruePlusMinus::True)
            } else {
                Err(SerError::Invalid { value: SerValue::Bool(b) })
            }
        },
        SerValue::Str(s) => {
            if s == String::from_str("+") {
                Ok(TruePlusMinus::Plus)
            } else if s == String::from_str("-") {
                Ok(TruePlusMinus::Minus)
            } else {
                Err(SerError::Invalid { value: SerValue::Str(s) })
            }
        },
        other => Err(SerError::Invalid { value: other }),
    }
}

pub fn serialize_keyword_kind(k: TsKeywordTypeKind) -> (r: SerValue)
    ensures
        view_ser_value(r) == ser_keyword_kind_s(k),
{
    match k {
        TsKeywordTypeKind::TsAnyKeyword => SerValue::Str(String::from_str("any")),
        TsKeywordTypeKind::TsUnknownKeyword => SerValue::Str(String::from_str("unknown")),
        TsKeywordTypeKind::TsNumberKeyword => SerValue::Str(String::from_str("number")),
        TsKeywordTypeKind::TsObjectKeyword => SerValue::Str(String::from_str("object")),
        TsKeywordTypeKind::TsBooleanKeyword => SerValue::Str(String::from_str("boolean")),
        TsKeywordTypeKind::TsBigIntKeyword => SerValue::Str(String::from_str("bigint")),
        TsKeywordTypeKind::TsStringKeyword => SerValue::Str(String::from_str("string")),
        TsKeywordTypeKind::TsSymbolKeyword => SerValue::Str(String::from_str("symbol")),
        TsKeywordTypeKind::TsVoidKeyword => SerValue::Str(String::from_str("void")),
        TsKeywordTypeKind::TsUndefinedKeyword => SerValue::Str(String::from_str("undefined")),
        TsKeywordTypeKind::TsNullKeyword => SerValue::Str(String::from_str("null")),
        TsKeywordTypeKind::TsNeverKeyword => SerValue::Str(String::from_str("never")),
    }
}

pub fn deserialize_keyword_kind(v: SerValue) -> (r: Result<TsKeywordTypeKind, SerError>)
    ensures
        r matches Ok(k) ==> de_keyword_kind_s(view_ser_value(v)) == Some(k),
        r is Ok <==> de_keyword_kind_s(view_ser_value(v)) is Some,
        r matches Err(e) ==> e == (SerError::Invalid { value: v }),
{
    match v {
        SerValue::Str(s) => {
            if s == String::from_str("any") {
                Ok(TsKeywordTypeKind::TsAnyKeyword)
            } else if s == String::from_str("unknown") {
                Ok(TsKeywordTypeKind::TsUnknownKeyword)
            } else if s == String::from_str("number") {
                Ok(TsKeywordTypeKind::TsNumberKeyword)
            } else if s == String::from_str("object") {
                Ok(TsKeywordTypeKind::TsObjectKeyword)
            } else if s == String::from_str("boolean") {
                Ok(TsKeywordTypeKind::TsBooleanKeyword)
            } else if s == String::from_str("bigint") {
                Ok(TsKeywordTypeKind::TsBigIntKeyword)
            } else if s == String::from_str("string") {
                Ok(TsKeywordTypeKind::TsStringKeyword)
            } else if s == String::from_str("symbol") {
                Ok(TsKeywordTypeKind::TsSymbolKeyword)
            } else if s == String::from_str("void") {
                Ok(TsKeywordTypeKind::TsVoidKeyword)
            } else if s == String::from_str("undefined") {
                Ok(TsKeywordTypeKind::TsUndefinedKeyword)
            } else if s == String::from_str("null") {
                Ok(TsKeywordTypeKind::TsNullKeyword)
            } else if s == String::from_str("never") {
                Ok(TsKeywordTypeKind::TsNeverKeyword)
            } else {
                Err(SerError::Invalid { value: SerValue::Str(s) })
            }
        },
        other => Err(SerError::Invalid { value: other }),
    }
}

pub fn serialize_ident(i: &Ident) -> (r: SerValue)
    ensures
        view_ser_value(r) == ser_ident_s(view_ident(*i)),
{
    let mut fields: Vec<SerField> = Vec::new();
    fields.push(SerField { key: Key::Span, value: mk_span_value(i.span) });
    fields.push(SerField { key: Key::Value, value: SerValue::Str(i.sym.clone()) });
    let r = SerValue::Obj(Tag::Identifier, fields);
    proof {
        lemma_view_fields(r->Obj_1@);
        assert(view_fields(r->Obj_1@) =~= ser_ident_s(view_ident(*i))->Obj_1);
    }
    r
}

pub fn serialize_entity_name(n: &TsEntityName) -> (r: SerValue)
    ensures
        view_ser_value(r) == ser_entity_name_s(view_entity_name(*n)),
    decreases *n,
{
    match n {
        TsEntityName::Ident(i) => serialize_ident(i),
        TsEntityName::TsQualifiedName(q) => {
            let mut fields: Vec<SerField> = Vec::new();
            fields.push(SerField { key: Key::Left, value: serialize_entity_name(&q.left) });
            fields.push(SerField { key: Key::Right, value: serialize_ident(&q.right) });
            let r = SerValue::Obj(Tag::TsQualifiedName, fields);
            proof {
                lemma_view_fields(r->Obj_1@);
                assert(view_fields(r->Obj_1@) =~= ser_entity_name_s(
                    view_entity_name(*n),
                )->Obj_1);
            }
            r
        },
    }
}

// ---------------------------------------------------------------------
// Executable deserialization.
// ---------------------------------------------------------------------
/// Find the first field under a key.
#[verifier::loop_isolation(false)]
fn lookup<'a>(fields: &'a Vec<SerField>, k: Key) -> (r: Option<&'a SerValue>)
    ensures
        r matches Some(x) ==> lookup_s(view_fields(fields@), k) == Some(view_ser_value(*x)),
        r is None ==> lookup_s(view_fields(fields@), k) is None,
        r matches Some(x) ==> exists|i: int|
            0 <= i < fields@.len() && fields@[i].key == k && *x == fields@[i].value,
{
    proof {
        lemma_view_fields(fields@);
        assert(view_fields(fields@).subrange(0, fields@.len() as int) =~= view_fields(fields@));
    }
    let n = fields.len();
    let mut i: usize = 0;
    while i < n
        invariant
            0 <= i <= n,
            n == fields@.len(),
            lookup_s(view_fields(fields@), k) == lookup_s(
                view_fields(fields@).subrange(i as int, n as int),
                k,
            ),
        decreases n - i,
    {
        proof {
            assert(view_fields(fields@).subrange(i as int, n as int)[0] == view_fields(
                fields@,
            )[i as int]);
        }
        if fields[i].key == k {
            return Some(&fields[i].value);
        }
        proof {
            assert(view_fields(fields@).subrange(i as int, n as int).drop_first() =~= view_fields(
                fields@,
            ).subrange(i + 1, n as int));
        }
        i = i + 1;
    }
    proof {
        assert(view_fields(fields@).subrange(n as int, n as int) =~= Seq::<FieldV>::empty());
    }
    None
}

fn deserialize_span(v: &SerValue) -> (r: Result<Span, SerError>)
    ensures
        r matches Ok(s) ==> de_span_s(view_ser_value(*v)) == Some(s),
        r is Ok <==> de_span_s(view_ser_value(*v)) is Some,
{
    match v {
        SerValue::Arr(vs) => {
            proof {
                lemma_view_values(vs@);
            }
            if vs.len() == 2 {
                let lo_ok = match &vs[0] {
                    SerValue::Int(x) => *x >= 0 && *x <= u32::MAX as i64,
                    _ => false,
                };
                let hi_ok = match &vs[1] {
                    SerValue::Int(x) => *x >= 0 && *x <= u32::MAX as i64,
                    _ => false,
                };
                if lo_ok && hi_ok {
                    let lo = match &vs[0] {
                        SerValue::Int(x) => *x,
                        _ => 0,
                    };
                    let hi = match &vs[1] {
                        SerValue::Int(x) => *x,
                        _ => 0,
                    };
                    Ok(Span { lo: lo as u32, hi: hi as u32 })
                } else {
                    Err(SerError::WrongShape)
                }
            } else {
                Err(SerError::WrongShape)
            }
        },
        _ => Err(SerError::WrongShape),
    }
}

pub proof fn lemma_view_values(s: Seq<SerValue>)
    ensures
        view_values(s).len() == s.len(),
        forall|i: int| 0 <= i < s.len() ==> view_values(s)[i] == view_ser_value(s[i]),
    decreases s.len(),
{
    if s.len() > 0 {
        lemma_view_values(s.drop_first());
    }
}

pub fn deserialize_ident(v: &SerValue) -> (r: Result<Ident, SerError>)
    ensures
        r matches Ok(i) ==> de_ident_s(view_ser_value(*v)) == Some(view_ident(i)),
        r is Ok <==> de_ident_s(view_ser_value(*v)) is Some,
{
    match v {
        SerValue::Obj(tag, fields) => {
            if *tag == Tag::Identifier {
                let span = match lookup(fields, Key::Span) {
                    Some(sv) => match deserialize_span(sv) {
                        Ok(s) => s,
                        Err(e) => {
                            return Err(e);
                        },
                    },
                    None => {
                        return Err(SerError::Missing { key: Key::Span });
                    },
                };
                match lookup(fields, Key::Value) {
                    Some(SerValue::Str(sym)) => Ok(Ident { span, sym: sym.clone() }),
                    Some(_) => Err(SerError::BadField { key: Key::Value }),
                    None => Err(SerError::Missing { key: Key::Value }),
                }
            } else {
                Err(SerError::WrongTag { found: *tag })
            }
        },
        _ => Err(SerError::WrongShape),
    }
}

pub fn deserialize_entity_name(v: &SerValue) -> (r: Result<TsEntityName, SerError>)
    ensures
        r matches Ok(n) ==> de_entity_name_s(view_ser_value(*v)) == Some(view_entity_name(n)),
        r is Ok <==> de_entity_name_s(view_ser_value(*v)) is Some,
    decreases *v,
{
    match v {
        SerValue::Obj(tag, fields) => {
            if *tag == Tag::Identifier {
                match deserialize_ident(v) {
                    Ok(i) => Ok(TsEntityName::Ident(i)),
                    Err(e) => Err(e),
                }
            } else if *tag == Tag::TsQualifiedName {
                let lv = match lookup(fields, Key::Left) {
                    Some(x) => x,
                    None => {
                        return Err(SerError::Missing { key: Key::Left });
                    },
                };
                proof {
                    let i = choose|i: int|
                        0 <= i < fields@.len() && fields@[i].key == Key::Left && *lv
                            == fields@[i].value;
                    assert(decreases_to!(*v => v->Obj_1));
                    assert(decreases_to!(v->Obj_1 => v->Obj_1@));
                    assert(decreases_to!(v->Obj_1@ => v->Obj_1@[i]));
                    assert(decreases_to!(v->Obj_1@[i] => v->Obj_1@[i].value));
                }
                let left = match deserialize_entity_name(lv) {
                    Ok(n) => n,
                    Err(e) => {
                        return Err(e);
                    },
                };
                let right = match lookup(fields, Key::Right) {
                    Some(rv) => match deserialize_ident(rv) {
                        Ok(i) => i,
                        Err(e) => {
                            return Err(e);
                        },
                    },
                    None => {
                        return Err(SerError::Missing { key: Key::Right });
                    },
                };
                Ok(
                    TsEntityName::TsQualifiedName(
                        Box::new(TsQualifiedName { left, right }),
                    ),
                )
            } else {
                Err(SerError::WrongTag { found: *tag })
            }
        },
        _ => Err(SerError::WrongShape),
    }
}

pub fn serialize_accessibility(a: Accessibility) -> (r: SerValue)
    ensures
        view_ser_value(r) == ser_accessibility_s(a),
{
    match a {
        Accessibility::Public => SerValue::Str(String::from_str("public")),
        Accessibility::Protected => SerValue::Str(String::from_str("protected")),
        Accessibility::Private => SerValue::Str(String::from_str("private")),
    }
}

pub fn deserialize_accessibility(v: SerValue) -> (r: Result<Accessibility, SerError>)
    ensures
        r matches Ok(a) ==> de_accessibility_s(view_ser_value(v)) == Some(a),
        r is Ok <==> de_accessibility_s(view_ser_value(v)) is Some,
        r matches Err(e) ==> e == (SerError::Invalid { value: v }),
{
    match v {
        SerValue::Str(s) => {
            if s == String::from_str("public") {
                Ok(Accessibility::Public)
            } else if s == String::from_str("protected") {
                Ok(Accessibility::Protected)
            } else if s == String::from_str("private") {
                Ok(Accessibility::Private)
            } else {
                Err(SerError::Invalid { value: SerValue::Str(s) })
            }
        },
        other => Err(SerError::Invalid { value: other }),
    }
}

pub fn serialize_type_operator(op: TsTypeOperatorOp) -> (r: SerValue)
    ensures
        view_ser_value(r) == ser_type_operator_s(op),
{
    match op {
        TsTypeOperatorOp::KeyOf => SerValue::Str(String::from_str("keyof")),
        TsTypeOperatorOp::Unique => SerValue::Str(String::from_str("unique")),
    }
}

pub fn deserialize_type_operator(v: SerValue) -> (r: Result<TsTypeOperatorOp, SerError>)
    ensures
        r matches Ok(op) ==> de_type_operator_s(view_ser_value(v)) == Some(op),
        r is Ok <==> de_type_operator_s(view_ser_value(v)) is Some,
        r matches Err(e) ==> e == (SerError::Invalid { value: v }),
{
    match v {
        SerValue::Str(s) => {
            if s == String::from_str("keyof") {
                Ok(TsTypeOperatorOp::KeyOf)
            } else if s == String::from_str("unique") {
                Ok(TsTypeOperatorOp::Unique)
            } else {
                Err(SerError::Invalid { value: SerValue::Str(s) })
            }
        },
        other => Err(SerError::Invalid { value: other }),
    }
}

pub fn serialize_str(s: &Str) -> (r: SerValue)
    ensures
        view_ser_value(r) == ser_str_s(view_str(*s)),
{
    let mut fields: Vec<SerField> = Vec::new();
    fields.push(SerField { key: Key::Span, value: mk_span_value(s.span) });
    fields.push(SerField { key: Key::Value, value: SerValue::Str(s.value.clone()) });
    let r = SerValue::Obj(Tag::StringLiteral, fields);
    proof {
        lemma_view_fields(r->Obj_1@);
        assert(view_fields(r->Obj_1@) =~= ser_str_s(view_str(*s))->Obj_1);
    }
    r
}

pub fn serialize_bool(b: &Bool) -> (r: SerValue)
    ensures
        view_ser_value(r) == ser_bool_s(*b),
{
    let mut fields: Vec<SerField> = Vec::new();
    fields.push(SerField { key: Key::Span, value: mk_span_value(b.span) });
    fields.push(SerField { key: Key::Value, value: SerValue::Bool(b.value) });
    let r = SerValue::Obj(Tag::BooleanLiteral, fields);
    proof {
        lemma_view_fields(r->Obj_1@);
        assert(view_fields(r->Obj_1@) =~= ser_bool_s(*b)->Obj_1);
    }
    r
}

pub fn serialize_number(n: &Number) -> (r: SerValue)
    ensures
        view_ser_value(r) == ser_number_s(*n),
{
    let mut fields: Vec<SerField> = Vec::new();
    fields.push(SerField { key: Key::Span, value: mk_span_value(n.span) });
    fields.push(SerField { key: Key::Value, value: SerValue::Int(n.value) });
    let r = SerValue::Obj(Tag::NumericLiteral, fields);
    proof {
        lemma_view_fields(r->Obj_1@);
        assert(view_fields(r->Obj_1@) =~= ser_number_s(*n)->Obj_1);
    }
    r
}

pub fn serialize_ts_lit(l: &TsLit) -> (r: SerValue)
    ensures
        view_ser_value(r) == ser_ts_lit_s(view_ts_lit(*l)),
{
    match l {
        TsLit::Number(n) => serialize_number(n),
        TsLit::Str(s) => serialize_str(s),
        TsLit::Bool(b) => serialize_bool(b),
    }
}

pub fn serialize_enum_member_id(i: &TsEnumMemberId) -> (r: SerValue)
    ensures
        view_ser_value(r) == ser_enum_member_id_s(view_enum_member_id(*i)),
{
    match i {
        TsEnumMemberId::Ident(x) => serialize_ident(x),
        TsEnumMemberId::Str(s) => serialize_str(s),
    }
}

pub fn serialize_module_name(i: &TsModuleName) -> (r: SerValue)
    ensures
        view_ser_value(r) == ser_module_name_s(view_module_name(*i)),
{
    match i {
        TsModuleName::Ident(x) => serialize_ident(x),
        TsModuleName::Str(s) => serialize_str(s),
    }
}

pub fn deserialize_str(v: &SerValue) -> (r: Result<Str, SerError>)
    ensures
        r matches Ok(s) ==> de_str_s(view_ser_value(*v)) == Some(view_str(s)),
        r is Ok <==> de_str_s(view_ser_value(*v)) is Some,
{
    match v {
        SerValue::Obj(tag, fields) => {
            if *tag == Tag::StringLiteral {
                let span = match lookup(fields, Key::Span) {
                    Some(sv) => match deserialize_span(sv) {
                        Ok(s) => s,
                        Err(e) => {
                            return Err(e);
                        },
                    },
                    None => {
                        return Err(SerError::Missing { key: Key::Span });
                    },
                };
                match lookup(fields, Key::Value) {
                    Some(SerValue::Str(value)) => Ok(Str { span, value: value.clone() }),
                    Some(_) => Err(SerError::BadField { key: Key::Value }),
                    None => Err(SerError::Missing { key: Key::Value }),
                }
            } else {
                Err(SerError::WrongTag { found: *tag })
            }
        },
        _ => Err(SerError::WrongShape),
    }
}

pub fn deserialize_bool(v: &SerValue) -> (r: Result<Bool, SerError>)
    ensures
        r matches Ok(b) ==> de_bool_s(view_ser_value(*v)) == Some(b),
        r is Ok <==> de_bool_s(view_ser_value(*v)) is Some,
{
    match v {
        SerValue::Obj(tag, fields) => {
            if *tag == Tag::BooleanLiteral {
                let span = match lookup(fields, Key::Span) {
                    Some(sv) => match deserialize_span(sv) {
                        Ok(s) => s,
                        Err(e) => {
                            return Err(e);
                        },
                    },
                    None => {
                        return Err(SerError::Missing { key: Key::Span });
                    },
                };
                match lookup(fields, Key::Value) {
                    Some(SerValue::Bool(value)) => Ok(Bool { span, value: *value }),
                    Some(_) => Err(SerError::BadField { key: Key::Value }),
                    None => Err(SerError::Missing { key: Key::Value }),
                }
            } else {
                Err(SerError::WrongTag { found: *tag })
            }
        },
        _ => Err(SerError::WrongShape),
    }
}

pub fn deserialize_number(v: &SerValue) -> (r: Result<Number, SerError>)
    ensures
        r matches Ok(n) ==> de_number_s(view_ser_value(*v)) == Some(n),
        r is Ok <==> de_number_s(view_ser_value(*v)) is Some,
{
    match v {
        SerValue::Obj(tag, fields) => {
            if *tag == Tag::NumericLiteral {
                let span = match lookup(fields, Key::Span) {
                    Some(sv) => match deserialize_span(sv) {
                        Ok(s) => s,
                        Err(e) => {
                            return Err(e);
                        },
                    },
                    None => {
                        return Err(SerError::Missing { key: Key::Span });
                    },
                };
                match lookup(fields, Key::Value) {
                    Some(SerValue::Int(value)) => Ok(Number { span, value: *value }),
                    Some(_) => Err(SerError::BadField { key: Key::Value }),
                    None => Err(SerError::Missing { key: Key::Value }),
                }
            } else {
                Err(SerError::WrongTag { found: *tag })
            }
        },
        _ => Err(SerError::WrongShape),
    }
}

pub fn deserialize_ts_lit(v: &SerValue) -> (r: Result<TsLit, SerError>)
    ensures
        r matches Ok(l) ==> de_ts_lit_s(view_ser_value(*v)) == Some(view_ts_lit(l)),
        r is Ok <==> de_ts_lit_s(view_ser_value(*v)) is Some,
{
    match v {
        SerValue::Obj(tag, _) => {
            if *tag == Tag::NumericLiteral {
                match deserialize_number(v) {
                    Ok(n) => Ok(TsLit::Number(n)),
                    Err(e) => Err(e),
                }
            } else if *tag == Tag::StringLiteral {
                match deserialize_str(v) {
                    Ok(s) => Ok(TsLit::Str(s)),
                    Err(e) => Err(e),
                }
            } else if *tag == Tag::BooleanLiteral {
                match deserialize_bool(v) {
                    Ok(b) => Ok(TsLit::Bool(b)),
                    Err(e) => Err(e),
                }
            } else {
                Err(SerError::WrongTag { found: *tag })
            }
        },
        _ => Err(SerError::WrongShape),
    }
}

pub fn deserialize_enum_member_id(v: &SerValue) -> (r: Result<TsEnumMemberId, SerError>)
    ensures
        r matches Ok(i) ==> de_enum_member_id_s(view_ser_value(*v)) == Some(
            view_enum_member_id(i),
        ),
        r is Ok <==> de_enum_member_id_s(view_ser_value(*v)) is Some,
{
    match v {
        SerValue::Obj(tag, _) => {
            if *tag == Tag::Identifier {
                match deserialize_ident(v) {
                    Ok(i) => Ok(TsEnumMemberId::Ident(i)),
                    Err(e) => Err(e),
                }
            } else if *tag == Tag::StringLiteral {
                match deserialize_str(v) {
                    Ok(s) => Ok(TsEnumMemberId::Str(s)),
                    Err(e) => Err(e),
                }
            } else {
                Err(SerError::WrongTag { found: *tag })
            }
        },
        _ => Err(SerError::WrongShape),
    }
}

pub fn deserialize_module_name(v: &SerValue) -> (r: Result<TsModuleName, SerError>)
    ensures
        r matches Ok(i) ==> de_module_name_s(view_ser_value(*v)) == Some(view_module_name(i)),
        r is Ok <==> de_module_name_s(view_ser_value(*v)) is Some,
{
    match v {
        SerValue::Obj(tag, _) => {
            if *tag == Tag::Identifier {
                match deserialize_ident(v) {
                    Ok(i) => Ok(TsModuleName::Ident(i)),
                    Err(e) => Err(e),
                }
            } else if *tag == Tag::StringLiteral {
                match deserialize_str(v) {
                    Ok(s) => Ok(TsModuleName::Str(s)),
                    Err(e) => Err(e),
                }
            } else {
                Err(SerError::WrongTag { found: *tag })
            }
        },
        _ => Err(SerError::WrongShape),
    }
}

// ---------------------------------------------------------------------
// The round-trip law: deserializing what a node serializes to yields
// the node again.
// ---------------------------------------------------------------------
pub proof fn lemma_roundtrip_span(s: Span)
    ensures
        de_span_s(ser_span_s(s)) == Some(s),
{
}

pub proof fn lemma_roundtrip_tri(t: TruePlusMinus)
    ensures
        de_tri_s(ser_tri_s(t)) == Some(t),
{
    reveal_strlit("+");
    reveal_strlit("-");
    assert("+"@.len() == 1 && "-"@.len() == 1);
    assert("+"@[0] == '+' && "-"@[0] == '-');
}

pub proof fn lemma_roundtrip_keyword_kind(k: TsKeywordTypeKind)
    ensures
        de_keyword_kind_s(ser_keyword_kind_s(k)) == Some(k),
{
    reveal_strlit("any");
    reveal_strlit("unknown");
    reveal_strlit("number");
    reveal_strlit("object");
    reveal_strlit("boolean");
    reveal_strlit("bigint");
    reveal_strlit("string");
    reveal_strlit("symbol");
    reveal_strlit("void");
    reveal_strlit("undefined");
    reveal_strlit("null");
    reveal_strlit("never");
    assert("any"@.len() == 3 && "unknown"@.len() == 7 && "number"@.len() == 6 && "object"@.len()
        == 6 && "boolean"@.len() == 7 && "bigint"@.len() == 6 && "string"@.len() == 6
        && "symbol"@.len() == 6 && "void"@.len() == 4 && "undefined"@.len() == 9 && "null"@.len()
        == 4 && "never"@.len() == 5);
    assert("number"@[0] == 'n' && "object"@[0] == 'o' && "bigint"@[0] == 'b' && "string"@[0] == 's'
        && "symbol"@[0] == 's' && "string"@[1] == 't' && "symbol"@[1] == 'y');
    assert("unknown"@[0] == 'u' && "boolean"@[0] == 'b');
    assert("void"@[0] == 'v' && "null"@[0] == 'n');
}

pub proof fn lemma_roundtrip_ident(i: IdentV)
    ensures
        de_ident_s(ser_ident_s(i)) == Some(i),
{
    reveal_with_fuel(lookup_s, 3);
    let fields = ser_ident_s(i)->Obj_1;
    assert(lookup_s(fields, Key::Span) == Some(ser_span_s(i.span)));
    assert(fields.drop_first()[0] == (FieldV { key: Key::Value, value: SerValueV::Str(i.sym) }));
    assert(lookup_s(fields, Key::Value) == Some(SerValueV::Str(i.sym)));
    lemma_roundtrip_span(i.span);
}

pub proof fn lemma_roundtrip_accessibility(a: Accessibility)
    ensures
        de_accessibility_s(ser_accessibility_s(a)) == Some(a),
{
    reveal_strlit("public");
    reveal_strlit("protected");
    reveal_strlit("private");
    assert("public"@.len() == 6 && "protected"@.len() == 9 && "private"@.len() == 7);
}

pub proof fn lemma_roundtrip_type_operator(op: TsTypeOperatorOp)
    ensures
        de_type_operator_s(ser_type_operator_s(op)) == Some(op),
{
    reveal_strlit("keyof");
    reveal_strlit("unique");
    assert("keyof"@.len() == 5 && "unique"@.len() == 6);
}

pub proof fn lemma_roundtrip_str(s: StrV)
    ensures
        de_str_s(ser_str_s(s)) == Some(s),
{
    reveal_with_fuel(lookup_s, 3);
    let fields = ser_str_s(s)->Obj_1;
    assert(lookup_s(fields, Key::Span) == Some(ser_span_s(s.span)));
    assert(fields.drop_first()[0] == (FieldV { key: Key::Value, value: SerValueV::Str(s.value) }));
    assert(lookup_s(fields, Key::Value) == Some(SerValueV::Str(s.value)));
    lemma_roundtrip_span(s.span);
}

pub proof fn lemma_roundtrip_bool(b: Bool)
    ensures
        de_bool_s(ser_bool_s(b)) == Some(b),
{
    reveal_with_fuel(lookup_s, 3);
    let fields = ser_bool_s(b)->Obj_1;
    assert(lookup_s(fields, Key::Span) == Some(ser_span_s(b.span)));
    assert(fields.drop_first()[0] == (FieldV { key: Key::Value, value: SerValueV::Bool(b.value) }));
    assert(lookup_s(fields, Key::Value) == Some(SerValueV::Bool(b.value)));
    lemma_roundtrip_span(b.span);
}

pub proof fn lemma_roundtrip_number(n: Number)
    ensures
        de_number_s(ser_number_s(n)) == Some(n),
{
    reveal_with_fuel(lookup_s, 3);
    let fields = ser_number_s(n)->Obj_1;
    assert(lookup_s(fields, Key::Span) == Some(ser_span_s(n.span)));
    assert(fields.drop_first()[0] == (FieldV { key: Key::Value, value: SerValueV::Int(n.value) }));
    assert(lookup_s(fields, Key::Value) == Some(SerValueV::Int(n.value)));
    lemma_roundtrip_span(n.span);
}

pub proof fn lemma_roundtrip_ts_lit(l: TsLitV)
    ensures
        de_ts_lit_s(ser_ts_lit_s(l)) == Some(l),
{
    match l {
        TsLitV::Num(n) => lemma_roundtrip_number(n),
        TsLitV::Str(s) => lemma_roundtrip_str(s),
        TsLitV::Bool(b) => lemma_roundtrip_bool(b),
    }
}

pub proof fn lemma_roundtrip_enum_member_id(i: TsEnumMemberIdV)
    ensures
        de_enum_member_id_s(ser_enum_member_id_s(i)) == Some(i),
{
    match i {
        TsEnumMemberIdV::Ident(x) => lemma_roundtrip_ident(x),
        TsEnumMemberIdV::Str(s) => lemma_roundtrip_str(s),
    }
}

pub proof fn lemma_roundtrip_module_name(i: TsModuleNameV)
    ensures
        de_module_name_s(ser_module_name_s(i)) == Some(i),
{
    match i {
        TsModuleNameV::Ident(x) => lemma_roundtrip_ident(x),
        TsModuleNameV::Str(s) => lemma_roundtrip_str(s),
    }
}

/// Round trip of entity names, by induction over the chain.
pub proof fn lemma_roundtrip_entity_name(n: TsEntityNameV)
    ensures
        de_entity_name_s(ser_entity_name_s(n)) == Some(n),
    decreases n,
{
    match n {
        TsEntityNameV::Ident(i) => {
            lemma_roundtrip_ident(i);
        },
        TsEntityNameV::Qualified { left, right } => {
            reveal_with_fuel(lookup_s, 3);
            lemma_roundtrip_entity_name(*left);
            lemma_roundtrip_ident(right);
            let fields = ser_entity_name_s(n)->Obj_1;
            assert(lookup_s(fields, Key::Left) == Some(ser_entity_name_s(*left)));
            assert(fields.drop_first()[0] == (FieldV {
                key: Key::Right,
                value: ser_ident_s(right),
            }));
            assert(lookup_s(fields, Key::Right) == Some(ser_ident_s(right)));
            assert(de_ident_s(ser_ident_s(right)) == Some(right));
        },
    }
}

} // verus!
