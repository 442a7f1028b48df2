//! The TypeScript type-annotation sublanguage.
//!
//! These nodes are structural data only: they are carried through passes
//! and serialized, never evaluated.
use crate::class::Decorator;
use crate::expr::Expr;
use crate::ident::Ident;
use crate::lit::Bool;
use crate::lit::Number;
use crate::lit::Str;
use crate::module::ModuleItem;
use crate::pat::AssignPat;
use crate::pat::ObjectPat;
use crate::pat::RestPat;
use crate::span::Span;
use vstd::prelude::*;

verus! {

#[derive(Debug, PartialEq, Eq)]
pub struct TsTypeAnn {
    pub span: Span,
    pub type_ann: Box<TsType>,
}

#[derive(Debug, PartialEq, Eq)]
pub struct TsTypeParamDecl {
    pub span: Span,
    pub params: Vec<TsTypeParam>,
}

#[derive(Debug, PartialEq, Eq)]
pub struct TsTypeParam {
    pub span: Span,
    pub name: Ident,
    pub constraint: Option<Box<TsType>>,
    pub default: Option<Box<TsType>>,
}

#[derive(Debug, PartialEq, Eq)]
pub struct TsTypeParamInstantiation {
    pub span: Span,
    pub params: Vec<Box<TsType>>,
}

#[derive(Debug, PartialEq, Eq)]
pub struct TsTypeCastExpr {
    pub span: Span,
    pub expr: Box<Expr>,
    pub type_ann: TsTypeAnn,
}

/// A constructor-parameter property. At least one of `accessibility` or
/// `readonly` must be set; the parser, not the tree, enforces that.
#[derive(Debug, PartialEq, Eq)]
pub struct TsParamProp {
    pub span: Span,
    pub decorators: Vec<Decorator>,
    pub accessibility: Option<Accessibility>,
    pub readonly: bool,
    pub param: TsParamPropParam,
}

#[derive(Debug, PartialEq, Eq)]
pub enum TsParamPropParam {
    Ident(Ident),
    Assign(AssignPat),
}

#[derive(Debug, PartialEq, Eq)]
pub struct TsQualifiedName {
    pub left: TsEntityName,
    pub right: Ident,
}

#[derive(Debug, PartialEq, Eq)]
pub enum TsEntityName {
    TsQualifiedName(Box<TsQualifiedName>),
    Ident(Ident),
}

#[derive(Debug, PartialEq, Eq)]
pub enum TsSignatureDecl {
    TsCallSignatureDecl(TsCallSignatureDecl),
    TsConstructSignatureDecl(TsConstructSignatureDecl),
    TsMethodSignature(TsMethodSignature),
    TsFnType(TsFnType),
    TsConstructorType(TsConstructorType),
}

#[derive(Debug, PartialEq, Eq)]
pub enum TsTypeElement {
    TsCallSignatureDecl(TsCallSignatureDecl),
    TsConstructSignatureDecl(TsConstructSignatureDecl),
    TsPropertySignature(TsPropertySignature),
    TsMethodSignature(TsMethodSignature),
    TsIndexSignature(TsIndexSignature),
}

#[derive(Debug, PartialEq, Eq)]
pub struct TsCallSignatureDecl {
    pub span: Span,
    pub params: Vec<TsFnParam>,
    pub type_ann: Option<TsTypeAnn>,
    pub type_params: Option<TsTypeParamDecl>,
}

#[derive(Debug, PartialEq, Eq)]
pub struct TsConstructSignatureDecl {
    pub span: Span,
    pub params: Vec<TsFnParam>,
    pub type_ann: Option<TsTypeAnn>,
    pub type_params: Option<TsTypeParamDecl>,
}

#[derive(Debug, PartialEq, Eq)]
pub struct TsPropertySignature {
    pub span: Span,
    pub readonly: bool,
    pub key: Box<Expr>,
    pub computed: bool,
    pub optional: bool,
    pub init: Option<Box<Expr>>,
    pub params: Vec<TsFnParam>,
    pub type_ann: Option<TsTypeAnn>,
    pub type_params: Option<TsTypeParamDecl>,
}

#[derive(Debug, PartialEq, Eq)]
pub struct TsMethodSignature {
    pub span: Span,
    pub readonly: bool,
    pub key: Box<Expr>,
    pub computed: bool,
    pub optional: bool,
    pub params: Vec<TsFnParam>,
    pub type_ann: Option<TsTypeAnn>,
    pub type_params: Option<TsTypeParamDecl>,
}

#[derive(Debug, PartialEq, Eq)]
pub struct TsIndexSignature {
    pub params: Vec<TsFnParam>,
    pub type_ann: Option<TsTypeAnn>,
    pub readonly: bool,
    pub span: Span,
}

#[derive(Debug, PartialEq, Eq)]
pub enum TsType {
    TsKeywordType(TsKeywordType),
    TsThisType(TsThisType),
    TsFnOrConstructorType(TsFnOrConstructorType),
    TsTypeRef(TsTypeRef),
    TsTypeQuery(TsTypeQuery),
    TsTypeLit(TsTypeLit),
    TsArrayType(TsArrayType),
    TsTupleType(TsTupleType),
    TsOptionalType(TsOptionalType),
    TsRestType(TsRestType),
    TsUnionOrIntersectionType(TsUnionOrIntersectionType),
    TsConditionalType(TsConditionalType),
    TsInferType(TsInferType),
    TsParenthesizedType(TsParenthesizedType),
    TsTypeOperator(TsTypeOperator),
    TsIndexedAccessType(TsIndexedAccessType),
    TsMappedType(TsMappedType),
    TsLitType(TsLitType),
    TsTypePredicate(TsTypePredicate),
}

#[derive(Debug, PartialEq, Eq)]
pub enum TsFnOrConstructorType {
    TsFnType(TsFnType),
    TsConstructorType(TsConstructorType),
}

impl From<TsFnType> for TsType {
    fn from(t: TsFnType) -> (r: TsType) {
        TsType::TsFnOrConstructorType(TsFnOrConstructorType::TsFnType(t))
    }
}

impl vstd::std_specs::convert::FromSpecImpl<TsFnType> for TsType {
    open spec fn obeys_from_spec() -> bool {
        true
    }

    open spec fn from_spec(t: TsFnType) -> TsType {
        TsType::TsFnOrConstructorType(TsFnOrConstructorType::TsFnType(t))
    }
}

impl From<TsConstructorType> for TsType {
    fn from(t: TsConstructorType) -> (r: TsType) {
        TsType::TsFnOrConstructorType(TsFnOrConstructorType::TsConstructorType(t))
    }
}

impl vstd::std_specs::convert::FromSpecImpl<TsConstructorType> for TsType {
    open spec fn obeys_from_spec() -> bool {
        true
    }

    open spec fn from_spec(t: TsConstructorType) -> TsType {
        TsType::TsFnOrConstructorType(TsFnOrConstructorType::TsConstructorType(t))
    }
}

#[derive(Clone, Copy, Debug, PartialEq, Eq, Structural)]
pub struct TsKeywordType {
    pub span: Span,
    pub kind: TsKeywordTypeKind,
}

#[derive(Clone, Copy, Debug, PartialEq, Eq, Structural)]
pub enum TsKeywordTypeKind {
    TsAnyKeyword,
    TsUnknownKeyword,
    TsNumberKeyword,
    TsObjectKeyword,
    TsBooleanKeyword,
    TsBigIntKeyword,
    TsStringKeyword,
    TsSymbolKeyword,
    TsVoidKeyword,
    TsUndefinedKeyword,
    TsNullKeyword,
    TsNeverKeyword,
}

#[derive(Clone, Copy, Debug, PartialEq, Eq, Structural)]
pub struct TsThisType {
    pub span: Span,
}

#[derive(Debug, PartialEq, Eq)]
pub enum TsFnParam {
    Ident(Ident),
    Rest(RestPat),
    Object(ObjectPat),
}

#[derive(Debug, PartialEq, Eq)]
pub struct TsFnType {
    pub span: Span,
    pub params: Vec<TsFnParam>,
    pub type_params: Option<TsTypeParamDecl>,
    pub type_ann: TsTypeAnn,
}

#[derive(Debug, PartialEq, Eq)]
pub struct TsConstructorType {
    pub span: Span,
    pub params: Vec<TsFnParam>,
    pub type_params: Option<TsTypeParamDecl>,
    pub type_ann: TsTypeAnn,
}

#[derive(Debug, PartialEq, Eq)]
pub struct TsTypeRef {
    pub span: Span,
    pub name: TsEntityName,
    pub type_params: Option<TsTypeParamInstantiation>,
}

#[derive(Debug, PartialEq, Eq)]
pub struct TsTypePredicate {
    pub span: Span,
    pub param_name: TsThisTypeOrIdent,
    pub type_ann: TsTypeAnn,
}

#[derive(Debug, PartialEq, Eq)]
pub enum TsThisTypeOrIdent {
    TsThisType(TsThisType),
    Ident(Ident),
}

/// A `typeof` type query.
#[derive(Debug, PartialEq, Eq)]
pub struct TsTypeQuery {
    pub span: Span,
    pub expr_name: TsEntityName,
}

#[derive(Debug, PartialEq, Eq)]
pub struct TsTypeLit {
    pub span: Span,
    pub members: Vec<TsTypeElement>,
}

#[derive(Debug, PartialEq, Eq)]
pub struct TsArrayType {
    pub span: Span,
    pub elem_type: Box<TsType>,
}

#[derive(Debug, PartialEq, Eq)]
pub struct TsTupleType {
    pub span: Span,
    pub elem_types: Vec<Box<TsType>>,
}

#[derive(Debug, PartialEq, Eq)]
pub struct TsOptionalType {
    pub span: Span,
    pub type_ann: Box<TsType>,
}

#[derive(Debug, PartialEq, Eq)]
pub struct TsRestType {
    pub span: Span,
    pub type_ann: Box<TsType>,
}

#[derive(Debug, PartialEq, Eq)]
pub enum TsUnionOrIntersectionType {
    TsUnionType(TsUnionType),
    TsIntersectionType(TsIntersectionType),
}

impl From<TsUnionType> for TsType {
    fn from(t: TsUnionType) -> (r: TsType) {
        TsType::TsUnionOrIntersectionType(TsUnionOrIntersectionType::TsUnionType(t))
    }
}

impl vstd::std_specs::convert::FromSpecImpl<TsUnionType> for TsType {
    open spec fn obeys_from_spec() -> bool {
        true
    }

    open spec fn from_spec(t: TsUnionType) -> TsType {
        TsType::TsUnionOrIntersectionType(TsUnionOrIntersectionType::TsUnionType(t))
    }
}

impl From<TsIntersectionType> for TsType {
    fn from(t: TsIntersectionType) -> (r: TsType) {
        TsType::TsUnionOrIntersectionType(TsUnionOrIntersectionType::TsIntersectionType(t))
    }
}

impl vstd::std_specs::convert::FromSpecImpl<TsIntersectionType> for TsType {
    open spec fn obeys_from_spec() -> bool {
        true
    }

    open spec fn from_spec(t: TsIntersectionType) -> TsType {
        TsType::TsUnionOrIntersectionType(TsUnionOrIntersectionType::TsIntersectionType(t))
    }
}

#[derive(Debug, PartialEq, Eq)]
pub struct TsUnionType {
    pub span: Span,
    pub types: Vec<Box<TsType>>,
}

#[derive(Debug, PartialEq, Eq)]
pub struct TsIntersectionType {
    pub span: Span,
    pub types: Vec<Box<TsType>>,
}

#[derive(Debug, PartialEq, Eq)]
pub struct TsConditionalType {
    pub span: Span,
    pub check_type: Box<TsType>,
    pub extends_type: Box<TsType>,
    pub true_type: Box<TsType>,
    pub false_type: Box<TsType>,
}

#[derive(Debug, PartialEq, Eq)]
pub struct TsInferType {
    pub span: Span,
    pub type_param: TsTypeParam,
}

#[derive(Debug, PartialEq, Eq)]
pub struct TsParenthesizedType {
    pub span: Span,
    pub type_ann: Box<TsType>,
}

#[derive(Debug, PartialEq, Eq)]
pub struct TsTypeOperator {
    pub span: Span,
    pub op: TsTypeOperatorOp,
    pub type_ann: Box<TsType>,
}

#[derive(Clone, Copy, Debug, PartialEq, Eq, Structural)]
pub enum TsTypeOperatorOp {
    KeyOf,
    Unique,
}

#[derive(Debug, PartialEq, Eq)]
pub struct TsIndexedAccessType {
    pub span: Span,
    pub obj_type: Box<TsType>,
    pub index_type: Box<TsType>,
}

/// The tri-state modifier of mapped types: `true`, `"+"`, or `"-"`.
/// Absence of a modifier is represented by `Option::None` at the use
/// site, never by a fourth state here.
#[derive(Clone, Copy, Debug, PartialEq, Eq, Structural)]
pub enum TruePlusMinus {
    True,
    Plus,
    Minus,
}

#[derive(Debug, PartialEq, Eq)]
pub struct TsMappedType {
    pub span: Span,
    pub readonly: Option<TruePlusMinus>,
    pub type_param: TsTypeParam,
    pub optional: Option<TruePlusMinus>,
    pub type_ann: Option<Box<TsType>>,
}

#[derive(Debug, PartialEq, Eq)]
pub struct TsLitType {
    pub span: Span,
    pub lit: TsLit,
}

#[derive(Debug, PartialEq, Eq)]
pub enum TsLit {
    Number(Number),
    Str(Str),
    Bool(Bool),
}

#[derive(Debug, PartialEq, Eq)]
pub struct TsInterfaceDecl {
    pub span: Span,
    pub id: Ident,
    pub declare: bool,
    pub type_params: Option<TsTypeParamDecl>,
    pub extends: Vec<TsExprWithTypeArgs>,
    pub body: TsInterfaceBody,
}

#[derive(Debug, PartialEq, Eq)]
pub struct TsInterfaceBody {
    pub span: Span,
    pub body: Vec<TsTypeElement>,
}

#[derive(Debug, PartialEq, Eq)]
pub struct TsExprWithTypeArgs {
    pub span: Span,
    pub expr: TsEntityName,
    pub type_params: Option<TsTypeParamInstantiation>,
}

#[derive(Debug, PartialEq, Eq)]
pub struct TsTypeAliasDecl {
    pub span: Span,
    pub declare: bool,
    pub id: Ident,
    pub type_params: Option<TsTypeParamDecl>,
    pub type_ann: Box<TsType>,
}

#[derive(Debug, PartialEq, Eq)]
pub struct TsEnumDecl {
    pub span: Span,
    pub declare: bool,
    pub is_const: bool,
    pub id: Ident,
    pub members: Vec<TsEnumMember>,
}

#[derive(Debug, PartialEq, Eq)]
pub struct TsEnumMember {
    pub span: Span,
    pub id: TsEnumMemberId,
    pub init: Option<Box<Expr>>,
}

#[derive(Debug, PartialEq, Eq)]
pub enum TsEnumMemberId {
    Ident(Ident),
    Str(Str),
}

#[derive(Debug, PartialEq, Eq)]
pub struct TsModuleDecl {
    pub span: Span,
    pub declare: bool,
    /// Whether this is a `global` augmentation block.
    pub global: bool,
    pub id: TsModuleName,
    pub body: Option<TsNamespaceBody>,
}

/// `namespace A.B { }` is a namespace named `A` whose body is another
/// nested namespace declaration.
#[derive(Debug, PartialEq, Eq)]
pub enum TsNamespaceBody {
    TsModuleBlock(TsModuleBlock),
    TsNamespaceDecl(TsNamespaceDecl),
}

#[derive(Debug, PartialEq, Eq)]
pub struct TsModuleBlock {
    pub span: Span,
    pub body: Vec<ModuleItem>,
}

#[derive(Debug, PartialEq, Eq)]
pub struct TsNamespaceDecl {
    pub span: Span,
    pub declare: bool,
    /// Whether this is a `global` augmentation block.
    pub global: bool,
    pub id: Ident,
    pub body: Box<TsNamespaceBody>,
}

#[derive(Debug, PartialEq, Eq)]
pub enum TsModuleName {
    Ident(Ident),
    Str(Str),
}

#[derive(Debug, PartialEq, Eq)]
pub struct TsImportEqualsDecl {
    pub span: Span,
    pub declare: bool,
    pub is_export: bool,
    pub id: Ident,
    pub module_ref: TsModuleRef,
}

#[derive(Debug, PartialEq, Eq)]
pub enum TsModuleRef {
    TsEntityName(TsEntityName),
    TsExternalModuleRef(TsExternalModuleRef),
}

#[derive(Debug, PartialEq, Eq)]
pub struct TsExternalModuleRef {
    pub span: Span,
    pub expr: Str,
}

/// An `export =` assignment.
#[derive(Debug, PartialEq, Eq)]
pub struct TsExportAssignment {
    pub span: Span,
    pub expr: Box<Expr>,
}

#[derive(Debug, PartialEq, Eq)]
pub struct TsNamespaceExportDecl {
    pub span: Span,
    pub id: Ident,
}

#[derive(Debug, PartialEq, Eq)]
pub struct TsAsExpr {
    pub span: Span,
    pub expr: Box<Expr>,
    pub type_ann: Box<TsType>,
}

#[derive(Debug, PartialEq, Eq)]
pub struct TsTypeAssertion {
    pub span: Span,
    pub expr: Box<Expr>,
    pub type_ann: Box<TsType>,
}

#[derive(Debug, PartialEq, Eq)]
pub struct TsNonNullExpr {
    pub span: Span,
    pub expr: Box<Expr>,
}

#[derive(Clone, Copy, Debug, PartialEq, Eq, Structural)]
pub enum Accessibility {
    Public,
    Protected,
    Private,
}

} // verus!
