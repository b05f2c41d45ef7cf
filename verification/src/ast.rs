//! Plain-value model of an implementation block and its annotations.
//!
//! The analyzer never sees host-language syntax trees directly: a caller
//! converts them into these types, which hold exactly what the export rules
//! read. Each executable type has a mathematical counterpart (the `Spec*`
//! types) reached through `deep_view`, and all contracts are stated over
//! those counterparts.

use vstd::prelude::*;

use crate::rpc::RpcMode;

verus! {

/// A literal argument of an annotation; only string-ness matters here.
#[derive(Debug)]
pub enum LitValue {
    Str(String),
    NonStr,
}

pub enum SpecLitValue {
    Str(Seq<char>),
    NonStr,
}

impl DeepView for LitValue {
    type V = SpecLitValue;

    open spec fn deep_view(&self) -> SpecLitValue {
        match self {
            LitValue::Str(s) => SpecLitValue::Str(s@),
            LitValue::NonStr => SpecLitValue::NonStr,
        }
    }
}

/// One comma-separated item of a marker's argument list.
#[derive(Debug)]
pub enum MetaItem {
    /// A bare literal at top level, which the rules reject.
    BareLit(LitValue),
    /// A nested list, which the rules reject.
    NestedList,
    /// A bare identifier, such as `deref_return`.
    Flag(String),
    /// An `identifier = literal` pair.
    KeyValue(String, LitValue),
}

pub enum SpecMetaItem {
    BareLit(SpecLitValue),
    NestedList,
    Flag(Seq<char>),
    KeyValue(Seq<char>, SpecLitValue),
}

impl DeepView for MetaItem {
    type V = SpecMetaItem;

    open spec fn deep_view(&self) -> SpecMetaItem {
        match self {
            MetaItem::BareLit(l) => SpecMetaItem::BareLit(l.deep_view()),
            MetaItem::NestedList => SpecMetaItem::NestedList,
            MetaItem::Flag(p) => SpecMetaItem::Flag(p@),
            MetaItem::KeyValue(p, l) => SpecMetaItem::KeyValue(p@, l.deep_view()),
        }
    }
}

/// The parsed shape of one annotation's arguments, as the annotation-parsing
/// collaborator reports it.
#[derive(Debug)]
pub enum AttrArgs {
    /// The collaborator could not parse the annotation; its message.
    ParseFailed(String),
    /// The `name = "value"` form directly on the annotation itself.
    NameValueForm,
    /// A bare annotation with no argument list.
    Bare,
    /// An argument list in parentheses.
    ArgList(Vec<MetaItem>),
}

pub enum SpecAttrArgs {
    ParseFailed(Seq<char>),
    NameValueForm,
    Bare,
    ArgList(Seq<SpecMetaItem>),
}

impl DeepView for AttrArgs {
    type V = SpecAttrArgs;

    open spec fn deep_view(&self) -> SpecAttrArgs {
        match self {
            AttrArgs::ParseFailed(m) => SpecAttrArgs::ParseFailed(m@),
            AttrArgs::NameValueForm => SpecAttrArgs::NameValueForm,
            AttrArgs::Bare => SpecAttrArgs::Bare,
            AttrArgs::ArgList(items) => SpecAttrArgs::ArgList(items.deep_view()),
        }
    }
}

/// Whether an annotation stands outside (`#[...]`) or inside (`#![...]`) the
/// item it belongs to. Only outer annotations can be export markers.
#[derive(Clone, Copy, PartialEq, Eq, Debug, Structural)]
pub enum AttrStyle {
    Outer,
    Inner,
}

impl DeepView for AttrStyle {
    type V = AttrStyle;

    open spec fn deep_view(&self) -> AttrStyle {
        *self
    }
}

/// One annotation on a method: its placement, the last segment of its path,
/// and its parsed arguments.
#[derive(Debug)]
pub struct Attribute {
    pub style: AttrStyle,
    pub path_last: String,
    pub args: AttrArgs,
}

pub struct SpecAttribute {
    pub style: AttrStyle,
    pub path_last: Seq<char>,
    pub args: SpecAttrArgs,
}

impl DeepView for Attribute {
    type V = SpecAttribute;

    open spec fn deep_view(&self) -> SpecAttribute {
        SpecAttribute { style: self.style, path_last: self.path_last@, args: self.args.deep_view() }
    }
}

/// The binding pattern of one declared parameter.
#[derive(Debug)]
pub enum ParamPat {
    /// A wildcard `_` pattern.
    Wild,
    /// A plain identifier binding, possibly by reference or mutable.
    Named { by_ref: bool, mutable: bool, ident: String },
    /// The deterministic replacement name given to a wildcard, carrying the
    /// parameter's position.
    Synthetic { index: usize },
    /// Any other pattern, carried through untouched.
    Complex,
}

pub enum SpecParamPat {
    Wild,
    Named { by_ref: bool, mutable: bool, ident: Seq<char> },
    Synthetic { index: usize },
    Complex,
}

impl DeepView for ParamPat {
    type V = SpecParamPat;

    open spec fn deep_view(&self) -> SpecParamPat {
        match self {
            ParamPat::Wild => SpecParamPat::Wild,
            ParamPat::Named { by_ref, mutable, ident } => SpecParamPat::Named {
                by_ref: *by_ref,
                mutable: *mutable,
                ident: ident@,
            },
            ParamPat::Synthetic { index } => SpecParamPat::Synthetic { index: *index },
            ParamPat::Complex => SpecParamPat::Complex,
        }
    }
}

/// One declared parameter. `marks` holds the identifiers of the per-parameter
/// annotations, in order; `opt` and `base` among them are consumed by the
/// analyzer, the rest pass through.
#[derive(Debug)]
pub enum Param {
    /// The method's own receiver, always at position 0 when present.
    Receiver { marks: Vec<String> },
    /// An ordinary typed parameter with its binding pattern.
    Typed { marks: Vec<String>, pat: ParamPat },
}

pub enum SpecParam {
    Receiver { marks: Seq<Seq<char>> },
    Typed { marks: Seq<Seq<char>>, pat: SpecParamPat },
}

impl DeepView for Param {
    type V = SpecParam;

    open spec fn deep_view(&self) -> SpecParam {
        match self {
            Param::Receiver { marks } => SpecParam::Receiver { marks: marks.deep_view() },
            Param::Typed { marks, pat } => SpecParam::Typed {
                marks: marks.deep_view(),
                pat: pat.deep_view(),
            },
        }
    }
}

/// What the analyzer reads of a method's return type: nothing, a reference
/// type (which draws a deprecation notice unless acknowledged), or any other
/// concrete type.
#[derive(Clone, Copy, PartialEq, Eq, Debug, Structural)]
pub enum ReturnKind {
    Unit,
    Reference,
    Concrete,
}

impl DeepView for ReturnKind {
    type V = ReturnKind;

    open spec fn deep_view(&self) -> ReturnKind {
        *self
    }
}

/// How many generic parameters of each kind a method declares. Exported
/// methods must declare none.
#[derive(Clone, Copy, PartialEq, Eq, Debug, Structural)]
pub struct GenericCounts {
    pub type_params: usize,
    pub lifetimes: usize,
    pub const_params: usize,
}

impl DeepView for GenericCounts {
    type V = GenericCounts;

    open spec fn deep_view(&self) -> GenericCounts {
        *self
    }
}

/// A method signature: name, qualifiers, generic-parameter counts, ordered
/// parameters and return kind.
#[derive(Debug)]
pub struct Signature {
    pub ident: String,
    pub is_unsafe: bool,
    pub generics: GenericCounts,
    pub inputs: Vec<Param>,
    pub output: ReturnKind,
}

pub struct SpecSignature {
    pub ident: Seq<char>,
    pub is_unsafe: bool,
    pub generics: GenericCounts,
    pub inputs: Seq<SpecParam>,
    pub output: ReturnKind,
}

impl DeepView for Signature {
    type V = SpecSignature;

    open spec fn deep_view(&self) -> SpecSignature {
        SpecSignature {
            ident: self.ident@,
            is_unsafe: self.is_unsafe,
            generics: self.generics,
            inputs: self.inputs.deep_view(),
            output: self.output,
        }
    }
}

/// One member function of the implementation block, with its annotations.
/// The body is not modeled: it is carried through by the caller untouched.
#[derive(Debug)]
pub struct Method {
    pub attrs: Vec<Attribute>,
    pub sig: Signature,
}

pub struct SpecMethod {
    pub attrs: Seq<SpecAttribute>,
    pub sig: SpecSignature,
}

impl DeepView for Method {
    type V = SpecMethod;

    open spec fn deep_view(&self) -> SpecMethod {
        SpecMethod { attrs: self.attrs.deep_view(), sig: self.sig.deep_view() }
    }
}

/// A validation failure, attached in place of or beside the construct that
/// caused it. Each variant names one rule of the export contract.
#[derive(Debug)]
pub enum ExportError {
    /// The annotation parser reported a failure; its message.
    AttrParseFailed(String),
    /// The marker itself was written `name = "value"`.
    NameValueSyntax,
    /// A bare literal stood in the argument list.
    LiteralItem,
    /// A nested list stood in the argument list.
    ListItem,
    /// `rpc` came without a value.
    RpcRequiresString,
    /// `rpc` came with a string outside the recognized tokens; the token.
    RpcUnexpectedValue(String),
    /// `rpc` came with a non-string literal.
    RpcExpectedString,
    /// `rpc` was set more than once.
    RpcSetTwice,
    /// `name` came without a value.
    NameRequiresString,
    /// `name` came with a non-string literal.
    NameExpectedString,
    /// `name` was set more than once.
    NameSetTwice,
    /// `deref_return` came with a value.
    DerefReturnTakesNoValue,
    /// `deref_return` was set more than once.
    DerefReturnSetTwice,
    /// A key outside `rpc`, `name`, `deref_return`; whether the marker was
    /// the legacy form, and the key.
    UnknownOption { legacy: bool, option: String },
    /// `opt` stood on the receiver or the base parameter.
    OptionalSelfOrBase,
    /// A required parameter followed an optional one.
    RequiredAfterOptional,
    /// A base parameter stood at a position other than 1.
    BaseNotSecond,
    /// The method declared no parameters at all.
    MissingSelfParam,
    /// A legacy-form marker without an explicit base parameter.
    LegacyMissingBase,
    /// More optional parameters than the signature leaves room for.
    TooManyOptional { max: usize, got: usize },
    /// Generic type parameters on the signature.
    TypeParamsNotAllowed,
    /// Lifetime parameters on the signature.
    LifetimesNotAllowed,
    /// Const generic parameters on the signature.
    ConstParamsNotAllowed,
}

pub enum SpecExportError {
    AttrParseFailed(Seq<char>),
    NameValueSyntax,
    LiteralItem,
    ListItem,
    RpcRequiresString,
    RpcUnexpectedValue(Seq<char>),
    RpcExpectedString,
    RpcSetTwice,
    NameRequiresString,
    NameExpectedString,
    NameSetTwice,
    DerefReturnTakesNoValue,
    DerefReturnSetTwice,
    UnknownOption { legacy: bool, option: Seq<char> },
    OptionalSelfOrBase,
    RequiredAfterOptional,
    BaseNotSecond,
    MissingSelfParam,
    LegacyMissingBase,
    TooManyOptional { max: usize, got: usize },
    TypeParamsNotAllowed,
    LifetimesNotAllowed,
    ConstParamsNotAllowed,
}

impl DeepView for ExportError {
    type V = SpecExportError;

    open spec fn deep_view(&self) -> SpecExportError {
        match self {
            ExportError::AttrParseFailed(m) => SpecExportError::AttrParseFailed(m@),
            ExportError::NameValueSyntax => SpecExportError::NameValueSyntax,
            ExportError::LiteralItem => SpecExportError::LiteralItem,
            ExportError::ListItem => SpecExportError::ListItem,
            ExportError::RpcRequiresString => SpecExportError::RpcRequiresString,
            ExportError::RpcUnexpectedValue(v) => SpecExportError::RpcUnexpectedValue(v@),
            ExportError::RpcExpectedString => SpecExportError::RpcExpectedString,
            ExportError::RpcSetTwice => SpecExportError::RpcSetTwice,
            ExportError::NameRequiresString => SpecExportError::NameRequiresString,
            ExportError::NameExpectedString => SpecExportError::NameExpectedString,
            ExportError::NameSetTwice => SpecExportError::NameSetTwice,
            ExportError::DerefReturnTakesNoValue => SpecExportError::DerefReturnTakesNoValue,
            ExportError::DerefReturnSetTwice => SpecExportError::DerefReturnSetTwice,
            ExportError::UnknownOption { legacy, option } => SpecExportError::UnknownOption {
                legacy: *legacy,
                option: option@,
            },
            ExportError::OptionalSelfOrBase => SpecExportError::OptionalSelfOrBase,
            ExportError::RequiredAfterOptional => SpecExportError::RequiredAfterOptional,
            ExportError::BaseNotSecond => SpecExportError::BaseNotSecond,
            ExportError::MissingSelfParam => SpecExportError::MissingSelfParam,
            ExportError::LegacyMissingBase => SpecExportError::LegacyMissingBase,
            ExportError::TooManyOptional { max, got } => SpecExportError::TooManyOptional {
                max: *max,
                got: *got,
            },
            ExportError::TypeParamsNotAllowed => SpecExportError::TypeParamsNotAllowed,
            ExportError::LifetimesNotAllowed => SpecExportError::LifetimesNotAllowed,
            ExportError::ConstParamsNotAllowed => SpecExportError::ConstParamsNotAllowed,
        }
    }
}

/// One item of an implementation block, as the analyzer handles it.
#[derive(Debug)]
pub enum ImplItem {
    /// A member function.
    MethodItem(Method),
    /// A validation failure emitted into the cleaned block, standing where a
    /// compile error would be synthesized.
    ErrorItem(ExportError),
    /// Any other item, carried through untouched.
    OtherItem,
}

pub enum SpecImplItem {
    MethodItem(SpecMethod),
    ErrorItem(SpecExportError),
    OtherItem,
}

impl DeepView for ImplItem {
    type V = SpecImplItem;

    open spec fn deep_view(&self) -> SpecImplItem {
        match self {
            ImplItem::MethodItem(m) => SpecImplItem::MethodItem(m.deep_view()),
            ImplItem::ErrorItem(e) => SpecImplItem::ErrorItem(e.deep_view()),
            ImplItem::OtherItem => SpecImplItem::OtherItem,
        }
    }
}

/// An implementation block: the target type's name and its ordered items.
#[derive(Debug)]
pub struct ItemImpl {
    pub self_ty: String,
    pub items: Vec<ImplItem>,
}

pub struct SpecItemImpl {
    pub self_ty: Seq<char>,
    pub items: Seq<SpecImplItem>,
}

impl DeepView for ItemImpl {
    type V = SpecItemImpl;

    open spec fn deep_view(&self) -> SpecItemImpl {
        SpecItemImpl { self_ty: self.self_ty@, items: self.items.deep_view() }
    }
}

/// The configuration one export marker establishes for its method. Each
/// field may be set at most once; a second attempt is a validation error.
#[derive(Debug)]
pub struct ExportArgs {
    pub is_old_syntax: bool,
    pub rpc_mode: Option<RpcMode>,
    pub name_override: Option<String>,
    pub is_deref_return: bool,
}

pub struct SpecExportArgs {
    pub is_old_syntax: bool,
    pub rpc_mode: Option<RpcMode>,
    pub name_override: Option<Seq<char>>,
    pub is_deref_return: bool,
}

impl DeepView for ExportArgs {
    type V = SpecExportArgs;

    open spec fn deep_view(&self) -> SpecExportArgs {
        SpecExportArgs {
            is_old_syntax: self.is_old_syntax,
            rpc_mode: self.rpc_mode,
            name_override: self.name_override.deep_view(),
            is_deref_return: self.is_deref_return,
        }
    }
}

/// One method accepted for export: its normalized signature, the marker's
/// configuration, the count of trailing optional parameters, and whether an
/// explicit base parameter exists.
#[derive(Debug)]
pub struct ExportMethod {
    pub sig: Signature,
    pub export_args: ExportArgs,
    pub optional_args: Option<usize>,
    pub exist_base_arg: bool,
}

pub struct SpecExportMethod {
    pub sig: SpecSignature,
    pub export_args: SpecExportArgs,
    pub optional_args: Option<usize>,
    pub exist_base_arg: bool,
}

impl DeepView for ExportMethod {
    type V = SpecExportMethod;

    open spec fn deep_view(&self) -> SpecExportMethod {
        SpecExportMethod {
            sig: self.sig.deep_view(),
            export_args: self.export_args.deep_view(),
            optional_args: self.optional_args,
            exist_base_arg: self.exist_base_arg,
        }
    }
}

/// The export descriptors of one implementation block, in declaration order.
#[derive(Debug)]
pub struct ClassMethodExport {
    pub class_ty: String,
    pub methods: Vec<ExportMethod>,
}

pub struct SpecClassMethodExport {
    pub class_ty: Seq<char>,
    pub methods: Seq<SpecExportMethod>,
}

impl DeepView for ClassMethodExport {
    type V = SpecClassMethodExport;

    open spec fn deep_view(&self) -> SpecClassMethodExport {
        SpecClassMethodExport { class_ty: self.class_ty@, methods: self.methods.deep_view() }
    }
}

/// The sequence a vector's elements abstract to, element by element.
pub open spec fn dv<T: DeepView>(s: Seq<T>) -> Seq<T::V> {
    Seq::new(s.len(), |i: int| s[i].deep_view())
}

/// Taking a subrange commutes with `dv`.
pub proof fn lemma_dv_subrange<T: DeepView>(s: Seq<T>, a: int, b: int)
    requires
        0 <= a <= b <= s.len(),
    ensures
        dv(s.subrange(a, b)) == dv(s).subrange(a, b),
{
    assert(dv(s.subrange(a, b)) =~= dv(s).subrange(a, b));
}

} // verus!
