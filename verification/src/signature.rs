//! Plain-value model of a parsed function declaration.

use vstd::prelude::*;
use vstd::std_specs::cmp::PartialEqSpecImpl;
use crate::values::{views, opt_view, Value, same_vec, copy_vec, same_opt, copy_opt};

verus! {

/// A region of source text, as a half-open range of byte offsets.
#[derive(Clone, Copy, Debug, PartialEq, Eq, Structural)]
pub struct Span {
    pub start: usize,
    pub end: usize,
}

impl View for Span {
    type V = Span;

    open spec fn view(&self) -> Span {
        *self
    }
}

impl Value for Span {
    fn same(&self, other: &Self) -> (r: bool) {
        self.start == other.start && self.end == other.end
    }

    fn copy(&self) -> (r: Self) {
        *self
    }
}

/// Who may name an item.
#[derive(Debug)]
pub enum Visibility {
    /// No qualifier: private to the enclosing module.
    Inherited,
    /// `pub`.
    Public,
    /// `pub(..)`, holding the text between the parentheses.
    Restricted(String),
}

/// What a [`Visibility`] holds, as mathematical values.
pub enum VisibilityView {
    Inherited,
    Public,
    Restricted(Seq<char>),
}

impl View for Visibility {
    type V = VisibilityView;

    open spec fn view(&self) -> VisibilityView {
        match self {
            Visibility::Inherited => VisibilityView::Inherited,
            Visibility::Public => VisibilityView::Public,
            Visibility::Restricted(p) => VisibilityView::Restricted(p@),
        }
    }
}

impl Value for Visibility {
    fn same(&self, other: &Self) -> (r: bool) {
        match (self, other) {
            (Visibility::Inherited, Visibility::Inherited) => true,
            (Visibility::Public, Visibility::Public) => true,
            (Visibility::Restricted(a), Visibility::Restricted(b)) => a.same(b),
            _ => false,
        }
    }

    fn copy(&self) -> (r: Self) {
        match self {
            Visibility::Inherited => Visibility::Inherited,
            Visibility::Public => Visibility::Public,
            Visibility::Restricted(p) => Visibility::Restricted(p.copy()),
        }
    }
}

impl Clone for Visibility {
    fn clone(&self) -> (r: Self)
        ensures
            r@ == self@,
    {
        self.copy()
    }
}

impl PartialEq for Visibility {
    fn eq(&self, other: &Self) -> (r: bool) {
        self.same(other)
    }
}

impl PartialEqSpecImpl for Visibility {
    open spec fn obeys_eq_spec() -> bool {
        true
    }

    open spec fn eq_spec(&self, other: &Self) -> bool {
        self@ == other@
    }
}

/// An attribute written above an item, a field or a parameter.
#[derive(Debug)]
pub enum SourceAttr {
    /// A documentation comment, holding its text as a string literal,
    /// quotes included.
    Doc(String),
    /// `allow(..)`, holding the lint's name.
    Allow(String),
    /// `derive(..)`, holding the traits' names in order.
    Derive(Vec<String>),
    /// Any other attribute, holding the text between the brackets.
    Other(String),
}

/// What a [`SourceAttr`] holds, as mathematical values.
pub enum SourceAttrView {
    Doc(Seq<char>),
    Allow(Seq<char>),
    Derive(Seq<Seq<char>>),
    Other(Seq<char>),
}

impl View for SourceAttr {
    type V = SourceAttrView;

    open spec fn view(&self) -> SourceAttrView {
        match self {
            SourceAttr::Doc(t) => SourceAttrView::Doc(t@),
            SourceAttr::Allow(t) => SourceAttrView::Allow(t@),
            SourceAttr::Derive(ts) => SourceAttrView::Derive(views(ts@)),
            SourceAttr::Other(t) => SourceAttrView::Other(t@),
        }
    }
}

impl Value for SourceAttr {
    fn same(&self, other: &Self) -> (r: bool) {
        match (self, other) {
            (SourceAttr::Doc(a), SourceAttr::Doc(b)) => a.same(b),
            (SourceAttr::Allow(a), SourceAttr::Allow(b)) => a.same(b),
            (SourceAttr::Derive(a), SourceAttr::Derive(b)) => same_vec(a, b),
            (SourceAttr::Other(a), SourceAttr::Other(b)) => a.same(b),
            _ => false,
        }
    }

    fn copy(&self) -> (r: Self) {
        match self {
            SourceAttr::Doc(t) => SourceAttr::Doc(t.copy()),
            SourceAttr::Allow(t) => SourceAttr::Allow(t.copy()),
            SourceAttr::Derive(ts) => SourceAttr::Derive(copy_vec(ts)),
            SourceAttr::Other(t) => SourceAttr::Other(t.copy()),
        }
    }
}

impl Clone for SourceAttr {
    fn clone(&self) -> (r: Self)
        ensures
            r@ == self@,
    {
        self.copy()
    }
}

impl PartialEq for SourceAttr {
    fn eq(&self, other: &Self) -> (r: bool) {
        self.same(other)
    }
}

impl PartialEqSpecImpl for SourceAttr {
    open spec fn obeys_eq_spec() -> bool {
        true
    }

    open spec fn eq_spec(&self, other: &Self) -> bool {
        self@ == other@
    }
}

/// What a generic parameter stands for.
#[derive(Clone, Copy, Debug, PartialEq, Eq, Structural)]
pub enum GenericParamKind {
    Lifetime,
    Type,
    Const,
}

/// One generic parameter of a declaration.
#[derive(Debug)]
pub struct GenericParam {
    pub kind: GenericParamKind,
    /// The parameter's name; a lifetime's name starts with its tick.
    pub name: String,
    /// The parameter as it is declared, with its bounds, its type if it is
    /// a constant, and its default, as source text.
    pub declaration: String,
}

/// What a [`GenericParam`] holds, as mathematical values.
pub struct GenericParamView {
    pub kind: GenericParamKind,
    pub name: Seq<char>,
    pub declaration: Seq<char>,
}

impl View for GenericParam {
    type V = GenericParamView;

    open spec fn view(&self) -> GenericParamView {
        GenericParamView { kind: self.kind, name: self.name@, declaration: self.declaration@ }
    }
}

impl Value for GenericParam {
    fn same(&self, other: &Self) -> (r: bool) {
        self.kind == other.kind && self.name.same(&other.name) && self.declaration.same(
            &other.declaration,
        )
    }

    fn copy(&self) -> (r: Self) {
        GenericParam {
            kind: self.kind,
            name: self.name.copy(),
            declaration: self.declaration.copy(),
        }
    }
}

impl Clone for GenericParam {
    fn clone(&self) -> (r: Self)
        ensures
            r@ == self@,
    {
        self.copy()
    }
}

impl PartialEq for GenericParam {
    fn eq(&self, other: &Self) -> (r: bool) {
        self.same(other)
    }
}

impl PartialEqSpecImpl for GenericParam {
    open spec fn obeys_eq_spec() -> bool {
        true
    }

    open spec fn eq_spec(&self, other: &Self) -> bool {
        self@ == other@
    }
}

/// The generic parameters of a declaration and its `where` clause.
#[derive(Debug)]
pub struct Generics {
    pub params: Vec<GenericParam>,
    /// The predicates after `where`, as source text.
    pub where_clause: Option<String>,
    pub span: Span,
}

/// What a [`Generics`] holds, as mathematical values.
pub struct GenericsView {
    pub params: Seq<GenericParamView>,
    pub where_clause: Option<Seq<char>>,
    pub span: Span,
}

impl View for Generics {
    type V = GenericsView;

    open spec fn view(&self) -> GenericsView {
        GenericsView {
            params: views(self.params@),
            where_clause: opt_view(self.where_clause),
            span: self.span,
        }
    }
}

impl Value for Generics {
    fn same(&self, other: &Self) -> (r: bool) {
        same_vec(&self.params, &other.params) && same_opt(&self.where_clause, &other.where_clause)
            && self.span.same(&other.span)
    }

    fn copy(&self) -> (r: Self) {
        Generics {
            params: copy_vec(&self.params),
            where_clause: copy_opt(&self.where_clause),
            span: self.span,
        }
    }
}

impl Clone for Generics {
    fn clone(&self) -> (r: Self)
        ensures
            r@ == self@,
    {
        self.copy()
    }
}

impl PartialEq for Generics {
    fn eq(&self, other: &Self) -> (r: bool) {
        self.same(other)
    }
}

impl PartialEqSpecImpl for Generics {
    open spec fn obeys_eq_spec() -> bool {
        true
    }

    open spec fn eq_spec(&self, other: &Self) -> bool {
        self@ == other@
    }
}

/// The pattern that a parameter binds its argument with.
#[derive(Debug)]
pub enum ParamPattern {
    /// A plain binding: `name`, `mut name`, `ref name`.
    Ident { by_ref: bool, mutable: bool, name: String },
    /// A record pattern such as `Props { title }`, as source text.
    Struct(String),
    /// Any other pattern, as source text.
    Other(String),
}

/// What a [`ParamPattern`] holds, as mathematical values.
pub enum ParamPatternView {
    Ident { by_ref: bool, mutable: bool, name: Seq<char> },
    Struct(Seq<char>),
    Other(Seq<char>),
}

impl ParamPatternView {
    /// The same pattern without a `mut` on its binding.
    pub open spec fn without_mut(self) -> ParamPatternView {
        match self {
            ParamPatternView::Ident { by_ref, mutable, name } => ParamPatternView::Ident {
                by_ref,
                mutable: false,
                name,
            },
            other => other,
        }
    }

    /// Whether the binding is declared `mut`.
    pub open spec fn is_mut(self) -> bool {
        self matches ParamPatternView::Ident { mutable, .. } && mutable
    }

    /// The same pattern with its binding declared `mut` or not, as asked.
    /// Only a plain binding can carry the modifier.
    pub open spec fn with_mut(self, mutable: bool) -> ParamPatternView {
        match self {
            ParamPatternView::Ident { by_ref, mutable: _, name } => ParamPatternView::Ident {
                by_ref,
                mutable,
                name,
            },
            other => other,
        }
    }
}

impl View for ParamPattern {
    type V = ParamPatternView;

    open spec fn view(&self) -> ParamPatternView {
        match self {
            ParamPattern::Ident { by_ref, mutable, name } => ParamPatternView::Ident {
                by_ref: *by_ref,
                mutable: *mutable,
                name: name@,
            },
            ParamPattern::Struct(t) => ParamPatternView::Struct(t@),
            ParamPattern::Other(t) => ParamPatternView::Other(t@),
        }
    }
}

impl Value for ParamPattern {
    fn same(&self, other: &Self) -> (r: bool) {
        match (self, other) {
            (
                ParamPattern::Ident { by_ref: r1, mutable: m1, name: n1 },
                ParamPattern::Ident { by_ref: r2, mutable: m2, name: n2 },
            ) => *r1 == *r2 && *m1 == *m2 && n1.same(n2),
            (ParamPattern::Struct(a), ParamPattern::Struct(b)) => a.same(b),
            (ParamPattern::Other(a), ParamPattern::Other(b)) => a.same(b),
            _ => false,
        }
    }

    fn copy(&self) -> (r: Self) {
        match self {
            ParamPattern::Ident { by_ref, mutable, name } => ParamPattern::Ident {
                by_ref: *by_ref,
                mutable: *mutable,
                name: name.copy(),
            },
            ParamPattern::Struct(t) => ParamPattern::Struct(t.copy()),
            ParamPattern::Other(t) => ParamPattern::Other(t.copy()),
        }
    }
}

impl Clone for ParamPattern {
    fn clone(&self) -> (r: Self)
        ensures
            r@ == self@,
    {
        self.copy()
    }
}

impl PartialEq for ParamPattern {
    fn eq(&self, other: &Self) -> (r: bool) {
        self.same(other)
    }
}

impl PartialEqSpecImpl for ParamPattern {
    open spec fn obeys_eq_spec() -> bool {
        true
    }

    open spec fn eq_spec(&self, other: &Self) -> bool {
        self@ == other@
    }
}

impl ParamPattern {
    /// The same pattern without a `mut` on its binding.
    pub fn without_mut(&self) -> (r: ParamPattern)
        ensures
            r@ == self@.without_mut(),
    {
        match self {
            ParamPattern::Ident { by_ref, mutable: _, name } => ParamPattern::Ident {
                by_ref: *by_ref,
                mutable: false,
                name: name.copy(),
            },
            ParamPattern::Struct(t) => ParamPattern::Struct(t.copy()),
            ParamPattern::Other(t) => ParamPattern::Other(t.copy()),
        }
    }

    /// Whether the binding is declared `mut`.
    pub fn is_mut(&self) -> (r: bool)
        ensures
            r == self@.is_mut(),
    {
        match self {
            ParamPattern::Ident { mutable, .. } => *mutable,
            _ => false,
        }
    }
}

/// One parameter of a function declaration.
#[derive(Debug)]
pub enum Parameter {
    /// A method's `self`, in any form, as source text.
    Receiver(String),
    /// A pattern with its declared type.
    Typed {
        attrs: Vec<SourceAttr>,
        pat: ParamPattern,
        /// The declared type, as source text.
        ty: String,
    },
}

/// What a [`Parameter`] holds, as mathematical values.
pub enum ParameterView {
    Receiver(Seq<char>),
    Typed { attrs: Seq<SourceAttrView>, pat: ParamPatternView, ty: Seq<char> },
}

impl View for Parameter {
    type V = ParameterView;

    open spec fn view(&self) -> ParameterView {
        match self {
            Parameter::Receiver(t) => ParameterView::Receiver(t@),
            Parameter::Typed { attrs, pat, ty } => ParameterView::Typed {
                attrs: views(attrs@),
                pat: pat@,
                ty: ty@,
            },
        }
    }
}

impl Value for Parameter {
    fn same(&self, other: &Self) -> (r: bool) {
        match (self, other) {
            (Parameter::Receiver(a), Parameter::Receiver(b)) => a.same(b),
            (
                Parameter::Typed { attrs: a1, pat: p1, ty: t1 },
                Parameter::Typed { attrs: a2, pat: p2, ty: t2 },
            ) => same_vec(a1, a2) && p1.same(p2) && t1.same(t2),
            _ => false,
        }
    }

    fn copy(&self) -> (r: Self) {
        match self {
            Parameter::Receiver(t) => Parameter::Receiver(t.copy()),
            Parameter::Typed { attrs, pat, ty } => Parameter::Typed {
                attrs: copy_vec(attrs),
                pat: pat.copy(),
                ty: ty.copy(),
            },
        }
    }
}

impl Clone for Parameter {
    fn clone(&self) -> (r: Self)
        ensures
            r@ == self@,
    {
        self.copy()
    }
}

impl PartialEq for Parameter {
    fn eq(&self, other: &Self) -> (r: bool) {
        self.same(other)
    }
}

impl PartialEqSpecImpl for Parameter {
    open spec fn obeys_eq_spec() -> bool {
        true
    }

    open spec fn eq_spec(&self, other: &Self) -> bool {
        self@ == other@
    }
}

/// What a function declares that it returns.
#[derive(Debug)]
pub enum ReturnType {
    /// Nothing written: the unit type.
    Default,
    /// `-> T`, holding the type as source text.
    Type(String),
}

/// What a [`ReturnType`] holds, as mathematical values.
pub enum ReturnTypeView {
    Default,
    Type(Seq<char>),
}

impl View for ReturnType {
    type V = ReturnTypeView;

    open spec fn view(&self) -> ReturnTypeView {
        match self {
            ReturnType::Default => ReturnTypeView::Default,
            ReturnType::Type(t) => ReturnTypeView::Type(t@),
        }
    }
}

impl Value for ReturnType {
    fn same(&self, other: &Self) -> (r: bool) {
        match (self, other) {
            (ReturnType::Default, ReturnType::Default) => true,
            (ReturnType::Type(a), ReturnType::Type(b)) => a.same(b),
            _ => false,
        }
    }

    fn copy(&self) -> (r: Self) {
        match self {
            ReturnType::Default => ReturnType::Default,
            ReturnType::Type(t) => ReturnType::Type(t.copy()),
        }
    }
}

impl Clone for ReturnType {
    fn clone(&self) -> (r: Self)
        ensures
            r@ == self@,
    {
        self.copy()
    }
}

impl PartialEq for ReturnType {
    fn eq(&self, other: &Self) -> (r: bool) {
        self.same(other)
    }
}

impl PartialEqSpecImpl for ReturnType {
    open spec fn obeys_eq_spec() -> bool {
        true
    }

    open spec fn eq_spec(&self, other: &Self) -> bool {
        self@ == other@
    }
}

/// A function declaration as a parser hands it over: what a component is
/// written as, before lowering.
#[derive(Debug)]
pub struct ComponentSignature {
    pub attrs: Vec<SourceAttr>,
    pub vis: Visibility,
    /// Where `const` stands, if the function is marked so.
    pub constness: Option<Span>,
    /// Where `async` stands, if the function is marked so.
    pub asyncness: Option<Span>,
    /// Whether the function is marked `unsafe`.
    pub unsafety: bool,
    /// The ABI that the function is declared with, such as `extern "C"`, as
    /// source text.
    pub abi: Option<String>,
    pub ident: String,
    pub generics: Generics,
    pub inputs: Vec<Parameter>,
    /// What stands for further arguments after the parameters, such as
    /// `...`, as source text.
    pub variadic: Option<String>,
    pub inputs_span: Span,
    pub output: ReturnType,
    pub output_span: Span,
    /// The body with its braces, as source text. Lowering never looks
    /// inside it.
    pub block: String,
}

/// What a [`ComponentSignature`] holds, as mathematical values.
pub struct ComponentSignatureView {
    pub attrs: Seq<SourceAttrView>,
    pub vis: VisibilityView,
    pub constness: Option<Span>,
    pub asyncness: Option<Span>,
    pub unsafety: bool,
    pub abi: Option<Seq<char>>,
    pub ident: Seq<char>,
    pub generics: GenericsView,
    pub inputs: Seq<ParameterView>,
    pub variadic: Option<Seq<char>>,
    pub inputs_span: Span,
    pub output: ReturnTypeView,
    pub output_span: Span,
    pub block: Seq<char>,
}

impl View for ComponentSignature {
    type V = ComponentSignatureView;

    open spec fn view(&self) -> ComponentSignatureView {
        ComponentSignatureView {
            attrs: views(self.attrs@),
            vis: self.vis@,
            constness: self.constness,
            asyncness: self.asyncness,
            unsafety: self.unsafety,
            abi: opt_view(self.abi),
            ident: self.ident@,
            generics: self.generics@,
            inputs: views(self.inputs@),
            variadic: opt_view(self.variadic),
            inputs_span: self.inputs_span,
            output: self.output@,
            output_span: self.output_span,
            block: self.block@,
        }
    }
}

impl Value for ComponentSignature {
    fn same(&self, other: &Self) -> (r: bool) {
        same_vec(&self.attrs, &other.attrs) && self.vis.same(&other.vis) && same_opt(
            &self.constness,
            &other.constness,
        ) && same_opt(&self.asyncness, &other.asyncness) && self.unsafety == other.unsafety
            && same_opt(&self.abi, &other.abi) && self.ident.same(&other.ident)
            && self.generics.same(&other.generics) && same_vec(&self.inputs, &other.inputs)
            && same_opt(&self.variadic, &other.variadic) && self.inputs_span.same(
            &other.inputs_span,
        ) && self.output.same(&other.output)
            && self.output_span.same(&other.output_span) && self.block.same(&other.block)
    }

    fn copy(&self) -> (r: Self) {
        ComponentSignature {
            attrs: copy_vec(&self.attrs),
            vis: self.vis.copy(),
            constness: self.constness,
            asyncness: self.asyncness,
            unsafety: self.unsafety,
            abi: copy_opt(&self.abi),
            ident: self.ident.copy(),
            generics: self.generics.copy(),
            inputs: copy_vec(&self.inputs),
            variadic: copy_opt(&self.variadic),
            inputs_span: self.inputs_span,
            output: self.output.copy(),
            output_span: self.output_span,
            block: self.block.copy(),
        }
    }
}

impl Clone for ComponentSignature {
    fn clone(&self) -> (r: Self)
        ensures
            r@ == self@,
    {
        self.copy()
    }
}

impl PartialEq for ComponentSignature {
    fn eq(&self, other: &Self) -> (r: bool) {
        self.same(other)
    }
}

impl PartialEqSpecImpl for ComponentSignature {
    open spec fn obeys_eq_spec() -> bool {
        true
    }

    open spec fn eq_spec(&self, other: &Self) -> bool {
        self@ == other@
    }
}

} // verus!
