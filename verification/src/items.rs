//! What lowering produces: the props record, the rewritten function, and the
//! stream of source items that holds them.

use vstd::prelude::*;
use vstd::std_specs::cmp::PartialEqSpecImpl;
use crate::values::{views, opt_view, Value, same_vec, copy_vec, same_opt, copy_opt};
use crate::signature::{
    SourceAttr, SourceAttrView, Visibility, VisibilityView, Generics, GenericsView, ParamPattern,
    ParamPatternView, ComponentSignature, ComponentSignatureView,
};

verus! {

/// One field of a props record.
#[derive(Debug)]
pub struct PropsField {
    /// The attributes of the parameter that the field stands for.
    pub attrs: Vec<SourceAttr>,
    pub vis: Visibility,
    /// The parameter's binding, without its `mut`.
    pub name: ParamPattern,
    /// The parameter's declared type, as source text.
    pub ty: String,
}

/// What a [`PropsField`] holds, as mathematical values.
pub struct PropsFieldView {
    pub attrs: Seq<SourceAttrView>,
    pub vis: VisibilityView,
    pub name: ParamPatternView,
    pub ty: Seq<char>,
}

impl View for PropsField {
    type V = PropsFieldView;

    open spec fn view(&self) -> PropsFieldView {
        PropsFieldView {
            attrs: views(self.attrs@),
            vis: self.vis@,
            name: self.name@,
            ty: self.ty@,
        }
    }
}

impl Value for PropsField {
    fn same(&self, other: &Self) -> (r: bool) {
        same_vec(&self.attrs, &other.attrs) && self.vis.same(&other.vis) && self.name.same(
            &other.name,
        ) && self.ty.same(&other.ty)
    }

    fn copy(&self) -> (r: Self) {
        PropsField {
            attrs: copy_vec(&self.attrs),
            vis: self.vis.copy(),
            name: self.name.copy(),
            ty: self.ty.copy(),
        }
    }
}

impl Clone for PropsField {
    fn clone(&self) -> (r: Self)
        ensures
            r@ == self@,
    {
        self.copy()
    }
}

impl PartialEq for PropsField {
    fn eq(&self, other: &Self) -> (r: bool) {
        self.same(other)
    }
}

impl PartialEqSpecImpl for PropsField {
    open spec fn obeys_eq_spec() -> bool {
        true
    }

    open spec fn eq_spec(&self, other: &Self) -> bool {
        self@ == other@
    }
}

/// The record type that carries a component's inputs: one field for each
/// parameter of the function it was made from.
#[derive(Debug)]
pub struct PropsRecord {
    pub attrs: Vec<SourceAttr>,
    pub vis: Visibility,
    pub ident: String,
    pub generics: Generics,
    pub fields: Vec<PropsField>,
}

/// What a [`PropsRecord`] holds, as mathematical values.
pub struct PropsRecordView {
    pub attrs: Seq<SourceAttrView>,
    pub vis: VisibilityView,
    pub ident: Seq<char>,
    pub generics: GenericsView,
    pub fields: Seq<PropsFieldView>,
}

impl View for PropsRecord {
    type V = PropsRecordView;

    open spec fn view(&self) -> PropsRecordView {
        PropsRecordView {
            attrs: views(self.attrs@),
            vis: self.vis@,
            ident: self.ident@,
            generics: self.generics@,
            fields: views(self.fields@),
        }
    }
}

impl Value for PropsRecord {
    fn same(&self, other: &Self) -> (r: bool) {
        same_vec(&self.attrs, &other.attrs) && self.vis.same(&other.vis) && self.ident.same(
            &other.ident,
        ) && self.generics.same(&other.generics) && same_vec(&self.fields, &other.fields)
    }

    fn copy(&self) -> (r: Self) {
        PropsRecord {
            attrs: copy_vec(&self.attrs),
            vis: self.vis.copy(),
            ident: self.ident.copy(),
            generics: self.generics.copy(),
            fields: copy_vec(&self.fields),
        }
    }
}

impl Clone for PropsRecord {
    fn clone(&self) -> (r: Self)
        ensures
            r@ == self@,
    {
        self.copy()
    }
}

impl PartialEq for PropsRecord {
    fn eq(&self, other: &Self) -> (r: bool) {
        self.same(other)
    }
}

impl PartialEqSpecImpl for PropsRecord {
    open spec fn obeys_eq_spec() -> bool {
        true
    }

    open spec fn eq_spec(&self, other: &Self) -> bool {
        self@ == other@
    }
}

/// The statement that takes a props record apart again, into the bindings
/// that the parameters declared.
#[derive(Debug)]
pub struct PropsDestructure {
    /// The record's name.
    pub record: String,
    /// One binding for each field, in the fields' order.
    pub bindings: Vec<ParamPattern>,
}

/// What a [`PropsDestructure`] holds, as mathematical values.
pub struct PropsDestructureView {
    pub record: Seq<char>,
    pub bindings: Seq<ParamPatternView>,
}

impl View for PropsDestructure {
    type V = PropsDestructureView;

    open spec fn view(&self) -> PropsDestructureView {
        PropsDestructureView { record: self.record@, bindings: views(self.bindings@) }
    }
}

impl Value for PropsDestructure {
    fn same(&self, other: &Self) -> (r: bool) {
        self.record.same(&other.record) && same_vec(&self.bindings, &other.bindings)
    }

    fn copy(&self) -> (r: Self) {
        PropsDestructure { record: self.record.copy(), bindings: copy_vec(&self.bindings) }
    }
}

impl Clone for PropsDestructure {
    fn clone(&self) -> (r: Self)
        ensures
            r@ == self@,
    {
        self.copy()
    }
}

impl PartialEq for PropsDestructure {
    fn eq(&self, other: &Self) -> (r: bool) {
        self.same(other)
    }
}

impl PartialEqSpecImpl for PropsDestructure {
    open spec fn obeys_eq_spec() -> bool {
        true
    }

    open spec fn eq_spec(&self, other: &Self) -> bool {
        self@ == other@
    }
}

/// A component function after lowering. It runs a block that first declares
/// an empty struct named `marker`, in a block of its own, then runs
/// `destructure` if there is one, then runs `sig.block` as it was written.
#[derive(Debug)]
pub struct ComponentFn {
    /// The function's header, and the body as it was written.
    pub sig: ComponentSignature,
    pub marker: String,
    pub destructure: Option<PropsDestructure>,
    /// Whether the block that the function runs is nested in the function's
    /// body, rather than being that body.
    pub nested: bool,
}

/// What a [`ComponentFn`] holds, as mathematical values.
pub struct ComponentFnView {
    pub sig: ComponentSignatureView,
    pub marker: Seq<char>,
    pub destructure: Option<PropsDestructureView>,
    pub nested: bool,
}

impl View for ComponentFn {
    type V = ComponentFnView;

    open spec fn view(&self) -> ComponentFnView {
        ComponentFnView {
            sig: self.sig@,
            marker: self.marker@,
            destructure: opt_view(self.destructure),
            nested: self.nested,
        }
    }
}

impl Value for ComponentFn {
    fn same(&self, other: &Self) -> (r: bool) {
        self.sig.same(&other.sig) && self.marker.same(&other.marker) && same_opt(
            &self.destructure,
            &other.destructure,
        ) && self.nested == other.nested
    }

    fn copy(&self) -> (r: Self) {
        ComponentFn {
            sig: self.sig.copy(),
            marker: self.marker.copy(),
            destructure: copy_opt(&self.destructure),
            nested: self.nested,
        }
    }
}

impl Clone for ComponentFn {
    fn clone(&self) -> (r: Self)
        ensures
            r@ == self@,
    {
        self.copy()
    }
}

impl PartialEq for ComponentFn {
    fn eq(&self, other: &Self) -> (r: bool) {
        self.same(other)
    }
}

impl PartialEqSpecImpl for ComponentFn {
    open spec fn obeys_eq_spec() -> bool {
        true
    }

    open spec fn eq_spec(&self, other: &Self) -> bool {
        self@ == other@
    }
}

/// One item of generated source.
#[derive(Debug)]
pub enum SourceItem {
    Struct(PropsRecord),
    Fn(ComponentFn),
}

/// What a [`SourceItem`] holds, as mathematical values.
pub enum SourceItemView {
    Struct(PropsRecordView),
    Fn(ComponentFnView),
}

impl View for SourceItem {
    type V = SourceItemView;

    open spec fn view(&self) -> SourceItemView {
        match self {
            SourceItem::Struct(s) => SourceItemView::Struct(s@),
            SourceItem::Fn(f) => SourceItemView::Fn(f@),
        }
    }
}

impl Value for SourceItem {
    fn same(&self, other: &Self) -> (r: bool) {
        match (self, other) {
            (SourceItem::Struct(a), SourceItem::Struct(b)) => a.same(b),
            (SourceItem::Fn(a), SourceItem::Fn(b)) => a.same(b),
            _ => false,
        }
    }

    fn copy(&self) -> (r: Self) {
        match self {
            SourceItem::Struct(s) => SourceItem::Struct(s.copy()),
            SourceItem::Fn(f) => SourceItem::Fn(f.copy()),
        }
    }
}

impl Clone for SourceItem {
    fn clone(&self) -> (r: Self)
        ensures
            r@ == self@,
    {
        self.copy()
    }
}

impl PartialEq for SourceItem {
    fn eq(&self, other: &Self) -> (r: bool) {
        self.same(other)
    }
}

impl PartialEqSpecImpl for SourceItem {
    open spec fn obeys_eq_spec() -> bool {
        true
    }

    open spec fn eq_spec(&self, other: &Self) -> bool {
        self@ == other@
    }
}

} // verus!
