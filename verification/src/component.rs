//! Validation of a component's signature and its lowering into a props
//! record and a rewritten function.

use vstd::prelude::*;
use vstd::pervasive::unreached;
use vstd::string::StringExecFns;
use crate::values::{views, opt_view, Value, copy_vec, separated, join};
use crate::signature::{
    Span, SourceAttr, SourceAttrView, Visibility, VisibilityView, GenericParamKind, Generics,
    GenericsView, ParamPattern, ParamPatternView, Parameter, ParameterView, ReturnType,
    ComponentSignature, ComponentSignatureView,
};
use crate::syntax::string_literal;
use crate::items::{
    PropsField, PropsFieldView, PropsRecord, PropsRecordView, PropsDestructure,
    PropsDestructureView, ComponentFn, ComponentFnView, SourceItem, SourceItemView,
};

verus! {

/// Why a function cannot be a component.
#[derive(Clone, Copy, Debug, PartialEq, Eq, Structural)]
pub enum SignatureErrorKind {
    /// No return type is written.
    MissingReturnType,
    /// A generic parameter is a lifetime.
    LifetimeParameter,
    /// The function is `async`.
    AsyncFn,
    /// The function is `const`.
    ConstFn,
    /// A parameter is a method's `self`.
    ReceiverParameter,
}

impl SignatureErrorKind {
    /// The diagnostic's text.
    pub open spec fn message_text(self) -> Seq<char> {
        match self {
            SignatureErrorKind::MissingReturnType => "Must return a <dioxus_core::Element>"@,
            SignatureErrorKind::LifetimeParameter => "Lifetimes are not supported in components"@,
            SignatureErrorKind::AsyncFn => "Async components are not supported"@,
            SignatureErrorKind::ConstFn => "Const components are not supported"@,
            SignatureErrorKind::ReceiverParameter => "Receiver parameters are not supported"@,
        }
    }

    /// The diagnostic's text.
    pub fn message(self) -> (s: String)
        ensures
            s@ == self.message_text(),
    {
        match self {
            SignatureErrorKind::MissingReturnType => String::from_str(
                "Must return a <dioxus_core::Element>",
            ),
            SignatureErrorKind::LifetimeParameter => String::from_str(
                "Lifetimes are not supported in components",
            ),
            SignatureErrorKind::AsyncFn => String::from_str("Async components are not supported"),
            SignatureErrorKind::ConstFn => String::from_str("Const components are not supported"),
            SignatureErrorKind::ReceiverParameter => String::from_str(
                "Receiver parameters are not supported",
            ),
        }
    }
}

/// A signature that validation refused: what is wrong, the text to show, and
/// the part of the source at fault.
#[derive(Clone, Debug, PartialEq, Eq)]
pub struct InvalidSignature {
    pub kind: SignatureErrorKind,
    pub message: String,
    pub span: Span,
}

/// Whether one of the generic parameters is a lifetime.
pub open spec fn has_lifetime_param(g: GenericsView) -> bool {
    exists|i: int|
        0 <= i < g.params.len() && (#[trigger] g.params[i]).kind == GenericParamKind::Lifetime
}

/// Whether one of the parameters is a receiver.
pub open spec fn has_receiver(inputs: Seq<ParameterView>) -> bool {
    exists|i: int| 0 <= i < inputs.len() && (#[trigger] inputs[i]) is Receiver
}

/// A function that can be a component: it declares a return type, has no
/// lifetime parameter, is neither `async` nor `const`, and takes no receiver.
pub open spec fn valid_signature(sig: ComponentSignatureView) -> bool {
    &&& !(sig.output is Default)
    &&& !has_lifetime_param(sig.generics)
    &&& sig.asyncness is None
    &&& sig.constness is None
    &&& !has_receiver(sig.inputs)
}

/// The first fault of a signature, in the order in which validation looks
/// for them, with the part of the source that it is reported at.
pub open spec fn first_violation(sig: ComponentSignatureView) -> Option<
    (SignatureErrorKind, Span),
> {
    if sig.output is Default {
        Some((SignatureErrorKind::MissingReturnType, sig.output_span))
    } else if has_lifetime_param(sig.generics) {
        Some((SignatureErrorKind::LifetimeParameter, sig.generics.span))
    } else if sig.asyncness is Some {
        Some((SignatureErrorKind::AsyncFn, sig.asyncness->0))
    } else if sig.constness is Some {
        Some((SignatureErrorKind::ConstFn, sig.constness->0))
    } else if has_receiver(sig.inputs) {
        Some((SignatureErrorKind::ReceiverParameter, sig.inputs_span))
    } else {
        None
    }
}

fn any_lifetime_param(g: &Generics) -> (r: bool)
    ensures
        r == has_lifetime_param(g@),
{
    let mut i: usize = 0;
    while i < g.params.len()
        invariant
            i <= g.params.len(),
            forall|j: int| 0 <= j < i ==> g.params[j].kind != GenericParamKind::Lifetime,
        decreases g.params.len() - i,
    {
        match g.params[i].kind {
            GenericParamKind::Lifetime => {
                assert(g@.params[i as int].kind == GenericParamKind::Lifetime);
                return true;
            },
            _ => {},
        }
        i += 1;
    }
    assert forall|j: int| 0 <= j < g@.params.len() implies (#[trigger] g@.params[j]).kind
        != GenericParamKind::Lifetime by {
        assert(g@.params[j] == g.params[j]@);
    }
    false
}

fn any_receiver(inputs: &Vec<Parameter>) -> (r: bool)
    ensures
        r == has_receiver(views(inputs@)),
{
    let mut i: usize = 0;
    while i < inputs.len()
        invariant
            i <= inputs.len(),
            forall|j: int| 0 <= j < i ==> !(inputs[j] is Receiver),
        decreases inputs.len() - i,
    {
        match &inputs[i] {
            Parameter::Receiver(_) => {
                assert(views(inputs@)[i as int] is Receiver);
                return true;
            },
            _ => {},
        }
        i += 1;
    }
    assert forall|j: int| 0 <= j < views(inputs@).len() implies !((#[trigger] views(
        inputs@,
    )[j]) is Receiver) by {
        assert(views(inputs@)[j] == inputs[j]@);
    }
    false
}

/// Checks that a function can be a component. A function that cannot is
/// refused with its first fault: the missing return type, then a lifetime
/// parameter, then `async`, then `const`, then a receiver.
pub fn validate_component_fn_signature(item_fn: &ComponentSignature) -> (r: Result<
    (),
    InvalidSignature,
>)
    ensures
        r is Ok <==> valid_signature(item_fn@),
        r matches Err(e) ==> first_violation(item_fn@) == Some((e.kind, e.span)) && e.message@
            == e.kind.message_text(),
{
    match item_fn.output {
        ReturnType::Default => {
            let kind = SignatureErrorKind::MissingReturnType;
            let span = item_fn.output_span;
            return Err(InvalidSignature { kind, message: kind.message(), span });
        },
        _ => {},
    }
    if any_lifetime_param(&item_fn.generics) {
        let kind = SignatureErrorKind::LifetimeParameter;
        return Err(InvalidSignature { kind, message: kind.message(), span: item_fn.generics.span });
    }
    match item_fn.asyncness {
        Some(span) => {
            let kind = SignatureErrorKind::AsyncFn;
            return Err(InvalidSignature { kind, message: kind.message(), span });
        },
        None => {},
    }
    match item_fn.constness {
        Some(span) => {
            let kind = SignatureErrorKind::ConstFn;
            return Err(InvalidSignature { kind, message: kind.message(), span });
        },
        None => {},
    }
    if any_receiver(&item_fn.inputs) {
        let kind = SignatureErrorKind::ReceiverParameter;
        return Err(InvalidSignature { kind, message: kind.message(), span: item_fn.inputs_span });
    }
    Ok(())
}

/// Whether lowering keeps its hands off the parameters because the author
/// wrote the props by hand: the only parameter is a binding named `props`.
pub open spec fn explicit_props_ident(sig: ComponentSignatureView) -> bool {
    &&& sig.inputs.len() == 1
    &&& sig.inputs[0] matches ParameterView::Typed { pat: ParamPatternView::Ident { name, .. }, .. }
    &&& name == "props"@
}

/// Whether lowering keeps its hands off the parameters because the author
/// took the props apart in place: the first parameter is a record pattern.
pub open spec fn struct_parameter_pattern(sig: ComponentSignatureView) -> bool {
    &&& sig.inputs.len() > 0
    &&& sig.inputs[0] matches ParameterView::Typed { pat: ParamPatternView::Struct(_), .. }
}

/// Whether lowering leaves the parameters as they are.
pub open spec fn bypasses_lowering(sig: ComponentSignatureView) -> bool {
    explicit_props_ident(sig) || struct_parameter_pattern(sig)
}

/// The name of the props record of the component `ident`.
pub open spec fn props_ident(ident: Seq<char>) -> Seq<char> {
    ident + "Props"@
}

/// The field that stands for the parameter `p` in a props record of
/// visibility `vis`: the parameter's attributes, its binding without `mut`,
/// and its declared type.
pub open spec fn prop_field(p: ParameterView, vis: VisibilityView) -> PropsFieldView
    recommends
        p is Typed,
{
    PropsFieldView { attrs: p->attrs, vis, name: p->pat.without_mut(), ty: p->ty }
}

/// The binding that the rewritten function declares for the parameter `p`:
/// its binding without `mut`, with `mut` put back where `p` declared it.
pub open spec fn rebinding(p: ParameterView) -> ParamPatternView
    recommends
        p is Typed,
{
    p->pat.without_mut().with_mut(p->pat.is_mut())
}

/// The props record of a component, before its documentation is attached.
pub open spec fn props_struct_of(sig: ComponentSignatureView) -> PropsRecordView {
    PropsRecordView {
        attrs: seq![
            SourceAttrView::Derive(seq!["Props"@, "Clone"@, "PartialEq"@]),
            SourceAttrView::Allow("non_camel_case_types"@),
        ],
        vis: sig.vis,
        ident: props_ident(sig.ident),
        generics: GenericsView {
            params: sig.generics.params,
            where_clause: None,
            span: sig.generics.span,
        },
        fields: Seq::new(sig.inputs.len(), |i: int| prop_field(sig.inputs[i], sig.vis)),
    }
}

/// The text of the documentation attached to the props record of `ident`.
pub open spec fn props_doc(ident: Seq<char>) -> Seq<char> {
    "Properties for the [`"@ + ident + "`] component."@
}

/// A props record with its documentation, written as the string literal
/// `doc`, in front of its other attributes.
pub open spec fn documented(rec: PropsRecordView, doc: Seq<char>) -> PropsRecordView {
    PropsRecordView { attrs: seq![SourceAttrView::Doc(doc)] + rec.attrs, ..rec }
}

/// The names of the generic parameters, in order.
pub open spec fn generic_names(g: GenericsView) -> Seq<Seq<char>> {
    Seq::new(g.params.len(), |i: int| g.params[i].name)
}

/// The generic arguments that name a type declared with the generics `g`:
/// nothing where there is no parameter, else the parameters' names between
/// angle brackets.
pub open spec fn type_generics(g: GenericsView) -> Seq<char> {
    if g.params.len() == 0 {
        Seq::empty()
    } else {
        "<"@ + separated(generic_names(g), ", "@) + ">"@
    }
}

/// The one parameter of a lowered component: `mut __props`, of the props
/// record's type.
pub open spec fn props_param(sig: ComponentSignatureView) -> ParameterView {
    ParameterView::Typed {
        attrs: Seq::empty(),
        pat: ParamPatternView::Ident { by_ref: false, mutable: true, name: "__props"@ },
        ty: props_ident(sig.ident) + type_generics(sig.generics),
    }
}

/// The attributes of a function with `allow(non_snake_case)` added at the end.
pub open spec fn with_camel_case_allowed(attrs: Seq<SourceAttrView>) -> Seq<SourceAttrView> {
    attrs.push(SourceAttrView::Allow("non_snake_case"@))
}

/// The rewritten function of a component whose parameters are lowered: it
/// takes the props record, if there was any parameter, and takes it apart
/// into the bindings that the parameters declared before the body runs. Of
/// what stands before `fn` only the visibility is kept, and the block that
/// it runs is nested in its body.
pub open spec fn comp_fn_of(sig: ComponentSignatureView) -> ComponentFnView {
    ComponentFnView {
        sig: ComponentSignatureView {
            attrs: with_camel_case_allowed(sig.attrs),
            constness: None,
            asyncness: None,
            unsafety: false,
            abi: None,
            inputs: if sig.inputs.len() == 0 {
                Seq::empty()
            } else {
                seq![props_param(sig)]
            },
            variadic: None,
            ..sig
        },
        nested: true,
        marker: sig.ident,
        destructure: if sig.inputs.len() == 0 {
            None
        } else {
            Some(
                PropsDestructureView {
                    record: props_ident(sig.ident),
                    bindings: Seq::new(sig.inputs.len(), |i: int| rebinding(sig.inputs[i])),
                },
            )
        },
    }
}

/// The function of a component whose parameters stay as they are: the whole
/// function as it was written, with the lint allowed and with a body that
/// declares the marker before it runs the body that was written.
pub open spec fn camel_case_fn_of(sig: ComponentSignatureView) -> ComponentFnView {
    ComponentFnView {
        sig: ComponentSignatureView { attrs: with_camel_case_allowed(sig.attrs), ..sig },
        marker: sig.ident,
        destructure: None,
        nested: false,
    }
}

/// What a component lowers to: the props record, where one is made, and
/// the function. No record is made where the author wrote the props by hand
/// or took them apart in place, nor where there is no parameter. The
/// record's documentation is written as the string literal `doc`.
pub open spec fn lowered(sig: ComponentSignatureView, doc: Seq<char>) -> (
    Option<PropsRecordView>,
    ComponentFnView,
) {
    if bypasses_lowering(sig) {
        (None, camel_case_fn_of(sig))
    } else if sig.inputs.len() == 0 {
        (None, comp_fn_of(sig))
    } else {
        (Some(documented(props_struct_of(sig), doc)), comp_fn_of(sig))
    }
}

/// The items that a component lowers to, in the order in which they are
/// written out: the props record, where one is made, then the function.
pub open spec fn lowered_items(sig: ComponentSignatureView, doc: Seq<char>) -> Seq<
    SourceItemView,
> {
    match lowered(sig, doc).0 {
        Some(record) => seq![
            SourceItemView::Struct(record),
            SourceItemView::Fn(lowered(sig, doc).1),
        ],
        None => seq![SourceItemView::Fn(lowered(sig, doc).1)],
    }
}

/// The field of a props record that stands for one parameter.
pub fn make_prop_struct_field(f: &Parameter, vis: &Visibility) -> (r: PropsField)
    requires
        f@ is Typed,
    ensures
        r@ == prop_field(f@, vis@),
{
    match f {
        Parameter::Typed { attrs, pat, ty } => PropsField {
            attrs: copy_vec(attrs),
            vis: vis.copy(),
            name: pat.without_mut(),
            ty: ty.copy(),
        },
        Parameter::Receiver(_) => unreached(),
    }
}

/// The binding that the rewritten function declares for one parameter.
pub fn rebind_mutability(f: &Parameter) -> (r: Option<ParamPattern>)
    requires
        f@ is Typed,
    ensures
        r matches Some(p) && p@ == rebinding(f@),
{
    match f {
        Parameter::Typed { pat, .. } => {
            let declared = pat.is_mut();
            match pat.without_mut() {
                ParamPattern::Ident { by_ref, mutable: _, name } => Some(
                    ParamPattern::Ident { by_ref, mutable: declared, name },
                ),
                other => Some(other),
            }
        },
        Parameter::Receiver(_) => unreached(),
    }
}

/// The attributes of a function with `allow(non_snake_case)` added at the end.
fn camel_case_attrs(attrs: &Vec<SourceAttr>) -> (r: Vec<SourceAttr>)
    ensures
        views(r@) == with_camel_case_allowed(views(attrs@)),
{
    let mut out = copy_vec(attrs);
    out.push(SourceAttr::Allow(String::from_str("non_snake_case")));
    assert(views(out@) =~= with_camel_case_allowed(views(attrs@)));
    out
}

/// Declares a function to be a component without touching its parameters:
/// the name may be written like a type's, and the body is nested in a block
/// that declares an empty struct of that name.
pub fn prefer_camel_case_for_fn_ident(item_fn: &ComponentSignature) -> (r: ComponentFn)
    ensures
        r@ == camel_case_fn_of(item_fn@),
{
    let mut sig = item_fn.copy();
    sig.attrs = camel_case_attrs(&item_fn.attrs);
    ComponentFn { sig, marker: item_fn.ident.copy(), destructure: None, nested: false }
}

/// The name of the props record of the component `ident`.
fn props_name(ident: &String) -> (r: String)
    ensures
        r@ == props_ident(ident@),
{
    let mut name = ident.copy();
    name.append("Props");
    name
}

/// The generic arguments that name a type declared with the generics `g`.
fn type_generics_text(g: &Generics) -> (r: String)
    ensures
        r@ == type_generics(g@),
{
    let mut out = String::new();
    if g.params.len() == 0 {
        return out;
    }
    let mut names: Vec<String> = Vec::new();
    let mut i: usize = 0;
    while i < g.params.len()
        invariant
            i <= g.params.len(),
            names.len() == i,
            forall|j: int| 0 <= j < i ==> names[j]@ == g.params[j].name@,
        decreases g.params.len() - i,
    {
        names.push(g.params[i].name.copy());
        i += 1;
    }
    assert(views(names@) =~= generic_names(g@));
    out.append("<");
    out.append(join(&names, ", ").as_str());
    out.append(">");
    assert(out@ =~= type_generics(g@));
    out
}

/// A component: a function whose signature has passed validation.
#[derive(Debug)]
pub struct ComponentBody {
    item_fn: ComponentSignature,
}

impl View for ComponentBody {
    type V = ComponentSignatureView;

    closed spec fn view(&self) -> ComponentSignatureView {
        self.item_fn@
    }
}

impl ComponentBody {
    #[verifier::type_invariant]
    spec fn well_formed(self) -> bool {
        valid_signature(self.item_fn@)
    }

    /// Takes a parsed function as a component, if its signature allows it.
    pub fn parse(item_fn: ComponentSignature) -> (r: Result<ComponentBody, InvalidSignature>)
        ensures
            r is Ok <==> valid_signature(item_fn@),
            r matches Ok(body) ==> body@ == item_fn@,
            r matches Err(e) ==> first_violation(item_fn@) == Some((e.kind, e.span)) && e.message@
                == e.kind.message_text(),
    {
        match validate_component_fn_signature(&item_fn) {
            Ok(()) => Ok(ComponentBody { item_fn }),
            Err(e) => Err(e),
        }
    }

    /// The function that the component was made from.
    pub fn item_fn(&self) -> (r: &ComponentSignature)
        ensures
            r@ == self@,
            valid_signature(r@),
    {
        proof {
            use_type_invariant(self);
        }
        &self.item_fn
    }

    /// The rewritten function: it takes the props record in place of the
    /// parameters and takes it apart before the body runs.
    pub fn comp_fn(&self) -> (r: ComponentFn)
        ensures
            r@ == comp_fn_of(self@),
    {
        proof {
            use_type_invariant(self);
        }
        let item_fn = &self.item_fn;
        let struct_ident = props_name(&item_fn.ident);
        let mut bindings: Vec<ParamPattern> = Vec::new();
        let mut i: usize = 0;
        while i < item_fn.inputs.len()
            invariant
                i <= item_fn.inputs.len(),
                !has_receiver(views(item_fn.inputs@)),
                bindings.len() == i,
                forall|j: int| 0 <= j < i ==> bindings[j]@ == rebinding(item_fn.inputs[j]@),
            decreases item_fn.inputs.len() - i,
        {
            assert(views(item_fn.inputs@)[i as int] == item_fn.inputs[i as int]@);
            match rebind_mutability(&item_fn.inputs[i]) {
                Some(binding) => bindings.push(binding),
                None => {},
            }
            i += 1;
        }
        let mut inputs: Vec<Parameter> = Vec::new();
        let mut destructure: Option<PropsDestructure> = None;
        if item_fn.inputs.len() > 0 {
            let mut ty = struct_ident.copy();
            ty.append(type_generics_text(&item_fn.generics).as_str());
            let attrs: Vec<SourceAttr> = Vec::new();
            assert(views(attrs@) =~= Seq::empty());
            let param = Parameter::Typed {
                attrs,
                pat: ParamPattern::Ident {
                    by_ref: false,
                    mutable: true,
                    name: String::from_str("__props"),
                },
                ty,
            };
            assert(param@ == props_param(self@));
            inputs.push(param);
            assert(views(bindings@) =~= Seq::new(
                item_fn.inputs.len() as nat,
                |i: int| rebinding(item_fn@.inputs[i]),
            ));
            destructure = Some(PropsDestructure { record: struct_ident, bindings });
        }
        let sig = ComponentSignature {
            attrs: camel_case_attrs(&item_fn.attrs),
            vis: item_fn.vis.copy(),
            constness: None,
            asyncness: None,
            unsafety: false,
            abi: None,
            ident: item_fn.ident.copy(),
            generics: item_fn.generics.copy(),
            inputs,
            variadic: None,
            inputs_span: item_fn.inputs_span,
            output: item_fn.output.copy(),
            output_span: item_fn.output_span,
            block: item_fn.block.copy(),
        };
        assert(views(sig.inputs@) =~= comp_fn_of(self@).sig.inputs);
        ComponentFn { sig, marker: item_fn.ident.copy(), destructure, nested: true }
    }

    /// The props record of the component: one field for each parameter of
    /// the function, in order.
    pub fn props_struct(&self) -> (r: PropsRecord)
        ensures
            r@ == props_struct_of(self@),
    {
        proof {
            use_type_invariant(self);
        }
        let item_fn = &self.item_fn;
        let mut fields: Vec<PropsField> = Vec::new();
        let mut i: usize = 0;
        while i < item_fn.inputs.len()
            invariant
                i <= item_fn.inputs.len(),
                !has_receiver(views(item_fn.inputs@)),
                fields.len() == i,
                forall|j: int|
                    0 <= j < i ==> fields[j]@ == prop_field(item_fn.inputs[j]@, item_fn.vis@),
            decreases item_fn.inputs.len() - i,
        {
            assert(views(item_fn.inputs@)[i as int] == item_fn.inputs[i as int]@);
            fields.push(make_prop_struct_field(&item_fn.inputs[i], &item_fn.vis));
            i += 1;
        }
        let mut derives: Vec<String> = Vec::new();
        derives.push(String::from_str("Props"));
        derives.push(String::from_str("Clone"));
        derives.push(String::from_str("PartialEq"));
        assert(views(derives@) =~= seq!["Props"@, "Clone"@, "PartialEq"@]);
        let mut attrs: Vec<SourceAttr> = Vec::new();
        attrs.push(SourceAttr::Derive(derives));
        attrs.push(SourceAttr::Allow(String::from_str("non_camel_case_types")));
        assert(views(attrs@) =~= props_struct_of(self@).attrs);
        assert(views(fields@) =~= props_struct_of(self@).fields);
        PropsRecord {
            attrs,
            vis: item_fn.vis.copy(),
            ident: props_name(&item_fn.ident),
            generics: Generics {
                params: copy_vec(&item_fn.generics.params),
                where_clause: None,
                span: item_fn.generics.span,
            },
            fields,
        }
    }

    /// Whether the only parameter is a binding named `props`.
    pub fn is_explicit_props_ident(&self) -> (r: bool)
        ensures
            r == explicit_props_ident(self@),
    {
        if self.item_fn.inputs.len() != 1 {
            return false;
        }
        assert(views(self.item_fn.inputs@)[0] == self.item_fn.inputs[0]@);
        match &self.item_fn.inputs[0] {
            Parameter::Typed { pat: ParamPattern::Ident { name, .. }, .. } => name.same(
                &String::from_str("props"),
            ),
            _ => false,
        }
    }

    /// Whether the first parameter is a record pattern.
    pub fn has_struct_parameter_pattern(&self) -> (r: bool)
        ensures
            r == struct_parameter_pattern(self@),
    {
        if self.item_fn.inputs.len() == 0 {
            return false;
        }
        assert(views(self.item_fn.inputs@)[0] == self.item_fn.inputs[0]@);
        match &self.item_fn.inputs[0] {
            Parameter::Typed { pat: ParamPattern::Struct(_), .. } => true,
            _ => false,
        }
    }

    /// The text of the documentation of the component's props record.
    pub fn props_doc_text(&self) -> (r: String)
        ensures
            r@ == props_doc(self@.ident),
    {
        let mut doc = String::from_str("Properties for the [`");
        doc.append(self.item_fn.ident.as_str());
        doc.append("`] component.");
        doc
    }

    /// Lowers the component to its props record, where one is made, and its
    /// function, with the record's documentation given as a string literal.
    pub fn lower_with(&self, doc: String) -> (r: (Option<PropsRecord>, ComponentFn))
        ensures
            opt_view(r.0) == lowered(self@, doc@).0,
            r.1@ == lowered(self@, doc@).1,
    {
        if self.is_explicit_props_ident() || self.has_struct_parameter_pattern() {
            return (None, prefer_camel_case_for_fn_ident(&self.item_fn));
        }
        let comp_fn = self.comp_fn();
        if self.item_fn.inputs.len() == 0 {
            return (None, comp_fn);
        }
        let mut props_struct = self.props_struct();
        let ghost plain = props_struct@;
        let mut attrs: Vec<SourceAttr> = Vec::new();
        attrs.push(SourceAttr::Doc(doc));
        let mut i: usize = 0;
        while i < props_struct.attrs.len()
            invariant
                i <= props_struct.attrs.len(),
                attrs.len() == i + 1,
                attrs[0]@ == SourceAttrView::Doc(doc@),
                forall|j: int| 0 <= j < i ==> attrs[j + 1]@ == props_struct.attrs[j]@,
            decreases props_struct.attrs.len() - i,
        {
            attrs.push(props_struct.attrs[i].copy());
            i += 1;
        }
        assert(views(attrs@) =~= documented(plain, doc@).attrs);
        props_struct.attrs = attrs;
        (Some(props_struct), comp_fn)
    }

    /// Lowers the component to its props record, where one is made, and its
    /// function. How the record's documentation is written as a string
    /// literal is the token printer's to say.
    pub fn lower(&self) -> (r: (Option<PropsRecord>, ComponentFn))
        ensures
            exists|doc: Seq<char>|
                {
                    &&& opt_view(r.0) == (#[trigger] lowered(self@, doc)).0
                    &&& r.1@ == lowered(self@, doc).1
                },
    {
        let doc = string_literal(self.props_doc_text().as_str());
        self.lower_with(doc)
    }

    /// Writes the component out at the end of `tokens`: the props record,
    /// where one is made, and then the function.
    pub fn to_tokens(&self, tokens: &mut Vec<SourceItem>)
        ensures
            exists|doc: Seq<char>|
                views(final(tokens)@) == views(old(tokens)@) + #[trigger] lowered_items(
                    self@,
                    doc,
                ),
    {
        let (props_struct, comp_fn) = self.lower();
        let ghost doc = choose|doc: Seq<char>|
            {
                &&& opt_view(props_struct) == (#[trigger] lowered(self@, doc)).0
                &&& comp_fn@ == lowered(self@, doc).1
            };
        match props_struct {
            Some(record) => tokens.push(SourceItem::Struct(record)),
            None => {},
        }
        tokens.push(SourceItem::Fn(comp_fn));
        assert(views(tokens@) =~= views(old(tokens)@) + lowered_items(self@, doc));
    }
}

/// Each fault is enough for a signature to be refused, whatever else holds
/// of it; a signature is refused exactly when it has a first fault; and a
/// fault that no earlier one hides is the one reported, at its own place.
pub proof fn lemma_each_fault_is_refused(sig: ComponentSignatureView)
    ensures
        sig.output is Default ==> !valid_signature(sig),
        has_lifetime_param(sig.generics) ==> !valid_signature(sig),
        sig.asyncness is Some ==> !valid_signature(sig),
        sig.constness is Some ==> !valid_signature(sig),
        has_receiver(sig.inputs) ==> !valid_signature(sig),
        valid_signature(sig) <==> first_violation(sig) is None,
        sig.output is Default ==> first_violation(sig) == Some(
            (SignatureErrorKind::MissingReturnType, sig.output_span),
        ),
        !(sig.output is Default) && has_lifetime_param(sig.generics) ==> first_violation(sig)
            == Some((SignatureErrorKind::LifetimeParameter, sig.generics.span)),
        !(sig.output is Default) && !has_lifetime_param(sig.generics) && sig.asyncness is Some
            ==> first_violation(sig) == Some((SignatureErrorKind::AsyncFn, sig.asyncness->0)),
        !(sig.output is Default) && !has_lifetime_param(sig.generics) && sig.asyncness is None
            && sig.constness is Some ==> first_violation(sig) == Some(
            (SignatureErrorKind::ConstFn, sig.constness->0),
        ),
        !(sig.output is Default) && !has_lifetime_param(sig.generics) && sig.asyncness is None
            && sig.constness is None && has_receiver(sig.inputs) ==> first_violation(sig) == Some(
            (SignatureErrorKind::ReceiverParameter, sig.inputs_span),
        ),
{
}

/// Two different faults never share the text of their diagnostic.
pub proof fn lemma_diagnostics_are_distinct(a: SignatureErrorKind, b: SignatureErrorKind)
    requires
        a != b,
    ensures
        a.message_text() != b.message_text(),
{
    reveal_strlit("Must return a <dioxus_core::Element>");
    reveal_strlit("Lifetimes are not supported in components");
    reveal_strlit("Async components are not supported");
    reveal_strlit("Const components are not supported");
    reveal_strlit("Receiver parameters are not supported");
    let async_text = "Async components are not supported"@;
    let const_text = "Const components are not supported"@;
    assert(async_text[0] == 'A');
    assert(const_text[0] == 'C');
    assert(a.message_text().len() != b.message_text().len() || a.message_text()[0]
        != b.message_text()[0]);
}

/// A valid signature with parameters, whose author neither wrote the props
/// by hand nor took them apart in place, lowers to a props record that
/// mirrors the parameters: as many fields as parameters and, position by
/// position, the parameter's binding without `mut` as the field's name and
/// the parameter's declared type as the field's type. The function then
/// takes the record as its one argument.
pub proof fn lemma_record_mirrors_parameters(sig: ComponentSignatureView, doc: Seq<char>)
    requires
        valid_signature(sig),
        sig.inputs.len() > 0,
        !bypasses_lowering(sig),
    ensures
        lowered(sig, doc).0 matches Some(record) && {
            &&& record.ident == sig.ident + "Props"@
            &&& record.fields.len() == sig.inputs.len()
            &&& forall|i: int|
                #![trigger record.fields[i]]
                0 <= i < sig.inputs.len() ==> {
                    &&& sig.inputs[i] is Typed
                    &&& record.fields[i].name == sig.inputs[i]->pat.without_mut()
                    &&& !record.fields[i].name.is_mut()
                    &&& record.fields[i].ty == sig.inputs[i]->ty
                    &&& record.fields[i].attrs == sig.inputs[i]->attrs
                }
        },
        lowered(sig, doc).1.sig.inputs.len() == 1,
        lowered(sig, doc).1.sig.inputs[0] matches ParameterView::Typed { ty, .. } && ty == sig.ident
            + "Props"@ + type_generics(sig.generics),
        lowered(sig, doc).1.destructure matches Some(d) && d.bindings.len() == sig.inputs.len(),
{
    let record = lowered(sig, doc).0->0;
    assert forall|i: int| #![trigger record.fields[i]] 0 <= i < sig.inputs.len() implies {
        &&& sig.inputs[i] is Typed
        &&& record.fields[i].name == sig.inputs[i]->pat.without_mut()
        &&& !record.fields[i].name.is_mut()
        &&& record.fields[i].ty == sig.inputs[i]->ty
        &&& record.fields[i].attrs == sig.inputs[i]->attrs
    } by {
        assert(!(sig.inputs[i] is Receiver));
    }
}

/// Where the author wrote the props by hand or took them apart in place, no
/// props record is made and the parameters stay as they are.
pub proof fn lemma_bypass_keeps_parameters(sig: ComponentSignatureView, doc: Seq<char>)
    requires
        bypasses_lowering(sig),
    ensures
        lowered(sig, doc).0 is None,
        lowered(sig, doc).1.sig.inputs == sig.inputs,
        lowered(sig, doc).1.sig.variadic == sig.variadic,
        lowered(sig, doc).1.sig == (ComponentSignatureView {
            attrs: with_camel_case_allowed(sig.attrs),
            ..sig
        }),
        lowered(sig, doc).1.destructure is None,
        lowered_items(sig, doc).len() == 1,
{
}

/// A function without parameters lowers to no props record and still takes
/// no argument.
pub proof fn lemma_no_parameters_no_record(sig: ComponentSignatureView, doc: Seq<char>)
    requires
        sig.inputs.len() == 0,
    ensures
        lowered(sig, doc).0 is None,
        lowered(sig, doc).1.sig.inputs.len() == 0,
        lowered(sig, doc).1.destructure is None,
        lowered_items(sig, doc).len() == 1,
{
}

/// The binding that the rewritten function declares for a parameter is the
/// parameter's own: the name that the field has, and `mut` exactly where the
/// parameter declared it.
pub proof fn lemma_rebinding_is_declared_binding(p: ParameterView, vis: VisibilityView)
    requires
        p is Typed,
    ensures
        rebinding(p) == p->pat,
        rebinding(p).without_mut() == prop_field(p, vis).name,
        rebinding(p).is_mut() == p->pat.is_mut(),
{
}

/// Lowering leaves the body, the name, the visibility, the generics and the
/// return type of a function as they were written.
pub proof fn lemma_lowering_keeps_the_rest(sig: ComponentSignatureView, doc: Seq<char>)
    ensures
        lowered(sig, doc).1.sig.block == sig.block,
        lowered(sig, doc).1.sig.ident == sig.ident,
        lowered(sig, doc).1.sig.vis == sig.vis,
        lowered(sig, doc).1.sig.generics == sig.generics,
        lowered(sig, doc).1.sig.output == sig.output,
        lowered(sig, doc).1.marker == sig.ident,
{
}

} // verus!
