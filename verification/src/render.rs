//! Generated items as source text, ready to be parsed again.

use vstd::prelude::*;
use vstd::string::StringExecFns;
use crate::values::{views, opt_view, separated, join};
use crate::signature::{
    SourceAttr, SourceAttrView, Visibility, VisibilityView, Generics, GenericsView, ParamPattern,
    ParamPatternView, Parameter, ParameterView, ReturnType, ReturnTypeView, ComponentSignature,
    ComponentSignatureView,
};
use crate::items::{
    PropsField, PropsFieldView, PropsRecord, PropsRecordView, PropsDestructure,
    PropsDestructureView, ComponentFn, ComponentFnView, SourceItem, SourceItemView,
};
use crate::component::{ComponentBody, lowered_items};
use crate::syntax::{MalformedItem, fn_item_fault, struct_item_fault, checked};

verus! {

/// The parts in order, each followed by `end`.
pub open spec fn terminated(parts: Seq<Seq<char>>, end: Seq<char>) -> Seq<char>
    decreases parts.len(),
{
    if parts.len() == 0 {
        Seq::empty()
    } else {
        terminated(parts.drop_last(), end) + parts.last() + end
    }
}

/// `word` if `present`, else nothing.
pub open spec fn optional(present: bool, word: Seq<char>) -> Seq<char> {
    if present {
        word
    } else {
        Seq::empty()
    }
}

/// A documentation comment as an attribute, from its text as a string
/// literal.
pub open spec fn doc_source(literal: Seq<char>) -> Seq<char> {
    "#[doc = "@ + literal + "]"@
}

/// An attribute between `#[` and `]`. A documentation comment is written as
/// `doc = ".."`.
pub open spec fn attr_source(a: SourceAttrView) -> Seq<char> {
    match a {
        SourceAttrView::Doc(literal) => doc_source(literal),
        SourceAttrView::Allow(lint) => "#[allow("@ + lint + ")]"@,
        SourceAttrView::Derive(traits) => "#[derive("@ + separated(traits, ", "@) + ")]"@,
        SourceAttrView::Other(t) => "#["@ + t + "]"@,
    }
}

/// The attributes in order, each followed by `end`.
pub open spec fn attrs_source(attrs: Seq<SourceAttrView>, end: Seq<char>) -> Seq<char> {
    terminated(Seq::new(attrs.len(), |i: int| attr_source(attrs[i])), end)
}

/// A visibility with the space that parts it from what follows; nothing
/// where none is written.
pub open spec fn vis_source(v: VisibilityView) -> Seq<char> {
    match v {
        VisibilityView::Inherited => Seq::empty(),
        VisibilityView::Public => "pub "@,
        VisibilityView::Restricted(p) => "pub("@ + p + ") "@,
    }
}

/// The generic parameters as they are declared, between angle brackets;
/// nothing where there is none.
pub open spec fn generics_source(g: GenericsView) -> Seq<char> {
    if g.params.len() == 0 {
        Seq::empty()
    } else {
        "<"@ + separated(Seq::new(g.params.len(), |i: int| g.params[i].declaration), ", "@) + ">"@
    }
}

/// The `where` clause after a space; nothing where there is none.
pub open spec fn where_source(g: GenericsView) -> Seq<char> {
    match g.where_clause {
        Some(w) => " where "@ + w,
        None => Seq::empty(),
    }
}

/// A binding with its `ref` and its `mut`; any other pattern as it is
/// written.
pub open spec fn pattern_source(p: ParamPatternView) -> Seq<char> {
    match p {
        ParamPatternView::Ident { by_ref, mutable, name } => optional(by_ref, "ref "@) + optional(
            mutable,
            "mut "@,
        ) + name,
        ParamPatternView::Struct(t) => t,
        ParamPatternView::Other(t) => t,
    }
}

/// A parameter: its attributes, its pattern, a colon and its type; a
/// receiver as it is written.
pub open spec fn param_source(p: ParameterView) -> Seq<char> {
    match p {
        ParameterView::Receiver(t) => t,
        ParameterView::Typed { attrs, pat, ty } => attrs_source(attrs, " "@) + pattern_source(pat)
            + ": "@ + ty,
    }
}

/// The return type after an arrow; nothing where none is written.
pub open spec fn output_source(o: ReturnTypeView) -> Seq<char> {
    match o {
        ReturnTypeView::Default => Seq::empty(),
        ReturnTypeView::Type(t) => " -> "@ + t,
    }
}

/// The ABI with the space that parts it from what follows; nothing where
/// none is written.
pub open spec fn abi_source(abi: Option<Seq<char>>) -> Seq<char> {
    match abi {
        Some(abi) => abi + " "@,
        None => Seq::empty(),
    }
}

/// What stands between the parentheses of a function: the parameters and,
/// after them, what stands for further arguments, if anything does.
pub open spec fn params_source(sig: ComponentSignatureView) -> Seq<Seq<char>> {
    let params = Seq::new(sig.inputs.len(), |i: int| param_source(sig.inputs[i]));
    match sig.variadic {
        Some(variadic) => params.push(variadic),
        None => params,
    }
}

/// A function up to its body: attributes, one to a line, then visibility,
/// `const`, `async`, `unsafe`, the ABI, `fn`, the name, the generics, the
/// parameters between parentheses, the return type and the `where` clause.
pub open spec fn header_source(sig: ComponentSignatureView) -> Seq<char> {
    attrs_source(sig.attrs, "\n"@) + vis_source(sig.vis) + optional(
        sig.constness is Some,
        "const "@,
    ) + optional(sig.asyncness is Some, "async "@) + optional(sig.unsafety, "unsafe "@)
        + abi_source(sig.abi) + "fn "@ + sig.ident + generics_source(sig.generics) + "("@
        + separated(params_source(sig), ", "@) + ")"@ + output_source(sig.output) + where_source(
        sig.generics,
    )
}

/// The statement that takes the props record apart, with the space after
/// it; nothing where there is none.
pub open spec fn destructure_source(d: Option<PropsDestructureView>) -> Seq<char> {
    match d {
        Some(d) => "let "@ + d.record + " { "@ + separated(
            Seq::new(d.bindings.len(), |i: int| pattern_source(d.bindings[i])),
            ", "@,
        ) + " } = __props; "@,
        None => Seq::empty(),
    }
}

/// The block that a lowered function runs: it declares the marker in a
/// block of its own, takes the props apart if there are any, and ends in the
/// body as it was written.
pub open spec fn block_source(f: ComponentFnView) -> Seq<char> {
    "{ { struct "@ + f.marker + " {} } "@ + destructure_source(f.destructure) + f.sig.block
        + " }"@
}

/// A lowered function: its header and the block that it runs, which is its
/// body or, where it is nested, the one thing in its body.
pub open spec fn fn_source(f: ComponentFnView) -> Seq<char> {
    if f.nested {
        header_source(f.sig) + " { "@ + block_source(f) + " }"@
    } else {
        header_source(f.sig) + " "@ + block_source(f)
    }
}

/// A field: its attributes, its visibility, its name, a colon and its type.
pub open spec fn field_source(f: PropsFieldView) -> Seq<char> {
    attrs_source(f.attrs, " "@) + vis_source(f.vis) + pattern_source(f.name) + ": "@ + f.ty
}

/// A props record: attributes, one to a line, then visibility, `struct`,
/// the name, the generics, the `where` clause, and the fields between
/// braces.
pub open spec fn record_source(r: PropsRecordView) -> Seq<char> {
    attrs_source(r.attrs, "\n"@) + vis_source(r.vis) + "struct "@ + r.ident + generics_source(
        r.generics,
    ) + where_source(r.generics) + " { "@ + separated(
        Seq::new(r.fields.len(), |i: int| field_source(r.fields[i])),
        ", "@,
    ) + " }"@
}

/// One generated item.
pub open spec fn item_source(item: SourceItemView) -> Seq<char> {
    match item {
        SourceItemView::Struct(r) => record_source(r),
        SourceItemView::Fn(f) => fn_source(f),
    }
}

/// Generated items in order, one to a line.
pub open spec fn items_source(items: Seq<SourceItemView>) -> Seq<char> {
    terminated(Seq::new(items.len(), |i: int| item_source(items[i])), "\n"@)
}

/// The strings in order, each followed by `end`.
fn concat_each(parts: &Vec<String>, end: &str) -> (r: String)
    ensures
        r@ == terminated(views(parts@), end@),
{
    let ghost texts = views(parts@);
    let mut out = String::new();
    assert(texts.take(0).len() == 0);
    let mut i: usize = 0;
    while i < parts.len()
        invariant
            i <= parts.len(),
            texts == views(parts@),
            out@ == terminated(texts.take(i as int), end@),
        decreases parts.len() - i,
    {
        proof {
            let next = texts.take(i as int + 1);
            assert(next.drop_last() =~= texts.take(i as int));
            assert(next.last() == parts[i as int]@);
        }
        out.append(parts[i].as_str());
        out.append(end);
        i += 1;
    }
    assert(texts.take(i as int) =~= texts);
    out
}

/// Adds `word` to `out` if `present`.
fn append_if(out: &mut String, present: bool, word: &str)
    ensures
        final(out)@ == old(out)@ + optional(present, word@),
{
    if present {
        out.append(word);
    }
    assert(out@ =~= old(out)@ + optional(present, word@));
}

/// A documentation comment as an attribute, from its text as a string
/// literal.
pub fn doc_to_source(literal: &str) -> (r: String)
    ensures
        r@ == doc_source(literal@),
{
    let mut out = String::from_str("#[doc = ");
    out.append(literal);
    out.append("]");
    out
}

impl SourceAttr {
    /// The attribute as source text.
    pub fn to_source(&self) -> (r: String)
        ensures
            r@ == attr_source(self@),
    {
        match self {
            SourceAttr::Doc(literal) => doc_to_source(literal.as_str()),
            SourceAttr::Allow(lint) => {
                let mut out = String::from_str("#[allow(");
                out.append(lint.as_str());
                out.append(")]");
                out
            },
            SourceAttr::Derive(traits) => {
                let mut out = String::from_str("#[derive(");
                out.append(join(traits, ", ").as_str());
                out.append(")]");
                out
            },
            SourceAttr::Other(t) => {
                let mut out = String::from_str("#[");
                out.append(t.as_str());
                out.append("]");
                out
            },
        }
    }
}

/// The attributes in order, each followed by `end`.
fn attrs_to_source(attrs: &Vec<SourceAttr>, end: &str) -> (r: String)
    ensures
        r@ == attrs_source(views(attrs@), end@),
{
    let mut parts: Vec<String> = Vec::new();
    let mut i: usize = 0;
    while i < attrs.len()
        invariant
            i <= attrs.len(),
            parts.len() == i,
            forall|j: int| 0 <= j < i ==> parts[j]@ == attr_source(attrs[j]@),
        decreases attrs.len() - i,
    {
        parts.push(attrs[i].to_source());
        i += 1;
    }
    assert(views(parts@) =~= Seq::new(
        views(attrs@).len(),
        |i: int| attr_source(views(attrs@)[i]),
    ));
    concat_each(&parts, end)
}

impl Visibility {
    /// The visibility as source text, with the space after it.
    pub fn to_source(&self) -> (r: String)
        ensures
            r@ == vis_source(self@),
    {
        match self {
            Visibility::Inherited => String::new(),
            Visibility::Public => String::from_str("pub "),
            Visibility::Restricted(p) => {
                let mut out = String::from_str("pub(");
                out.append(p.as_str());
                out.append(") ");
                out
            },
        }
    }
}

impl Generics {
    /// The generic parameters as source text.
    pub fn to_source(&self) -> (r: String)
        ensures
            r@ == generics_source(self@),
    {
        if self.params.len() == 0 {
            return String::new();
        }
        let mut parts: Vec<String> = Vec::new();
        let mut i: usize = 0;
        while i < self.params.len()
            invariant
                i <= self.params.len(),
                parts.len() == i,
                forall|j: int| 0 <= j < i ==> parts[j]@ == self.params[j].declaration@,
            decreases self.params.len() - i,
        {
            parts.push(self.params[i].declaration.clone());
            i += 1;
        }
        assert(views(parts@) =~= Seq::new(
            self@.params.len(),
            |i: int| self@.params[i].declaration,
        ));
        let mut out = String::from_str("<");
        out.append(join(&parts, ", ").as_str());
        out.append(">");
        out
    }

    /// The `where` clause as source text, after a space.
    pub fn where_to_source(&self) -> (r: String)
        ensures
            r@ == where_source(self@),
    {
        match &self.where_clause {
            Some(w) => {
                let mut out = String::from_str(" where ");
                out.append(w.as_str());
                out
            },
            None => String::new(),
        }
    }
}

impl ParamPattern {
    /// The pattern as source text.
    pub fn to_source(&self) -> (r: String)
        ensures
            r@ == pattern_source(self@),
    {
        match self {
            ParamPattern::Ident { by_ref, mutable, name } => {
                let mut out = String::new();
                append_if(&mut out, *by_ref, "ref ");
                append_if(&mut out, *mutable, "mut ");
                out.append(name.as_str());
                assert(out@ =~= pattern_source(self@));
                out
            },
            ParamPattern::Struct(t) => t.clone(),
            ParamPattern::Other(t) => t.clone(),
        }
    }
}

/// The patterns as source text, with a comma and a space between each two.
fn patterns_to_source(patterns: &Vec<ParamPattern>) -> (r: String)
    ensures
        r@ == separated(
            Seq::new(views(patterns@).len(), |i: int| pattern_source(views(patterns@)[i])),
            ", "@,
        ),
{
    let mut parts: Vec<String> = Vec::new();
    let mut i: usize = 0;
    while i < patterns.len()
        invariant
            i <= patterns.len(),
            parts.len() == i,
            forall|j: int| 0 <= j < i ==> parts[j]@ == pattern_source(patterns[j]@),
        decreases patterns.len() - i,
    {
        parts.push(patterns[i].to_source());
        i += 1;
    }
    assert(views(parts@) =~= Seq::new(
        views(patterns@).len(),
        |i: int| pattern_source(views(patterns@)[i]),
    ));
    join(&parts, ", ")
}

impl Parameter {
    /// The parameter as source text.
    pub fn to_source(&self) -> (r: String)
        ensures
            r@ == param_source(self@),
    {
        match self {
            Parameter::Receiver(t) => t.clone(),
            Parameter::Typed { attrs, pat, ty } => {
                let mut out = attrs_to_source(attrs, " ");
                out.append(pat.to_source().as_str());
                out.append(": ");
                out.append(ty.as_str());
                out
            },
        }
    }
}

impl ReturnType {
    /// The return type as source text, after its arrow.
    pub fn to_source(&self) -> (r: String)
        ensures
            r@ == output_source(self@),
    {
        match self {
            ReturnType::Default => String::new(),
            ReturnType::Type(t) => {
                let mut out = String::from_str(" -> ");
                out.append(t.as_str());
                out
            },
        }
    }
}

impl ComponentSignature {
    /// The function up to its body as source text.
    pub fn header_to_source(&self) -> (r: String)
        ensures
            r@ == header_source(self@),
    {
        let mut params: Vec<String> = Vec::new();
        let mut i: usize = 0;
        while i < self.inputs.len()
            invariant
                i <= self.inputs.len(),
                params.len() == i,
                forall|j: int| 0 <= j < i ==> params[j]@ == param_source(self.inputs[j]@),
            decreases self.inputs.len() - i,
        {
            params.push(self.inputs[i].to_source());
            i += 1;
        }
        assert(views(params@) =~= Seq::new(
            self@.inputs.len(),
            |i: int| param_source(self@.inputs[i]),
        ));
        match &self.variadic {
            Some(variadic) => params.push(variadic.clone()),
            None => {},
        }
        assert(views(params@) =~= params_source(self@));
        let mut out = attrs_to_source(&self.attrs, "\n");
        out.append(self.vis.to_source().as_str());
        append_if(&mut out, self.constness.is_some(), "const ");
        append_if(&mut out, self.asyncness.is_some(), "async ");
        append_if(&mut out, self.unsafety, "unsafe ");
        match &self.abi {
            Some(abi) => {
                out.append(abi.as_str());
                out.append(" ");
            },
            None => {
                assert(out@ + abi_source(self@.abi) =~= out@);
            },
        }
        out.append("fn ");
        out.append(self.ident.as_str());
        out.append(self.generics.to_source().as_str());
        out.append("(");
        out.append(join(&params, ", ").as_str());
        out.append(")");
        out.append(self.output.to_source().as_str());
        out.append(self.generics.where_to_source().as_str());
        out
    }
}

/// The statement that takes the props record apart, as source text.
fn destructure_to_source(d: &Option<PropsDestructure>) -> (r: String)
    ensures
        r@ == destructure_source(opt_view(*d)),
{
    match d {
        Some(d) => {
            let mut out = String::from_str("let ");
            out.append(d.record.as_str());
            out.append(" { ");
            out.append(patterns_to_source(&d.bindings).as_str());
            out.append(" } = __props; ");
            out
        },
        None => String::new(),
    }
}

impl ComponentFn {
    /// The function as source text.
    pub fn to_source(&self) -> (r: String)
        ensures
            r@ == fn_source(self@),
    {
        let mut block = String::from_str("{ { struct ");
        block.append(self.marker.as_str());
        block.append(" {} } ");
        block.append(destructure_to_source(&self.destructure).as_str());
        block.append(self.sig.block.as_str());
        block.append(" }");
        let mut out = self.sig.header_to_source();
        if self.nested {
            out.append(" { ");
            out.append(block.as_str());
            out.append(" }");
        } else {
            out.append(" ");
            out.append(block.as_str());
        }
        out
    }
}

impl PropsField {
    /// The field as source text.
    pub fn to_source(&self) -> (r: String)
        ensures
            r@ == field_source(self@),
    {
        let mut out = attrs_to_source(&self.attrs, " ");
        out.append(self.vis.to_source().as_str());
        out.append(self.name.to_source().as_str());
        out.append(": ");
        out.append(self.ty.as_str());
        out
    }
}

impl PropsRecord {
    /// The record as source text.
    pub fn to_source(&self) -> (r: String)
        ensures
            r@ == record_source(self@),
    {
        let mut fields: Vec<String> = Vec::new();
        let mut i: usize = 0;
        while i < self.fields.len()
            invariant
                i <= self.fields.len(),
                fields.len() == i,
                forall|j: int| 0 <= j < i ==> fields[j]@ == field_source(self.fields[j]@),
            decreases self.fields.len() - i,
        {
            fields.push(self.fields[i].to_source());
            i += 1;
        }
        assert(views(fields@) =~= Seq::new(
            self@.fields.len(),
            |i: int| field_source(self@.fields[i]),
        ));
        let mut out = attrs_to_source(&self.attrs, "\n");
        out.append(self.vis.to_source().as_str());
        out.append("struct ");
        out.append(self.ident.as_str());
        out.append(self.generics.to_source().as_str());
        out.append(self.generics.where_to_source().as_str());
        out.append(" { ");
        out.append(join(&fields, ", ").as_str());
        out.append(" }");
        out
    }
}

impl SourceItem {
    /// The item as source text.
    pub fn to_source(&self) -> (r: String)
        ensures
            r@ == item_source(self@),
    {
        match self {
            SourceItem::Struct(r) => r.to_source(),
            SourceItem::Fn(f) => f.to_source(),
        }
    }
}

/// Generated items as source text, one to a line.
pub fn items_to_source(items: &Vec<SourceItem>) -> (r: String)
    ensures
        r@ == items_source(views(items@)),
{
    let mut parts: Vec<String> = Vec::new();
    let mut i: usize = 0;
    while i < items.len()
        invariant
            i <= items.len(),
            parts.len() == i,
            forall|j: int| 0 <= j < i ==> parts[j]@ == item_source(items[j]@),
        decreases items.len() - i,
    {
        parts.push(items[i].to_source());
        i += 1;
    }
    assert(views(parts@) =~= Seq::new(
        views(items@).len(),
        |i: int| item_source(views(items@)[i]),
    ));
    concat_each(&parts, "\n")
}

impl SourceItem {
    /// The item as source text, if the parser takes the text as a struct or
    /// as a function, whichever the item is. Text that it does not take is
    /// refused, with what the parser says against it.
    pub fn to_checked_source(&self) -> (r: Result<String, MalformedItem>)
        ensures
            r matches Ok(s) ==> s@ == item_source(self@),
            r matches Err(e) ==> e.source@ == item_source(self@),
    {
        let source = self.to_source();
        let fault = match self {
            SourceItem::Struct(_) => struct_item_fault(source.as_str()),
            SourceItem::Fn(_) => fn_item_fault(source.as_str()),
        };
        checked(source, fault)
    }
}

/// Generated items as source text, one to a line, if the parser takes each
/// of them as the item it should be. The first that it does not take is
/// refused, and nothing is handed out.
pub fn items_to_checked_source(items: &Vec<SourceItem>) -> (r: Result<String, MalformedItem>)
    ensures
        items.len() == 0 ==> r is Ok,
        r matches Ok(s) ==> s@ == items_source(views(items@)),
        r matches Err(e) ==> exists|i: int|
            0 <= i < items.len() && e.source@ == item_source(#[trigger] views(items@)[i]),
{
    let mut parts: Vec<String> = Vec::new();
    let mut i: usize = 0;
    while i < items.len()
        invariant
            i <= items.len(),
            parts.len() == i,
            forall|j: int| 0 <= j < i ==> parts[j]@ == item_source(items[j]@),
        decreases items.len() - i,
    {
        match items[i].to_checked_source() {
            Ok(source) => parts.push(source),
            Err(e) => {
                assert(e.source@ == item_source(views(items@)[i as int]));
                return Err(e);
            },
        }
        i += 1;
    }
    assert(views(parts@) =~= Seq::new(
        views(items@).len(),
        |i: int| item_source(views(items@)[i]),
    ));
    Ok(concat_each(&parts, "\n"))
}

impl ComponentBody {
    /// The source text that the component expands to: its props record,
    /// where one is made, and its function. A component whose patterns,
    /// types or body do not fit the places that lowering puts them in is
    /// refused with the item that the parser did not take.
    pub fn expand(&self) -> (r: Result<String, MalformedItem>)
        ensures
            exists|doc: Seq<char>|
                {
                    &&& r matches Ok(s) ==> s@ == items_source(
                        #[trigger] lowered_items(self@, doc),
                    )
                    &&& r matches Err(e) ==> exists|i: int|
                        0 <= i < lowered_items(self@, doc).len() && e.source@ == item_source(
                            #[trigger] lowered_items(self@, doc)[i],
                        )
                },
    {
        let mut items: Vec<SourceItem> = Vec::new();
        self.to_tokens(&mut items);
        let ghost doc = choose|doc: Seq<char>|
            views(items@) == Seq::<SourceItemView>::empty() + #[trigger] lowered_items(self@, doc);
        assert(views(items@) =~= lowered_items(self@, doc));
        items_to_checked_source(&items)
    }
}

} // verus!
