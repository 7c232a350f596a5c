//! The traits through which the items of a component are produced and
//! written out, and the paths of the types that a component's signature
//! names.

use vstd::prelude::*;
use vstd::string::StringExecFns;
use crate::values::{views, separated, join};
use crate::items::SourceItem;
use crate::component::{ComponentBody, InvalidSignature, lowered_items};
use crate::syntax::{printed_path, printed_or_written};
use crate::nodes::element::{ElementId, VNode};

verus! {

/// A value that can write itself out as source items.
pub trait ToTokens {
    /// Writes the value at the end of `tokens`.
    fn to_tokens(&self, tokens: &mut Vec<SourceItem>);
}

impl ToTokens for ComponentBody {
    fn to_tokens(&self, tokens: &mut Vec<SourceItem>)
        ensures
            exists|doc: Seq<char>|
                views(final(tokens)@) == views(old(tokens)@) + #[trigger] lowered_items(
                    self@,
                    doc,
                ),
    {
        ComponentBody::to_tokens(self, tokens)
    }
}

/// The output produced by a deserializer: the items that stand in the place
/// of the component function, none of them inside another.
pub trait DeserializerOutput: ToTokens {

}

/// The arguments of a deserializer, which are also what does the work: they
/// turn a component into an output.
pub trait DeserializerArgs<TOutput: DeserializerOutput>: Clone {
    /// The output made from these arguments and a component.
    fn to_output(&self, component_body: &ComponentBody) -> Result<TOutput, InvalidSignature>;
}

/// The path of a type, such as `::std::vec::Vec`.
#[derive(Debug)]
pub struct TypePath {
    /// Whether the path starts at the crate root, with `::`.
    pub leading_colon: bool,
    pub segments: Vec<String>,
}

/// What a [`TypePath`] holds, as mathematical values.
pub struct TypePathView {
    pub leading_colon: bool,
    pub segments: Seq<Seq<char>>,
}

impl View for TypePath {
    type V = TypePathView;

    open spec fn view(&self) -> TypePathView {
        TypePathView { leading_colon: self.leading_colon, segments: views(self.segments@) }
    }
}

/// A path as it is written in source: the segments with `::` between them,
/// after `::` where the path starts at the crate root.
pub open spec fn path_written(p: TypePathView) -> Seq<char> {
    if p.leading_colon {
        "::"@ + separated(p.segments, "::"@)
    } else {
        separated(p.segments, "::"@)
    }
}

/// A path as it is written in source.
pub fn path_to_source(p: &TypePath) -> (s: String)
    ensures
        s@ == path_written(p@),
{
    let body = join(&p.segments, "::");
    if p.leading_colon {
        let mut out = String::from_str("::");
        out.append(body.as_str());
        out
    } else {
        body
    }
}

/// A path as its tokens print. The printer decides the text; a path that
/// the parser does not take as one is shown as it is written.
pub fn path_to_string(p: &TypePath) -> String {
    let written = path_to_source(p);
    let printed = printed_path(written.as_str());
    printed_or_written(written, printed)
}

/// A type that knows the path by which generated code names it.
pub trait TypeHelper {
    /// The path of the type.
    fn get_path() -> TypePath;

    /// The path of the type as its tokens print.
    fn get_path_string() -> String {
        path_to_string(&Self::get_path())
    }
}

/// What a component's body is run with.
pub struct Scope {
    /// The element that the component's output is mounted under.
    pub container: ElementId,
}

/// What a component's body returns: a node, or nothing to render.
pub type Element<'a> = Option<VNode<'a>>;

/// The path `::dioxus::core::` followed by `name`.
fn core_path(name: &str) -> (p: TypePath)
    ensures
        p@ == (TypePathView { leading_colon: true, segments: seq!["dioxus"@, "core"@, name@] }),
{
    let mut segments: Vec<String> = Vec::new();
    segments.push(String::from_str("dioxus"));
    segments.push(String::from_str("core"));
    segments.push(String::from_str(name));
    assert(views(segments@) =~= seq!["dioxus"@, "core"@, name@]);
    TypePath { leading_colon: true, segments }
}

/// The path by which generated code names [`Scope`].
pub open spec fn scope_path() -> TypePathView {
    TypePathView { leading_colon: true, segments: seq!["dioxus"@, "core"@, "Scope"@] }
}

/// The path by which generated code names [`Element`].
pub open spec fn element_path() -> TypePathView {
    TypePathView { leading_colon: true, segments: seq!["dioxus"@, "core"@, "Element"@] }
}

impl TypeHelper for Scope {
    fn get_path() -> (p: TypePath)
        ensures
            p@ == scope_path(),
    {
        core_path("Scope")
    }
}

impl<'a> TypeHelper for Element<'a> {
    fn get_path() -> (p: TypePath)
        ensures
            p@ == element_path(),
    {
        core_path("Element")
    }
}

} // verus!
