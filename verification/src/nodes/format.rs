//! Nodes as text, for logs and failure messages: the layout that `Debug`
//! gives a struct, with a listener count in place of the listeners, whose
//! callbacks have no text.

use vstd::prelude::*;
use vstd::string::StringExecFns;
use crate::values::views;
use crate::text::{
    decimal, signed_decimal, bool_text, str_debug, struct_debug, tuple_debug, list_debug,
    field_views, debug_str, u64_to_decimal, i64_to_decimal, bool_to_text, debug_struct,
    debug_tuple, debug_list,
};
use crate::nodes::element::{ElementId, AttributeValue, Attribute, VText, VNode, VElement};

verus! {

/// An optional string: `None`, or its `Debug` form inside `Some(..)`.
pub open spec fn opt_str_debug(o: Option<&str>) -> Seq<char> {
    match o {
        Some(s) => tuple_debug("Some"@, str_debug(s@)),
        None => "None"@,
    }
}

/// An id: its number inside `ElementId(..)`.
pub open spec fn id_debug(id: ElementId) -> Seq<char> {
    tuple_debug("ElementId"@, decimal(id.0 as nat))
}

/// An optional id: `None`, or the id inside `Some(..)`.
pub open spec fn opt_id_debug(o: Option<ElementId>) -> Seq<char> {
    match o {
        Some(id) => tuple_debug("Some"@, id_debug(id)),
        None => "None"@,
    }
}

/// A cell that holds an optional id: the id as the one field `value` of
/// `Cell`.
pub open spec fn id_cell_debug(o: Option<ElementId>) -> Seq<char> {
    struct_debug("Cell"@, seq![("value"@, opt_id_debug(o))])
}

/// An attribute's value: the variant's name and, in parentheses, what it
/// holds.
pub open spec fn value_debug(v: AttributeValue) -> Seq<char> {
    match v {
        AttributeValue::Text(s) => tuple_debug("Text"@, str_debug(s@)),
        AttributeValue::Int(i) => tuple_debug("Int"@, signed_decimal(i as int)),
        AttributeValue::Uint(u) => tuple_debug("Uint"@, decimal(u as nat)),
        AttributeValue::Bool(b) => tuple_debug("Bool"@, bool_text(b)),
    }
}

/// An attribute, field by field.
pub open spec fn attribute_debug(a: Attribute) -> Seq<char> {
    struct_debug(
        "Attribute"@,
        seq![
            ("name"@, str_debug(a.name@)),
            ("namespace"@, opt_str_debug(a.namespace)),
            ("volatile"@, bool_text(a.volatile)),
            ("value"@, value_debug(a.value)),
        ],
    )
}

/// A run of text, field by field.
pub open spec fn text_debug(t: VText) -> Seq<char> {
    struct_debug("VText"@, seq![("id"@, opt_id_debug(t.id)), ("text"@, str_debug(t.text@))])
}

/// A node: the variant's name and, in parentheses, what it holds.
pub open spec fn node_debug(n: VNode) -> Seq<char>
    decreases n,
{
    match n {
        VNode::Text(t) => tuple_debug("Text"@, text_debug(t)),
        VNode::Element(e) => tuple_debug("Element"@, element_debug(e)),
    }
}

/// The children of an element, each as a node.
pub open spec fn children_debug(e: VElement) -> Seq<Seq<char>>
    decreases e, 0nat,
{
    Seq::new(
        e.children.len() as nat,
        |i: int|
            if 0 <= i < e.children.len() {
                node_debug(e.children[i])
            } else {
                Seq::empty()
            },
    )
}

/// The attributes of an element, each field by field.
pub open spec fn attributes_debug(e: VElement) -> Seq<Seq<char>> {
    Seq::new(e.attributes.len() as nat, |i: int| attribute_debug(e.attributes[i]))
}

/// An element, field by field: the tag under the name `tag_name`, the id
/// and the parent each as a cell, the number of listeners in place of the
/// listeners.
pub open spec fn element_debug(e: VElement) -> Seq<char>
    decreases e, 1nat,
{
    struct_debug(
        "VElement"@,
        seq![
            ("tag_name"@, str_debug(e.tag@)),
            ("namespace"@, opt_str_debug(e.namespace)),
            ("key"@, opt_str_debug(e.key)),
            ("id"@, id_cell_debug(e.id)),
            ("parent"@, id_cell_debug(e.parent)),
            ("listeners"@, decimal(e.listeners.len() as nat)),
            ("attributes"@, list_debug(attributes_debug(e))),
            ("children"@, list_debug(children_debug(e))),
        ],
    )
}

fn opt_str_text(o: Option<&str>) -> (r: String)
    ensures
        r@ == opt_str_debug(o),
{
    match o {
        Some(s) => debug_tuple("Some", debug_str(s).as_str()),
        None => String::from_str("None"),
    }
}

fn opt_id_text(o: Option<ElementId>) -> (r: String)
    ensures
        r@ == opt_id_debug(o),
{
    match o {
        Some(id) => {
            let inner = debug_tuple("ElementId", u64_to_decimal(id.0 as u64).as_str());
            debug_tuple("Some", inner.as_str())
        },
        None => String::from_str("None"),
    }
}

fn id_cell_text(o: Option<ElementId>) -> (r: String)
    ensures
        r@ == id_cell_debug(o),
{
    let mut fields: Vec<(&'static str, String)> = Vec::new();
    fields.push(("value", opt_id_text(o)));
    assert(field_views(fields@) =~= seq![("value"@, opt_id_debug(o))]);
    debug_struct("Cell", &fields)
}

impl<'a> AttributeValue<'a> {
    /// The value as text.
    pub fn debug_string(&self) -> (r: String)
        ensures
            r@ == value_debug(*self),
    {
        match self {
            AttributeValue::Text(s) => debug_tuple("Text", debug_str(s).as_str()),
            AttributeValue::Int(i) => debug_tuple("Int", i64_to_decimal(*i).as_str()),
            AttributeValue::Uint(u) => debug_tuple("Uint", u64_to_decimal(*u).as_str()),
            AttributeValue::Bool(b) => debug_tuple("Bool", bool_to_text(*b).as_str()),
        }
    }
}

impl<'a> Attribute<'a> {
    /// The attribute as text.
    pub fn debug_string(&self) -> (r: String)
        ensures
            r@ == attribute_debug(*self),
    {
        let mut fields: Vec<(&'static str, String)> = Vec::new();
        fields.push(("name", debug_str(self.name)));
        fields.push(("namespace", opt_str_text(self.namespace)));
        fields.push(("volatile", bool_to_text(self.volatile)));
        fields.push(("value", self.value.debug_string()));
        assert(field_views(fields@) =~= seq![
            ("name"@, str_debug(self.name@)),
            ("namespace"@, opt_str_debug(self.namespace)),
            ("volatile"@, bool_text(self.volatile)),
            ("value"@, value_debug(self.value)),
        ]);
        debug_struct("Attribute", &fields)
    }
}

impl<'a> VText<'a> {
    /// The text node as text.
    pub fn debug_string(&self) -> (r: String)
        ensures
            r@ == text_debug(*self),
    {
        let mut fields: Vec<(&'static str, String)> = Vec::new();
        fields.push(("id", opt_id_text(self.id)));
        fields.push(("text", debug_str(self.text)));
        assert(field_views(fields@) =~= seq![
            ("id"@, opt_id_debug(self.id)),
            ("text"@, str_debug(self.text@)),
        ]);
        debug_struct("VText", &fields)
    }
}

impl<'a> VNode<'a> {
    /// The node as text.
    pub fn debug_string(&self) -> (r: String)
        ensures
            r@ == node_debug(*self),
        decreases self,
    {
        match self {
            VNode::Text(t) => debug_tuple("Text", t.debug_string().as_str()),
            VNode::Element(e) => debug_tuple("Element", e.debug_string().as_str()),
        }
    }
}

impl<'a> VElement<'a> {
    /// The element as text.
    pub fn debug_string(&self) -> (r: String)
        ensures
            r@ == element_debug(*self),
        decreases self,
    {
        let mut attributes: Vec<String> = Vec::new();
        let mut i: usize = 0;
        while i < self.attributes.len()
            invariant
                i <= self.attributes.len(),
                attributes.len() == i,
                forall|j: int| 0 <= j < i ==> attributes[j]@ == attribute_debug(self.attributes[j]),
            decreases self.attributes.len() - i,
        {
            attributes.push(self.attributes[i].debug_string());
            i += 1;
        }
        assert(views(attributes@) =~= attributes_debug(*self));
        let mut children: Vec<String> = Vec::new();
        let mut k: usize = 0;
        while k < self.children.len()
            invariant
                k <= self.children.len(),
                children.len() == k,
                forall|j: int| 0 <= j < k ==> children[j]@ == node_debug(self.children[j]),
            decreases self.children.len() - k,
        {
            children.push(self.children[k].debug_string());
            k += 1;
        }
        assert(views(children@) =~= children_debug(*self));
        let mut fields: Vec<(&'static str, String)> = Vec::new();
        fields.push(("tag_name", debug_str(self.tag)));
        fields.push(("namespace", opt_str_text(self.namespace)));
        fields.push(("key", opt_str_text(self.key)));
        fields.push(("id", id_cell_text(self.id)));
        fields.push(("parent", id_cell_text(self.parent)));
        fields.push(("listeners", u64_to_decimal(self.listeners.len() as u64)));
        fields.push(("attributes", debug_list(&attributes)));
        fields.push(("children", debug_list(&children)));
        assert(field_views(fields@) =~= seq![
            ("tag_name"@, str_debug(self.tag@)),
            ("namespace"@, opt_str_debug(self.namespace)),
            ("key"@, opt_str_debug(self.key)),
            ("id"@, id_cell_debug(self.id)),
            ("parent"@, id_cell_debug(self.parent)),
            ("listeners"@, decimal(self.listeners.len() as nat)),
            ("attributes"@, list_debug(attributes_debug(*self))),
            ("children"@, list_debug(children_debug(*self))),
        ]);
        debug_struct("VElement", &fields)
    }
}

} // verus!
