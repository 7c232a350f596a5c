use std::cell::Cell;
use std::rc::Rc;

use component_core::nodes::element::{
    AnyEvent, Attribute, AttributeValue, CallbackSlot, ClosureCallback, DoubleMount, ElementId,
    EventCallback, EventHandler, Listener, VElement, VNode, VText,
};
use component_core::text::{
    bool_to_text, debug_list, debug_struct, debug_tuple, i64_to_decimal, u64_to_decimal,
};
use component_core::syntax::printed_or_written;
use component_core::utils::{
    path_to_source, path_to_string, Element, Scope, TypeHelper, TypePath,
};

fn event() -> AnyEvent {
    AnyEvent { element: Some(ElementId(1)), data: vec![1, 2, 3] }
}

fn counting_slot<'a>(count: &Rc<Cell<u32>>) -> CallbackSlot<'a, AnyEvent> {
    let count = count.clone();
    let mut slot = CallbackSlot::empty();
    slot.set(Box::new(ClosureCallback::new(move |_event: AnyEvent| count.set(count.get() + 1))));
    slot
}

fn div<'a>(listeners: Vec<Listener<'a>>, children: Vec<VNode<'a>>) -> VElement<'a> {
    VElement::new("div", None, None, listeners, Vec::new(), children)
}

#[test]
fn invoking_an_empty_slot_does_nothing() {
    let mut slot: CallbackSlot<AnyEvent> = CallbackSlot::empty();
    assert!(!slot.holds_callback());
    assert!(!slot.invoke(event()));
    assert!(!slot.holds_callback());
}

#[test]
fn a_callback_runs_once_for_each_invocation() {
    let count = Rc::new(Cell::new(0));
    let mut slot = counting_slot(&count);
    assert!(slot.holds_callback());
    assert!(slot.invoke(event()));
    assert_eq!(count.get(), 1);
    assert!(slot.invoke(event()));
    assert!(slot.invoke(event()));
    assert_eq!(count.get(), 3);
    assert!(slot.holds_callback());
}

#[test]
fn a_callback_gets_the_event() {
    let seen = Rc::new(Cell::new(0usize));
    let sink = seen.clone();
    let mut slot = CallbackSlot::empty();
    slot.set(Box::new(ClosureCallback::new(move |event: AnyEvent| sink.set(event.data.len()))));
    slot.invoke(event());
    assert_eq!(seen.get(), 3);
}

#[test]
fn a_released_slot_is_empty_again() {
    let count = Rc::new(Cell::new(0));
    let mut slot = counting_slot(&count);
    slot.invoke(event());
    slot.release();
    assert!(!slot.holds_callback());
    assert!(!slot.invoke(event()));
    assert_eq!(count.get(), 1);
    slot.release();
    assert!(!slot.holds_callback());
    assert!(!slot.invoke(event()));
    assert_eq!(count.get(), 1);
}

#[test]
fn release_drops_what_the_callback_captured() {
    let count = Rc::new(Cell::new(0));
    let mut slot = counting_slot(&count);
    assert_eq!(Rc::strong_count(&count), 2);
    slot.release();
    assert_eq!(Rc::strong_count(&count), 1);
}

#[test]
fn setting_replaces_the_callback() {
    let first = Rc::new(Cell::new(0));
    let second = Rc::new(Cell::new(0));
    let mut slot = counting_slot(&first);
    let sink = second.clone();
    slot.set(Box::new(ClosureCallback::new(move |_event: AnyEvent| sink.set(sink.get() + 10))));
    slot.invoke(event());
    assert_eq!(first.get(), 0);
    assert_eq!(second.get(), 10);
}

#[test]
fn event_handler_calls_and_releases() {
    let total = Rc::new(Cell::new(0u32));
    let sink = total.clone();
    let mut handler =
        EventHandler::new(Box::new(ClosureCallback::new(move |n: u32| sink.set(sink.get() + n))));
    handler.call(5);
    handler.call(7);
    assert_eq!(total.get(), 12);
    handler.release();
    handler.call(100);
    assert_eq!(total.get(), 12);
    handler.release();
    handler.call(100);
    assert_eq!(total.get(), 12);
}

#[test]
fn default_event_handler_is_empty() {
    let mut handler: EventHandler<u32> = EventHandler::default();
    assert!(!handler.callback.holds_callback());
    handler.call(1);
    handler.release();
    assert!(!handler.callback.holds_callback());
}

#[test]
fn a_new_element_is_not_mounted() {
    let element = div(Vec::new(), Vec::new());
    assert_eq!(element.id, None);
    assert_eq!(element.parent, None);
    assert_eq!(element.tag, "div");
}

#[test]
fn mounting_sets_id_parent_and_listeners() {
    let count = Rc::new(Cell::new(0));
    let listeners = vec![
        Listener::new("click", counting_slot(&count)),
        Listener::new("keydown", CallbackSlot::empty()),
    ];
    let mut element = div(listeners, vec![VNode::Text(VText { id: None, text: "hi" })]);
    assert_eq!(element.listeners[0].mounted_node, None);
    assert_eq!(element.mount(ElementId(7), ElementId(2)), Ok(()));
    assert_eq!(element.id, Some(ElementId(7)));
    assert_eq!(element.parent, Some(ElementId(2)));
    assert_eq!(element.listeners.len(), 2);
    assert_eq!(element.listeners[0].mounted_node, Some(ElementId(7)));
    assert_eq!(element.listeners[1].mounted_node, Some(ElementId(7)));
    assert_eq!(element.listeners[0].event, "click");
    assert_eq!(element.listeners[1].event, "keydown");
    assert_eq!(element.children.len(), 1);
    assert!(element.listeners[0].callback.invoke(event()));
    assert_eq!(count.get(), 1);
}

#[test]
fn mounting_twice_is_refused() {
    let mut element = div(vec![Listener::new("click", CallbackSlot::empty())], Vec::new());
    assert_eq!(element.mount(ElementId(7), ElementId(2)), Ok(()));
    assert_eq!(element.mount(ElementId(8), ElementId(3)), Err(DoubleMount));
    assert_eq!(element.id, Some(ElementId(7)));
    assert_eq!(element.parent, Some(ElementId(2)));
    assert_eq!(element.listeners[0].mounted_node, Some(ElementId(7)));
    assert_eq!(element.mount(ElementId(7), ElementId(2)), Err(DoubleMount));
}

#[test]
fn an_element_with_one_cell_set_is_refused() {
    let mut element = div(Vec::new(), Vec::new());
    element.parent = Some(ElementId(1));
    assert_eq!(element.mount(ElementId(7), ElementId(2)), Err(DoubleMount));
    assert_eq!(element.id, None);
    assert_eq!(element.parent, Some(ElementId(1)));
    let mut element = div(Vec::new(), Vec::new());
    element.id = Some(ElementId(1));
    assert_eq!(element.mount(ElementId(7), ElementId(2)), Err(DoubleMount));
    assert_eq!(element.id, Some(ElementId(1)));
    assert_eq!(element.parent, None);
}

#[test]
fn numbers_in_decimal() {
    assert_eq!(u64_to_decimal(0), "0");
    assert_eq!(u64_to_decimal(7), "7");
    assert_eq!(u64_to_decimal(10), "10");
    assert_eq!(u64_to_decimal(1203), "1203");
    assert_eq!(u64_to_decimal(u64::MAX), "18446744073709551615");
    assert_eq!(i64_to_decimal(0), "0");
    assert_eq!(i64_to_decimal(-1), "-1");
    assert_eq!(i64_to_decimal(42), "42");
    assert_eq!(i64_to_decimal(i64::MAX), "9223372036854775807");
    assert_eq!(i64_to_decimal(i64::MIN), "-9223372036854775808");
}

#[test]
fn attribute_as_text() {
    let attribute = Attribute {
        name: "class",
        namespace: Some("style"),
        volatile: true,
        value: AttributeValue::Text("a \"b\"\n"),
    };
    assert_eq!(
        attribute.debug_string(),
        "Attribute { name: \"class\", namespace: Some(\"style\"), volatile: true, \
         value: Text(\"a \\\"b\\\"\\n\") }"
    );
    assert_eq!(attribute.debug_string(), format!("{:?}", attribute));
    assert_eq!(AttributeValue::Int(-5).debug_string(), "Int(-5)");
    assert_eq!(AttributeValue::Uint(5).debug_string(), "Uint(5)");
    assert_eq!(AttributeValue::Bool(false).debug_string(), "Bool(false)");
}

#[test]
fn text_node_as_text() {
    let text = VText { id: Some(ElementId(3)), text: "hi" };
    assert_eq!(text.debug_string(), "VText { id: Some(ElementId(3)), text: \"hi\" }");
    assert_eq!(text.debug_string(), format!("{:?}", text));
}

#[test]
fn element_as_text() {
    let child = VElement::new(
        "circle",
        Some("svg"),
        Some("k1"),
        Vec::new(),
        vec![Attribute {
            name: "r",
            namespace: None,
            volatile: false,
            value: AttributeValue::Int(4),
        }],
        Vec::new(),
    );
    let mut element = div(
        vec![Listener::new("click", CallbackSlot::empty())],
        vec![VNode::Text(VText { id: None, text: "hi" }), VNode::Element(child)],
    );
    assert_eq!(
        element.debug_string(),
        "VElement { tag_name: \"div\", namespace: None, key: None, id: Cell { value: None }, \
         parent: Cell { value: None }, listeners: 1, attributes: [], \
         children: [Text(VText { id: None, text: \"hi\" }), \
         Element(VElement { tag_name: \"circle\", namespace: Some(\"svg\"), key: Some(\"k1\"), \
         id: Cell { value: None }, parent: Cell { value: None }, listeners: 0, \
         attributes: [Attribute { name: \"r\", namespace: None, volatile: false, \
         value: Int(4) }], children: [] })] }"
    );
    element.mount(ElementId(12), ElementId(0)).expect("not mounted yet");
    assert!(element
        .debug_string()
        .starts_with("VElement { tag_name: \"div\", namespace: None, key: None, \
                      id: Cell { value: Some(ElementId(12)) }, \
                      parent: Cell { value: Some(ElementId(0)) }, listeners: 1, "));
}

#[test]
fn paths_of_the_core_types() {
    assert_eq!(Scope::get_path_string(), ":: dioxus :: core :: Scope");
    assert_eq!(Element::get_path_string(), ":: dioxus :: core :: Element");
    let path = Scope::get_path();
    assert!(path.leading_colon);
    assert_eq!(path.segments, vec!["dioxus", "core", "Scope"]);
}

#[test]
fn paths_as_text() {
    let relative = TypePath {
        leading_colon: false,
        segments: vec!["std".to_string(), "vec".to_string(), "Vec".to_string()],
    };
    assert_eq!(path_to_source(&relative), "std::vec::Vec");
    assert_eq!(path_to_string(&relative), "std :: vec :: Vec");
    let single = TypePath { leading_colon: true, segments: vec!["core".to_string()] };
    assert_eq!(path_to_source(&single), "::core");
    assert_eq!(path_to_string(&single), ":: core");
    let empty = TypePath { leading_colon: false, segments: Vec::new() };
    assert_eq!(path_to_source(&empty), "");
    assert_eq!(path_to_string(&empty), "");
    let odd = TypePath { leading_colon: false, segments: vec!["a b".to_string(), "c".to_string()] };
    assert_eq!(path_to_source(&odd), "a b::c");
    assert_eq!(path_to_string(&odd), "a b::c");
}

#[test]
fn the_printer_decides_how_a_path_is_shown() {
    assert_eq!(printed_or_written("a::b".to_string(), Some("a :: b".to_string())), "a :: b");
    assert_eq!(printed_or_written("a::b".to_string(), None), "a::b");
}

#[test]
fn layouts_of_structs_tuples_and_lists() {
    assert_eq!(
        debug_struct("Point", &vec![("x", "1".to_string()), ("y", "-2".to_string())]),
        "Point { x: 1, y: -2 }"
    );
    assert_eq!(debug_struct("Unit", &Vec::new()), "Unit");
    assert_eq!(debug_struct("One", &vec![("only", "()".to_string())]), "One { only: () }");
    assert_eq!(debug_tuple("Some", "3"), "Some(3)");
    assert_eq!(debug_list(&Vec::new()), "[]");
    assert_eq!(debug_list(&vec!["a".to_string()]), "[a]");
    assert_eq!(debug_list(&vec!["a".to_string(), "b".to_string()]), "[a, b]");
    assert_eq!(bool_to_text(true), "true");
    assert_eq!(bool_to_text(false), "false");
}

struct Tally {
    seen: Rc<Cell<u32>>,
    calls: u32,
}

impl EventCallback<u32> for Tally {
    fn handle(&mut self, event: u32) {
        self.calls += 1;
        self.seen.set(self.seen.get() + event * self.calls);
    }
}

#[test]
fn a_callback_that_is_no_closure_keeps_its_state() {
    let seen = Rc::new(Cell::new(0));
    let mut handler = EventHandler::new(Box::new(Tally { seen: seen.clone(), calls: 0 }));
    handler.call(5);
    assert_eq!(seen.get(), 5);
    handler.call(5);
    assert_eq!(seen.get(), 15);
    handler.release();
    handler.call(5);
    assert_eq!(seen.get(), 15);
}

#[test]
fn a_plain_element_as_text() {
    let element = div(Vec::new(), Vec::new());
    assert_eq!(
        element.debug_string(),
        "VElement { tag_name: \"div\", namespace: None, key: None, id: Cell { value: None }, \
         parent: Cell { value: None }, listeners: 0, attributes: [], children: [] }"
    );
}

#[test]
fn a_closure_callback_calls_its_closure_once_for_each_event() {
    let mut total = 0u32;
    {
        let mut callback = ClosureCallback::new(|n: u32| total += n);
        callback.handle(2);
        callback.handle(3);
    }
    assert_eq!(total, 5);
}
