//! Elements with their attributes, listeners and children, and the slots
//! that hold the callbacks of listeners and of components.

use vstd::prelude::*;
use core::marker::PhantomData;

verus! {

/// The handle of a node that has been mounted into the live view.
#[derive(Clone, Copy, Debug, PartialEq, Eq, Structural)]
pub struct ElementId(pub usize);

/// What is handed to a listener when its event fires.
#[derive(Debug)]
pub struct AnyEvent {
    /// The element that the event occurred on.
    pub element: Option<ElementId>,
    /// The event's payload, as the host encoded it.
    pub data: Vec<u8>,
}

/// An element was mounted that is mounted already: its id or its parent is
/// set.
#[derive(Clone, Copy, Debug, PartialEq, Eq, Structural)]
pub struct DoubleMount;

/// The uniform signature behind which callbacks of any type are kept.
pub trait EventCallback<T> {
    /// What the callback, as it is before the call, promises of taking
    /// `event`. A callback that promises nothing leaves this at `true`.
    open spec fn handled(&self, event: T) -> bool {
        true
    }

    /// Takes one event, and keeps its promise for it.
    fn handle(&mut self, event: T)
        ensures
            old(self).handled(event),
    ;
}

/// Runs a closure on an event that its precondition admits.
fn run_closure<T, F: FnMut(T)>(f: &mut F, event: T)
    requires
        call_requires(*old(f), (event,)),
    ensures
        call_ensures(*old(f), (event,), ()),
        *final(f) == *old(f),
{
    f(event)
}

/// A closure as a callback. Only a closure whose precondition admits every
/// event can be one, so that it can be handed whatever event comes.
#[verifier::reject_recursive_types(T)]
pub struct ClosureCallback<T, F: FnMut(T)> {
    /// The closure. It is out of its place only while it runs.
    closure: Option<F>,
    event: PhantomData<T>,
}

impl<T, F: FnMut(T)> ClosureCallback<T, F> {
    #[verifier::type_invariant]
    spec fn takes_every_event(self) -> bool {
        self.closure matches Some(f) ==> forall|event: T| call_requires(f, (event,))
    }

    /// The closure that is called.
    pub closed spec fn closure(&self) -> Option<F> {
        self.closure
    }

    /// A callback that calls `closure`.
    pub fn new(closure: F) -> (r: Self)
        requires
            forall|event: T| call_requires(closure, (event,)),
        ensures
            r.closure() == Some(closure),
    {
        ClosureCallback { closure: Some(closure), event: PhantomData }
    }
}

impl<T, F: FnMut(T)> EventCallback<T> for ClosureCallback<T, F> {
    /// A closure promises what its own contract says: its postcondition for
    /// the event.
    open spec fn handled(&self, event: T) -> bool {
        self.closure() matches Some(f) ==> call_ensures(f, (event,), ())
    }

    /// Calls the closure on the event, once. The closure is the same
    /// afterwards.
    fn handle(&mut self, event: T)
        ensures
            final(self).closure() == old(self).closure(),
    {
        proof {
            use_type_invariant(&*self);
        }
        let mut held: Option<F> = None;
        core::mem::swap(&mut self.closure, &mut held);
        match held {
            Some(mut closure) => {
                run_closure(&mut closure, event);
                let mut back = Some(closure);
                core::mem::swap(&mut self.closure, &mut back);
            },
            None => {},
        }
    }
}

/// A holder of at most one callback, which can be put in late, run any
/// number of times, and dropped before its owner is.
#[verifier::reject_recursive_types(T)]
pub struct CallbackSlot<'a, T> {
    pub callback: Option<Box<dyn EventCallback<T> + 'a>>,
}

/// The slot of a listener.
pub type InternalHandler<'a> = CallbackSlot<'a, AnyEvent>;

impl<'a, T> CallbackSlot<'a, T> {
    /// Whether a callback is in the slot.
    pub open spec fn is_set(&self) -> bool {
        self.callback is Some
    }

    /// Whether the callback in the slot, if there is one, has kept its
    /// promise for `event`.
    pub open spec fn handled(&self, event: T) -> bool {
        self.callback is Some ==> self.callback->0.handled(event)
    }

    /// Whether `self` is what `before` is after an invocation with `event`
    /// that reports `ran`: the callback ran exactly when there was one, and
    /// then it took `event` and kept its promise for it; a full slot is
    /// still full, and an empty slot is as it was.
    pub open spec fn after_invoke(&self, before: &Self, event: T, ran: bool) -> bool {
        &&& ran == before.is_set()
        &&& before.handled(event)
        &&& self.is_set() == before.is_set()
        &&& !before.is_set() ==> *self == *before
    }

    /// Whether `self` is what `before` is after a release: empty, and as it
    /// was if it was empty already.
    pub open spec fn after_release(&self, before: &Self) -> bool {
        &&& !self.is_set()
        &&& !before.is_set() ==> *self == *before
    }

    /// An empty slot.
    pub fn empty() -> (r: Self)
        ensures
            !r.is_set(),
    {
        CallbackSlot { callback: None }
    }

    /// Whether a callback is in the slot.
    pub fn holds_callback(&self) -> (r: bool)
        ensures
            r == self.is_set(),
    {
        self.callback.is_some()
    }

    /// Puts a callback in the slot, in place of the one that was there.
    pub fn set(&mut self, callback: Box<dyn EventCallback<T> + 'a>)
        ensures
            final(self).is_set(),
    {
        self.callback = Some(callback);
    }

    /// Runs the callback on the event, once, if there is one, and says
    /// whether it did. An empty slot is left as it is, and a full one stays
    /// full.
    pub fn invoke(&mut self, event: T) -> (ran: bool)
        ensures
            final(self).after_invoke(old(self), event, ran),
    {
        match &mut self.callback {
            Some(callback) => {
                callback.handle(event);
                true
            },
            None => false,
        }
    }

    /// Drops the callback, if there is one. On an empty slot this does
    /// nothing.
    pub fn release(&mut self)
        ensures
            final(self).after_release(old(self)),
    {
        self.callback = None;
    }
}

/// The life of a slot. Invoking a slot that never held a callback runs
/// nothing and changes nothing. Invoking a slot that holds one hands it the
/// event, so that it keeps its promise for that event, and leaves it in the
/// slot. After a release the slot is empty: invoking it runs nothing and
/// changes nothing, and a second release changes nothing.
pub proof fn lemma_slot_lifecycle<'a, T>(
    fresh: CallbackSlot<'a, T>,
    probed: CallbackSlot<'a, T>,
    event_fresh: T,
    ran_fresh: bool,
    full: CallbackSlot<'a, T>,
    used: CallbackSlot<'a, T>,
    event_full: T,
    ran_full: bool,
    released: CallbackSlot<'a, T>,
    probed_again: CallbackSlot<'a, T>,
    event_released: T,
    ran_released: bool,
    released_again: CallbackSlot<'a, T>,
)
    requires
        !fresh.is_set(),
        probed.after_invoke(&fresh, event_fresh, ran_fresh),
        full.is_set(),
        used.after_invoke(&full, event_full, ran_full),
        released.after_release(&used),
        probed_again.after_invoke(&released, event_released, ran_released),
        released_again.after_release(&released),
    ensures
        !ran_fresh,
        probed == fresh,
        ran_full,
        full.callback->0.handled(event_full),
        used.is_set(),
        !released.is_set(),
        !ran_released,
        probed_again == released,
        released_again == released,
{
}

/// The callback that a component takes as one of its props, so that a parent
/// can hand a closure down.
#[verifier::reject_recursive_types(T)]
pub struct EventHandler<'a, T> {
    /// The callback, if the parent gave one.
    pub callback: CallbackSlot<'a, T>,
}

impl<'a, T> Default for EventHandler<'a, T> {
    fn default() -> (r: Self)
        ensures
            !r.callback.is_set(),
    {
        EventHandler { callback: CallbackSlot::empty() }
    }
}

impl<'a, T> EventHandler<'a, T> {
    /// A handler that holds the given callback.
    pub fn new(callback: Box<dyn EventCallback<T> + 'a>) -> (r: Self)
        ensures
            r.callback.is_set(),
    {
        EventHandler { callback: CallbackSlot { callback: Some(callback) } }
    }

    /// Calls the handler with the event: the callback, if there is one,
    /// takes the event and keeps its promise for it, and stays in the
    /// handler. Without a callback this does nothing.
    pub fn call(&mut self, event: T)
        ensures
            final(self).callback.after_invoke(
                &old(self).callback,
                event,
                old(self).callback.is_set(),
            ),
    {
        let _ = self.callback.invoke(event);
    }

    /// Drops the callback and what it captured. A second call does nothing.
    pub fn release(&mut self)
        ensures
            final(self).callback.after_release(&old(self).callback),
    {
        self.callback.release();
    }
}

/// The value of an attribute.
#[derive(Clone, Copy, Debug)]
pub enum AttributeValue<'a> {
    Text(&'a str),
    Int(i64),
    Uint(u64),
    Bool(bool),
}

/// An attribute on an element, such as `id="my-thing"`.
#[derive(Clone, Copy, Debug)]
pub struct Attribute<'a> {
    /// The name of the attribute.
    pub name: &'static str,
    /// The group of attributes that this one belongs to, such as `style`.
    pub namespace: Option<&'static str>,
    /// Whether the value is set again on every update, also where it has
    /// not changed.
    pub volatile: bool,
    /// The value of the attribute.
    pub value: AttributeValue<'a>,
}

/// An event listener, such as `onclick`.
pub struct Listener<'a> {
    /// The node that the listener is mounted to.
    pub mounted_node: Option<ElementId>,
    /// The name of the event to listen for.
    pub event: &'static str,
    /// The callback that the user gave.
    pub callback: InternalHandler<'a>,
}

impl<'a> Listener<'a> {
    /// A listener that is not mounted yet.
    pub fn new(event: &'static str, callback: InternalHandler<'a>) -> (r: Self)
        ensures
            r.mounted_node is None,
            r.event == event,
            r.callback == callback,
    {
        Listener { mounted_node: None, event, callback }
    }
}

/// A run of text.
#[derive(Clone, Copy, Debug)]
pub struct VText<'a> {
    /// The id of the text once it is mounted.
    pub id: Option<ElementId>,
    pub text: &'a str,
}

/// A node of the virtual document.
pub enum VNode<'a> {
    Text(VText<'a>),
    Element(VElement<'a>),
}

/// An element like a "div" with children, listeners, and attributes.
pub struct VElement<'a> {
    /// The id of the element; unset until the element is mounted.
    pub id: Option<ElementId>,
    /// The key of the element, used to match it with its earlier self.
    pub key: Option<&'a str>,
    /// The tag name of the element, such as "div".
    pub tag: &'static str,
    /// The namespace of the element, such as "svg".
    pub namespace: Option<&'static str>,
    /// The id of the parent; unset until the element is mounted. Events
    /// bubble upwards along it.
    pub parent: Option<ElementId>,
    /// The listeners of the element.
    pub listeners: Vec<Listener<'a>>,
    /// The attributes of the element.
    pub attributes: Vec<Attribute<'a>>,
    /// The children of the element.
    pub children: Vec<VNode<'a>>,
}

impl<'a> VElement<'a> {
    /// Whether the element can still be mounted: neither its id nor its
    /// parent is set.
    pub open spec fn unmounted(&self) -> bool {
        self.id is None && self.parent is None
    }

    /// Whether `self` is `before` mounted under `id` and `parent`: both
    /// cells set, every listener bound to `id`, all else as it was.
    pub open spec fn mounted_from(&self, before: &Self, id: ElementId, parent: ElementId) -> bool {
        &&& self.id == Some(id)
        &&& self.parent == Some(parent)
        &&& self.key == before.key
        &&& self.tag == before.tag
        &&& self.namespace == before.namespace
        &&& self.attributes == before.attributes
        &&& self.children == before.children
        &&& self.listeners.len() == before.listeners.len()
        &&& forall|i: int|
            0 <= i < self.listeners.len() ==> {
                &&& (#[trigger] self.listeners[i]).mounted_node == Some(id)
                &&& self.listeners[i].event == before.listeners[i].event
                &&& self.listeners[i].callback == before.listeners[i].callback
            }
    }

    /// Whether `self` is what `before` is after an attempt to mount it
    /// under `id` and `parent` that ended in `r`: the attempt succeeds
    /// exactly on an element that is not mounted, and a refused element is
    /// as it was.
    pub open spec fn after_mount(
        &self,
        before: &Self,
        id: ElementId,
        parent: ElementId,
        r: Result<(), DoubleMount>,
    ) -> bool {
        &&& r is Ok <==> before.unmounted()
        &&& r is Ok ==> self.mounted_from(before, id, parent)
        &&& r is Err ==> *self == *before
    }

    /// An element that is not mounted yet.
    pub fn new(
        tag: &'static str,
        namespace: Option<&'static str>,
        key: Option<&'a str>,
        listeners: Vec<Listener<'a>>,
        attributes: Vec<Attribute<'a>>,
        children: Vec<VNode<'a>>,
    ) -> (r: Self)
        ensures
            r.unmounted(),
            r.tag == tag,
            r.namespace == namespace,
            r.key == key,
            r.listeners == listeners,
            r.attributes == attributes,
            r.children == children,
    {
        VElement { id: None, key, tag, namespace, parent: None, listeners, attributes, children }
    }

    /// Mounts the element into the live view: sets its id and its parent,
    /// and binds its listeners to the id. An element whose id or parent is
    /// set already is refused and left as it is.
    pub fn mount(&mut self, id: ElementId, parent: ElementId) -> (r: Result<(), DoubleMount>)
        ensures
            final(self).after_mount(old(self), id, parent, r),
    {
        if self.id.is_some() || self.parent.is_some() {
            return Err(DoubleMount);
        }
        self.id = Some(id);
        self.parent = Some(parent);
        let mut i: usize = 0;
        while i < self.listeners.len()
            invariant
                i <= self.listeners.len(),
                self.id == Some(id),
                self.parent == Some(parent),
                self.key == old(self).key,
                self.tag == old(self).tag,
                self.namespace == old(self).namespace,
                self.attributes == old(self).attributes,
                self.children == old(self).children,
                self.listeners.len() == old(self).listeners.len(),
                forall|j: int|
                    0 <= j < self.listeners.len() ==> {
                        &&& (#[trigger] self.listeners[j]).event == old(self).listeners[j].event
                        &&& self.listeners[j].callback == old(self).listeners[j].callback
                    },
                forall|j: int|
                    0 <= j < i ==> (#[trigger] self.listeners[j]).mounted_node == Some(id),
            decreases self.listeners.len() - i,
        {
            self.listeners[i].mounted_node = Some(id);
            i += 1;
        }
        Ok(())
    }
}

/// An element is mounted once. The first attempt on an element that is not
/// mounted succeeds and sets its id and its parent; every later attempt is
/// refused, whatever id and parent it brings, and leaves both as the first
/// set them.
pub proof fn lemma_mount_once<'a>(
    fresh: VElement<'a>,
    mounted: VElement<'a>,
    again: VElement<'a>,
    id: ElementId,
    parent: ElementId,
    other_id: ElementId,
    other_parent: ElementId,
    first: Result<(), DoubleMount>,
    second: Result<(), DoubleMount>,
)
    requires
        fresh.unmounted(),
        mounted.after_mount(&fresh, id, parent, first),
        again.after_mount(&mounted, other_id, other_parent, second),
    ensures
        first is Ok,
        mounted.id == Some(id),
        mounted.parent == Some(parent),
        !mounted.unmounted(),
        second is Err,
        again == mounted,
{
}

} // verus!
