//! The event bus: an in-process publish/subscribe hub. After each mutation
//! the aggregate emits exactly one typed notification carrying a full
//! post-mutation snapshot of the affected entity; `send` delivers it
//! synchronously, in registration order, to every registered listener, and
//! returns only after all listeners have processed it. There is no queueing,
//! batching, or asynchronous dispatch.

use vstd::prelude::*;

use crate::component::{Component, ComponentV, ComponentInstance, ComponentInstanceV};
use crate::parsing::schema::WireSegment;
use crate::schema_drawer::{SchemaDrawer, SchemaDrawerV, spec_drawer_receive};

verus! {

/// One typed change notification. Entity payloads are full post-mutation
/// snapshots, never deltas.
#[derive(Debug, Clone, PartialEq)]
pub enum EventMessage {
    AddComponent(ComponentInstance),
    UpdateComponent(ComponentInstance),
    AddWire(WireSegment),
    UpdateWire(WireSegment),
    RemoveWire(WireSegment),
    OpenComponent(Component),
    DrawComponent,
    DrawSchema,
    ResizeDrawArea(u16, u16),
    ViewStateChanged,
}

pub ghost enum EventMessageV {
    AddComponent(ComponentInstanceV),
    UpdateComponent(ComponentInstanceV),
    AddWire(WireSegment),
    UpdateWire(WireSegment),
    RemoveWire(WireSegment),
    OpenComponent(ComponentV),
    DrawComponent,
    DrawSchema,
    ResizeDrawArea(u16, u16),
    ViewStateChanged,
}

impl View for EventMessage {
    type V = EventMessageV;

    open spec fn view(&self) -> EventMessageV {
        match self {
            EventMessage::AddComponent(c) => EventMessageV::AddComponent(c@),
            EventMessage::UpdateComponent(c) => EventMessageV::UpdateComponent(c@),
            EventMessage::AddWire(w) => EventMessageV::AddWire(*w),
            EventMessage::UpdateWire(w) => EventMessageV::UpdateWire(*w),
            EventMessage::RemoveWire(w) => EventMessageV::RemoveWire(*w),
            EventMessage::OpenComponent(c) => EventMessageV::OpenComponent(c@),
            EventMessage::DrawComponent => EventMessageV::DrawComponent,
            EventMessage::DrawSchema => EventMessageV::DrawSchema,
            EventMessage::ResizeDrawArea(w, h) => EventMessageV::ResizeDrawArea(*w, *h),
            EventMessage::ViewStateChanged => EventMessageV::ViewStateChanged,
        }
    }
}

/// The capability to receive one notification and react to it.
pub trait Listener {
    fn receive(&mut self, msg: &EventMessage);
}

/// A registered listener. The known implementers are listed here, so that
/// dispatch stays fully checked.
#[derive(Debug)]
pub enum BusListener {
    Drawer(SchemaDrawer),
}

pub ghost enum BusListenerV {
    Drawer(SchemaDrawerV),
}

impl View for BusListener {
    type V = BusListenerV;

    open spec fn view(&self) -> BusListenerV {
        match self {
            BusListener::Drawer(d) => BusListenerV::Drawer(d@),
        }
    }
}

/// How one listener's state reacts to one notification.
pub open spec fn spec_listener_receive(l: BusListenerV, m: EventMessageV) -> BusListenerV {
    match l {
        BusListenerV::Drawer(d) => BusListenerV::Drawer(spec_drawer_receive(d, m)),
    }
}

/// The state of every listener after one notification was delivered to each
/// of them, in registration order.
pub open spec fn spec_send(ls: Seq<BusListenerV>, m: EventMessageV) -> Seq<BusListenerV> {
    Seq::new(ls.len(), |i: int| spec_listener_receive(ls[i], m))
}

impl BusListener {
    pub open spec fn wf(&self) -> bool {
        match self {
            BusListener::Drawer(d) => d.wf(),
        }
    }

    /// Deliver one notification to this listener.
    pub fn receive(&mut self, msg: &EventMessage)
        requires
            old(self).wf(),
        ensures
            final(self).wf(),
            final(self)@ == spec_listener_receive(old(self)@, msg@),
    {
        match self {
            BusListener::Drawer(d) => {
                d.receive(msg);
            },
        }
    }
}

/// The in-process fan-out hub.
#[derive(Debug)]
pub struct EventBus {
    listeners: Vec<BusListener>,
}

impl View for EventBus {
    type V = Seq<BusListenerV>;

    closed spec fn view(&self) -> Seq<BusListenerV> {
        Seq::new(self.listeners@.len(), |i: int| self.listeners@[i]@)
    }
}

impl EventBus {
    pub closed spec fn wf(&self) -> bool {
        forall|i: int| 0 <= i < self.listeners@.len() ==> (#[trigger] self.listeners@[i]).wf()
    }

    /// A bus with no listeners.
    pub fn new() -> (r: EventBus)
        ensures
            r.wf(),
            r@ =~= Seq::<BusListenerV>::empty(),
    {
        EventBus { listeners: Vec::new() }
    }

    /// Register one more listener; it will receive every later
    /// notification, after all previously registered listeners.
    pub fn add_listener(&mut self, listener: BusListener)
        requires
            old(self).wf(),
            listener.wf(),
        ensures
            final(self).wf(),
            final(self)@ =~= old(self)@.push(listener@),
    {
        self.listeners.push(listener);
    }

    /// The number of registered listeners.
    pub fn len(&self) -> (n: usize)
        ensures
            n == self@.len(),
    {
        self.listeners.len()
    }

    /// Borrow one registered listener.
    pub fn listener_at(&self, i: usize) -> (r: &BusListener)
        requires
            i < self@.len(),
        ensures
            r@ == self@[i as int],
            self.wf() ==> r.wf(),
    {
        &self.listeners[i]
    }

    /// Deliver a notification synchronously to every listener, in
    /// registration order; returns only after the last listener has
    /// processed it.
    pub fn send(&mut self, msg: &EventMessage)
        requires
            old(self).wf(),
        ensures
            final(self).wf(),
            final(self)@ =~= spec_send(old(self)@, msg@),
    {
        let n: usize = self.listeners.len();
        let mut i: usize = 0;
        while i < n
            invariant
                0 <= i <= n,
                n == self.listeners@.len(),
                n == old(self)@.len(),
                forall|q: int| 0 <= q < n ==> (#[trigger] self.listeners@[q]).wf(),
                forall|q: int|
                    i <= q < n ==> (#[trigger] self.listeners@[q])@ == old(self)@[q],
                forall|q: int|
                    0 <= q < i ==> (#[trigger] self.listeners@[q])@ == spec_listener_receive(
                        old(self)@[q],
                        msg@,
                    ),
            decreases n - i,
    {
            let mut l: BusListener = self.listeners.remove(i);
            l.receive(msg);
            self.listeners.insert(i, l);
            i = i + 1;
        }
    }
}

} // verus!
