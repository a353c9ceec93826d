//! The render-cache synchronizer: a listener that keeps a mapping from
//! entity identity to a derived, render-ready representation, consistent
//! with the aggregate purely through the notification stream. It never
//! re-reads the aggregate.
//!
//! On Add the representation is built and inserted (an upsert, never an
//! error); on Update it is rebuilt from scratch and the entry replaced by
//! removing and re-inserting under the same key; on Remove the entry is
//! deleted, and deleting an absent key is a no-op.

use vstd::prelude::*;

use crate::geometry::{Point2, Matrix4, AABB};
use crate::identity::Identity;
use crate::component::{ComponentInstanceV, spec_transform};
use crate::component_libraries::{ComponentLibraries, ComponentLibraryV, find_by_name};
use crate::parsing::schema::{WireSegment, WireType};
use crate::event::{EventMessage, EventMessageV, Listener};

verus! {

/// An RGBA color, one byte per channel.
#[derive(Debug, Clone, Copy, PartialEq, Eq, Structural)]
pub struct Color {
    pub r: u8,
    pub g: u8,
    pub b: u8,
    pub a: u8,
}

impl Color {
    pub fn new(r: u8, g: u8, b: u8, a: u8) -> (c: Color)
        ensures
            c == (Color { r, g, b, a }),
    {
        Color { r, g, b, a }
    }
}

/// The render-ready form of a wire segment.
#[derive(Debug, Clone, Copy, PartialEq, Eq, Structural)]
pub struct DrawableWire {
    pub start: Point2,
    pub end: Point2,
    pub kind: WireType,
}

/// The wire representation derived from a segment: its endpoints and kind.
pub open spec fn spec_wire_drawable(w: WireSegment) -> DrawableWire {
    DrawableWire { start: w.start, end: w.end, kind: w.kind }
}

impl DrawableWire {
    /// Build the render representation of a wire segment.
    pub fn from_schema(wire: &WireSegment) -> (r: DrawableWire)
        ensures
            r == spec_wire_drawable(*wire),
    {
        DrawableWire { start: wire.start, end: wire.end, kind: wire.kind }
    }
}

/// The render-ready form of a highlight rectangle.
#[derive(Debug, Clone, Copy, PartialEq, Eq, Structural)]
pub struct DrawableRect {
    pub rect: AABB,
    pub color: Color,
}

/// The render-ready form of a placed component: which library component to
/// draw and under which placement transform.
#[derive(Debug, Clone, PartialEq)]
pub struct DrawableComponent {
    pub name: String,
    pub transform: Matrix4,
}

pub ghost struct DrawableComponentV {
    pub name: Seq<char>,
    pub transform: Matrix4,
}

impl View for DrawableComponent {
    type V = DrawableComponentV;

    open spec fn view(&self) -> DrawableComponentV {
        DrawableComponentV { name: self.name@, transform: self.transform }
    }
}

/// One cached derived representation.
#[derive(Debug, Clone, PartialEq)]
pub enum Drawable {
    Wire(DrawableWire),
    Rect(DrawableRect),
    Component(DrawableComponent),
}

pub ghost enum DrawableV {
    Wire(DrawableWire),
    Rect(DrawableRect),
    Component(DrawableComponentV),
}

impl View for Drawable {
    type V = DrawableV;

    open spec fn view(&self) -> DrawableV {
        match self {
            Drawable::Wire(w) => DrawableV::Wire(*w),
            Drawable::Rect(r) => DrawableV::Rect(*r),
            Drawable::Component(c) => DrawableV::Component(c@),
        }
    }
}

/// The mapping an entry list denotes: later entries win, though under
/// `keys_unique` each key occurs once.
pub open spec fn cache_map(es: Seq<(Identity, Drawable)>) -> Map<Identity, DrawableV>
    decreases es.len(),
{
    if es.len() == 0 {
        Map::empty()
    } else {
        cache_map(es.drop_last()).insert(es.last().0, es.last().1@)
    }
}

pub open spec fn keys_unique(es: Seq<(Identity, Drawable)>) -> bool {
    forall|i: int, j: int| 0 <= i < j < es.len() ==> (#[trigger] es[i]).0 != (#[trigger] es[j]).0
}

proof fn lemma_cache_dom(es: Seq<(Identity, Drawable)>, k: Identity)
    ensures
        cache_map(es).dom().contains(k) <==> exists|i: int|
            0 <= i < es.len() && (#[trigger] es[i]).0 == k,
    decreases es.len(),
{
    if es.len() > 0 {
        lemma_cache_dom(es.drop_last(), k);
        if es.last().0 == k {
            assert(es[es.len() - 1].0 == k);
        }
        if exists|i: int| 0 <= i < es.len() && (#[trigger] es[i]).0 == k {
            let i = choose|i: int| 0 <= i < es.len() && (#[trigger] es[i]).0 == k;
            if i < es.len() - 1 {
                assert(es.drop_last()[i].0 == k);
            }
        }
    }
}

proof fn lemma_cache_at(es: Seq<(Identity, Drawable)>, i: int)
    requires
        keys_unique(es),
        0 <= i < es.len(),
    ensures
        cache_map(es).dom().contains(es[i].0),
        cache_map(es)[es[i].0] == es[i].1@,
    decreases es.len(),
{
    lemma_cache_dom(es, es[i].0);
    if i < es.len() - 1 {
        assert(keys_unique(es.drop_last()));
        assert(es.drop_last()[i] == es[i]);
        lemma_cache_at(es.drop_last(), i);
        assert(es[i].0 != es.last().0);
    }
}

proof fn lemma_cache_update(es: Seq<(Identity, Drawable)>, i: int, d: Drawable)
    requires
        keys_unique(es),
        0 <= i < es.len(),
    ensures
        cache_map(es.update(i, (es[i].0, d))) =~= cache_map(es).insert(es[i].0, d@),
    decreases es.len(),
{
    let k = es[i].0;
    let es2 = es.update(i, (k, d));
    if i == es.len() - 1 {
        assert(es2.drop_last() =~= es.drop_last());
        assert(es2.last() == (k, d));
    } else {
        assert(keys_unique(es.drop_last()));
        assert(es.drop_last()[i] == es[i]);
        lemma_cache_update(es.drop_last(), i, d);
        assert(es2.drop_last() =~= es.drop_last().update(i, (k, d)));
        assert(es2.last() == es.last());
        assert(k != es.last().0);
    }
}

proof fn lemma_cache_remove(es: Seq<(Identity, Drawable)>, i: int)
    requires
        keys_unique(es),
        0 <= i < es.len(),
    ensures
        cache_map(es.remove(i)) =~= cache_map(es).remove(es[i].0),
    decreases es.len(),
{
    let k = es[i].0;
    if i == es.len() - 1 {
        assert(es.remove(i) =~= es.drop_last());
        lemma_cache_dom(es.drop_last(), k);
        assert(forall|q: int|
            0 <= q < es.drop_last().len() ==> (#[trigger] es.drop_last()[q]).0 != k);
        assert(!cache_map(es.drop_last()).dom().contains(k));
    } else {
        assert(keys_unique(es.drop_last()));
        assert(es.drop_last()[i] == es[i]);
        lemma_cache_remove(es.drop_last(), i);
        assert(es.remove(i).drop_last() =~= es.drop_last().remove(i));
        assert(es.remove(i).last() == es.last());
        assert(k != es.last().0);
    }
}

/// The ghost state of a synchronizer: its cache and the libraries it builds
/// component representations from.
pub ghost struct SchemaDrawerV {
    pub cache: Map<Identity, DrawableV>,
    pub libraries: Seq<ComponentLibraryV>,
}

/// How one notification changes the cache. Add inserts (an upsert); Update
/// rebuilds and replaces; Remove deletes, absent keys being a no-op; draw
/// and view messages leave the cache unchanged. A component is only added
/// when its library component is known, and only its transform is rebuilt on
/// update.
pub open spec fn spec_drawer_receive(d: SchemaDrawerV, m: EventMessageV) -> SchemaDrawerV {
    let cache = d.cache;
    match m {
        EventMessageV::AddComponent(c) => match find_by_name(d.libraries, c.name) {
            Some(_) => SchemaDrawerV {
                cache: cache.insert(
                    c.uuid,
                    DrawableV::Component(
                        DrawableComponentV { name: c.name, transform: spec_transform(c) },
                    ),
                ),
                ..d
            },
            None => d,
        },
        EventMessageV::UpdateComponent(c) => if cache.dom().contains(c.uuid) {
            match cache[c.uuid] {
                DrawableV::Component(dc) => SchemaDrawerV {
                    cache: cache.insert(
                        c.uuid,
                        DrawableV::Component(
                            DrawableComponentV { name: dc.name, transform: spec_transform(c) },
                        ),
                    ),
                    ..d
                },
                _ => d,
            }
        } else {
            d
        },
        EventMessageV::AddWire(w) => SchemaDrawerV {
            cache: cache.insert(w.uuid, DrawableV::Wire(spec_wire_drawable(w))),
            ..d
        },
        EventMessageV::UpdateWire(w) => SchemaDrawerV {
            cache: cache.insert(w.uuid, DrawableV::Wire(spec_wire_drawable(w))),
            ..d
        },
        EventMessageV::RemoveWire(w) => SchemaDrawerV { cache: cache.remove(w.uuid), ..d },
        _ => d,
    }
}

/// The render-cache synchronizer.
#[derive(Debug)]
pub struct SchemaDrawer {
    entries: Vec<(Identity, Drawable)>,
    libraries: ComponentLibraries,
}

impl View for SchemaDrawer {
    type V = SchemaDrawerV;

    closed spec fn view(&self) -> SchemaDrawerV {
        SchemaDrawerV { cache: cache_map(self.entries@), libraries: self.libraries@ }
    }
}

impl SchemaDrawer {
    /// Each identity keys at most one cache entry.
    pub closed spec fn wf(&self) -> bool {
        keys_unique(self.entries@)
    }

    /// A synchronizer with an empty cache, building component
    /// representations against the given libraries.
    pub fn new(libraries: ComponentLibraries) -> (r: SchemaDrawer)
        ensures
            r.wf(),
            r@.cache =~= Map::<Identity, DrawableV>::empty(),
            r@.libraries == libraries@,
    {
        SchemaDrawer { entries: Vec::new(), libraries }
    }

    /// The number of cached entries.
    pub fn len(&self) -> (n: usize)
        requires
            self.wf(),
        ensures
            n == self@.cache.dom().len(),
    {
        proof {
            lemma_entries_len(self.entries@);
        }
        self.entries.len()
    }

    fn find_index(&self, uuid: &Identity) -> (r: Option<usize>)
        ensures
            match r {
                Some(i) => i < self.entries@.len() && self.entries@[i as int].0 == *uuid,
                None => forall|q: int|
                    0 <= q < self.entries@.len() ==> (#[trigger] self.entries@[q]).0 != *uuid,
            },
    {
        let mut i: usize = 0;
        while i < self.entries.len()
            invariant
                0 <= i <= self.entries@.len(),
                forall|q: int| 0 <= q < i ==> (#[trigger] self.entries@[q]).0 != *uuid,
            decreases self.entries@.len() - i,
        {
            if self.entries[i].0.hi == uuid.hi && self.entries[i].0.lo == uuid.lo {
                proof {
                    assert(self.entries@[i as int].0 == *uuid);
                }
                return Some(i);
            }
            i = i + 1;
        }
        None
    }

    /// Look one cached representation up by identity.
    pub fn get_drawable(&self, uuid: &Identity) -> (r: Option<&Drawable>)
        requires
            self.wf(),
        ensures
            match r {
                Some(d) => self@.cache.dom().contains(*uuid) && self@.cache[*uuid] == d@,
                None => !self@.cache.dom().contains(*uuid),
            },
    {
        proof {
            lemma_cache_dom(self.entries@, *uuid);
        }
        match self.find_index(uuid) {
            Some(i) => {
                proof {
                    lemma_cache_at(self.entries@, i as int);
                }
                Some(&self.entries[i].1)
            },
            None => None,
        }
    }

    /// Insert a representation under an identity; an existing entry under
    /// the same identity is overwritten.
    pub fn add_drawable(&mut self, uuid: &Identity, drawable: Drawable)
        requires
            old(self).wf(),
        ensures
            final(self).wf(),
            final(self)@.cache =~= old(self)@.cache.insert(*uuid, drawable@),
            final(self)@.libraries == old(self)@.libraries,
    {
        match self.find_index(uuid) {
            Some(i) => {
                proof {
                    lemma_cache_update(self.entries@, i as int, drawable);
                }
                self.entries.set(i, (*uuid, drawable));
            },
            None => {
                proof {
                    assert(self.entries@.push((*uuid, drawable)).drop_last() =~= self.entries@);
                }
                self.entries.push((*uuid, drawable));
            },
        }
    }

    /// Delete the entry under an identity; deleting an absent identity
    /// changes nothing.
    pub fn remove_drawable(&mut self, uuid: &Identity)
        requires
            old(self).wf(),
        ensures
            final(self).wf(),
            final(self)@.cache =~= old(self)@.cache.remove(*uuid),
            final(self)@.libraries == old(self)@.libraries,
    {
        proof {
            lemma_cache_dom(self.entries@, *uuid);
        }
        match self.find_index(uuid) {
            Some(i) => {
                proof {
                    lemma_cache_remove(self.entries@, i as int);
                    assert(forall|a: int, b: int|
                        0 <= a < b < self.entries@.remove(i as int).len()
                            ==> (#[trigger] self.entries@.remove(i as int)[a]).0 != (
                        #[trigger] self.entries@.remove(i as int)[b]).0) by {
                        assert(forall|a: int|
                            0 <= a < self.entries@.remove(i as int).len()
                                ==> #[trigger] self.entries@.remove(i as int)[a] == (if a
                                < i as int {
                                self.entries@[a]
                            } else {
                                self.entries@[a + 1]
                            }));
                    }
                }
                let _removed: (Identity, Drawable) = self.entries.remove(i);
            },
            None => {
                proof {
                    assert(old(self)@.cache.remove(*uuid) =~= old(self)@.cache);
                }
            },
        }
    }

    /// Cache the representation of a new wire.
    pub fn add_wire(&mut self, wire: WireSegment)
        requires
            old(self).wf(),
        ensures
            final(self).wf(),
            final(self)@ == spec_drawer_receive(old(self)@, EventMessageV::AddWire(wire)),
    {
        let d: DrawableWire = DrawableWire::from_schema(&wire);
        self.add_drawable(&wire.uuid, Drawable::Wire(d));
        proof {
            assert(self@.cache =~= spec_drawer_receive(
                old(self)@,
                EventMessageV::AddWire(wire),
            ).cache);
        }
    }

    /// Drop the representation of a removed wire.
    pub fn remove_wire(&mut self, wire: WireSegment)
        requires
            old(self).wf(),
        ensures
            final(self).wf(),
            final(self)@ == spec_drawer_receive(old(self)@, EventMessageV::RemoveWire(wire)),
    {
        self.remove_drawable(&wire.uuid);
        proof {
            assert(self@.cache =~= spec_drawer_receive(
                old(self)@,
                EventMessageV::RemoveWire(wire),
            ).cache);
        }
    }

    /// Rebuild the representation of a changed wire from scratch and replace
    /// the cached entry: remove, then re-insert under the same key.
    pub fn update_wire(&mut self, wire: WireSegment)
        requires
            old(self).wf(),
        ensures
            final(self).wf(),
            final(self)@ == spec_drawer_receive(old(self)@, EventMessageV::UpdateWire(wire)),
    {
        let d: DrawableWire = DrawableWire::from_schema(&wire);
        self.remove_drawable(&wire.uuid);
        self.add_drawable(&wire.uuid, Drawable::Wire(d));
        proof {
            assert(self@.cache =~= spec_drawer_receive(
                old(self)@,
                EventMessageV::UpdateWire(wire),
            ).cache);
        }
    }

    /// Cache a highlight rectangle.
    pub fn add_rect(&mut self, uuid: &Identity, rect: &AABB, color: Color)
        requires
            old(self).wf(),
        ensures
            final(self).wf(),
            final(self)@.cache =~= old(self)@.cache.insert(
                *uuid,
                DrawableV::Rect(DrawableRect { rect: *rect, color }),
            ),
            final(self)@.libraries == old(self)@.libraries,
    {
        self.add_drawable(uuid, Drawable::Rect(DrawableRect { rect: *rect, color }));
    }

    /// Replace a cached highlight rectangle: remove, then re-insert.
    pub fn update_rect(&mut self, uuid: &Identity, rect: &AABB, color: Color)
        requires
            old(self).wf(),
        ensures
            final(self).wf(),
            final(self)@.cache =~= old(self)@.cache.insert(
                *uuid,
                DrawableV::Rect(DrawableRect { rect: *rect, color }),
            ),
            final(self)@.libraries == old(self)@.libraries,
    {
        self.remove_drawable(uuid);
        self.add_drawable(uuid, Drawable::Rect(DrawableRect { rect: *rect, color }));
    }

    /// React to one notification, as `spec_drawer_receive` describes.
    pub fn receive(&mut self, msg: &EventMessage)
        requires
            old(self).wf(),
        ensures
            final(self).wf(),
            final(self)@ == spec_drawer_receive(old(self)@, msg@),
    {
        match msg {
            EventMessage::AddComponent(instance) => {
                match self.libraries.get_component_by_name(&instance.name) {
                    Some(_component) => {
                        let transform: Matrix4 = instance.get_transform();
                        let d: DrawableComponent = DrawableComponent {
                            name: instance.name.clone(),
                            transform,
                        };
                        let id: Identity = instance.uuid;
                        self.add_drawable(&id, Drawable::Component(d));
                    },
                    None => {},
                }
            },
            EventMessage::UpdateComponent(instance) => {
                let id: Identity = instance.uuid;
                match self.find_index(&id) {
                    Some(i) => {
                        proof {
                            lemma_cache_dom(self.entries@, id);
                            lemma_cache_at(self.entries@, i as int);
                        }
                        let name: Option<String> = match &self.entries[i].1 {
                            Drawable::Component(dc) => Some(dc.name.clone()),
                            _ => None,
                        };
                        match name {
                            Some(n) => {
                                let transform: Matrix4 = instance.get_transform();
                                let d: DrawableComponent = DrawableComponent {
                                    name: n,
                                    transform,
                                };
                                self.add_drawable(&id, Drawable::Component(d));
                            },
                            None => {},
                        }
                    },
                    None => {
                        proof {
                            lemma_cache_dom(self.entries@, id);
                        }
                    },
                }
            },
            EventMessage::AddWire(instance) => {
                self.add_wire(*instance);
            },
            EventMessage::RemoveWire(instance) => {
                self.remove_wire(*instance);
            },
            EventMessage::UpdateWire(instance) => {
                self.update_wire(*instance);
            },
            _ => {},
        }
    }
}

impl Listener for SchemaDrawer {
    fn receive(&mut self, msg: &EventMessage) {
        if self.wf_check() {
            SchemaDrawer::receive(self, msg);
        }
    }
}

impl SchemaDrawer {
    /// Whether each identity keys at most one cache entry; true of every
    /// synchronizer this module builds.
    pub fn wf_check(&self) -> (r: bool)
        ensures
            r == self.wf(),
    {
        let mut i: usize = 0;
        let mut ok: bool = true;
        while i < self.entries.len()
            invariant
                0 <= i <= self.entries@.len(),
                ok == forall|a: int, b: int|
                    0 <= a < b < i ==> (#[trigger] self.entries@[a]).0 != (
                    #[trigger] self.entries@[b]).0,
            decreases self.entries@.len() - i,
        {
            let mut j: usize = 0;
            let mut dup: bool = false;
            while j < i
                invariant
                    0 <= j <= i < self.entries@.len(),
                    dup == exists|q: int|
                        0 <= q < j && (#[trigger] self.entries@[q]).0 == self.entries@[i as int].0,
                decreases i - j,
            {
                if self.entries[j].0.hi == self.entries[i].0.hi && self.entries[j].0.lo
                    == self.entries[i].0.lo {
                    proof {
                        assert(self.entries@[j as int].0 == self.entries@[i as int].0);
                    }
                    dup = true;
                }
                j = j + 1;
            }
            if dup {
                ok = false;
            }
            i = i + 1;
        }
        ok
    }
}

proof fn lemma_entries_len(es: Seq<(Identity, Drawable)>)
    requires
        keys_unique(es),
    ensures
        cache_map(es).dom().len() == es.len(),
        cache_map(es).dom().finite(),
    decreases es.len(),
{
    if es.len() > 0 {
        assert(keys_unique(es.drop_last()));
        lemma_entries_len(es.drop_last());
        lemma_cache_dom(es.drop_last(), es.last().0);
        assert(!cache_map(es.drop_last()).dom().contains(es.last().0));
    }
}

/// Adding and then updating an entity with the same identity leaves exactly
/// one cache entry for that identity, whose content is the latest
/// representation.
pub proof fn lemma_add_then_update_wire(d: SchemaDrawerV, w1: WireSegment, w2: WireSegment)
    requires
        w1.uuid == w2.uuid,
    ensures
        ({
            let after = spec_drawer_receive(
                spec_drawer_receive(d, EventMessageV::AddWire(w1)),
                EventMessageV::UpdateWire(w2),
            );
            after.cache =~= d.cache.insert(w2.uuid, DrawableV::Wire(spec_wire_drawable(w2)))
                && after.cache[w2.uuid] == DrawableV::Wire(spec_wire_drawable(w2))
                && after.cache.dom() =~= d.cache.dom().insert(w2.uuid)
        }),
{
}

/// Adding and then updating a component with the same identity leaves
/// exactly one cache entry for that identity, whose transform reflects the
/// latest state; the name is the one cached at insertion. (Only a component
/// known to the libraries is cached at all.)
pub proof fn lemma_add_then_update_component(
    d: SchemaDrawerV,
    c1: ComponentInstanceV,
    c2: ComponentInstanceV,
)
    requires
        c1.uuid == c2.uuid,
        find_by_name(d.libraries, c1.name) is Some,
    ensures
        ({
            let after = spec_drawer_receive(
                spec_drawer_receive(d, EventMessageV::AddComponent(c1)),
                EventMessageV::UpdateComponent(c2),
            );
            after.cache =~= d.cache.insert(
                c2.uuid,
                DrawableV::Component(
                    DrawableComponentV { name: c1.name, transform: spec_transform(c2) },
                ),
            ) && after.cache.dom() =~= d.cache.dom().insert(c2.uuid)
        }),
{
}

/// Removing an identity that has no cache entry is a no-op: the cache is
/// unchanged.
pub proof fn lemma_remove_absent_wire(d: SchemaDrawerV, w: WireSegment)
    requires
        !d.cache.dom().contains(w.uuid),
    ensures
        spec_drawer_receive(d, EventMessageV::RemoveWire(w)).cache =~= d.cache,
        spec_drawer_receive(d, EventMessageV::RemoveWire(w)).cache.dom().len()
            == d.cache.dom().len(),
{
    assert(d.cache.remove(w.uuid) =~= d.cache);
}

} // verus!
