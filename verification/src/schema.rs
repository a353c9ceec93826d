//! The aggregate: the single owner of the authoritative component-instance
//! and wire collections. Every public mutation is a single atomic change
//! followed by exactly one notification on the event bus, carrying a full
//! post-mutation snapshot of the affected entity. Identities are assigned
//! here, exactly once, at insertion.

use vstd::prelude::*;

use crate::geometry::{Point2, Vector2, AABB, spec_merge, spec_rotated90, rotatable};
use crate::identity::{Identity, fresh_identity};
use crate::component::{
    ComponentInstance, ComponentInstanceV, coord_ok, instance_wf, elems_wf, instance_bbox,
    origin_box,
};
use crate::component_libraries::{
    ComponentLibraries, ComponentLibraryV, find_by_name, find_comp, libs_wf,
};
use crate::parsing::schema::{
    WireSegment, SchemaFile, comps_view, sp_schema_file, components_of, wires_of,
    all_instances_wf, lemma_parsed_schema_wf,
};
use crate::event::{EventBus, EventMessage, EventMessageV, BusListenerV, spec_send};

verus! {

/// A recoverable failure of a query or update: the identity or name was not
/// found.
#[derive(Debug, Clone, Copy, PartialEq, Eq, Structural)]
pub enum SchemaError {
    NotFound,
}

/// Some instance in the sequence carries this identity.
pub open spec fn has_comp_id(cs: Seq<ComponentInstanceV>, id: Identity) -> bool {
    exists|i: int| 0 <= i < cs.len() && (#[trigger] cs[i]).uuid == id
}

/// Some wire in the sequence carries this identity.
pub open spec fn has_wire_id(ws: Seq<WireSegment>, id: Identity) -> bool {
    exists|i: int| 0 <= i < ws.len() && (#[trigger] ws[i]).uuid == id
}

/// The index of the instance carrying this identity; meaningful when
/// identities are unique and the identity is present.
pub open spec fn comp_index(cs: Seq<ComponentInstanceV>, id: Identity) -> int {
    choose|i: int| 0 <= i < cs.len() && (#[trigger] cs[i]).uuid == id
}

/// The index of the wire carrying this identity.
pub open spec fn wire_index(ws: Seq<WireSegment>, id: Identity) -> int {
    choose|i: int| 0 <= i < ws.len() && (#[trigger] ws[i]).uuid == id
}

/// The instance with its identity replaced: what insertion stores and what
/// the notification snapshot carries.
pub open spec fn with_id(c: ComponentInstanceV, id: Identity) -> ComponentInstanceV {
    ComponentInstanceV { uuid: id, ..c }
}

/// The instance after one quarter-turn rotation: the rotation matrix is
/// composed with the turn, never replaced.
pub open spec fn rotated_instance(c: ComponentInstanceV) -> ComponentInstanceV {
    ComponentInstanceV { rotation: spec_rotated90(c.rotation), ..c }
}

/// The instance after a move: the position is set absolutely to the origin
/// plus the given translation (not translated relatively).
pub open spec fn moved_instance(c: ComponentInstanceV, t: Vector2) -> ComponentInstanceV {
    ComponentInstanceV { position: Point2 { x: t.x, y: t.y }, ..c }
}

/// The union of the boxes of exactly those instances whose library name
/// resolves, with nothing else merged in; instances with an unknown name
/// are silently skipped. Nothing when no instance resolves.
pub open spec fn spec_schema_bbox(cs: Seq<ComponentInstanceV>, ls: Seq<ComponentLibraryV>) -> Option<AABB>
    decreases cs.len(),
{
    if cs.len() == 0 {
        None
    } else {
        let prev = spec_schema_bbox(cs.drop_last(), ls);
        match find_by_name(ls, cs.last().name) {
            Some(comp) => {
                let b = instance_bbox(comp.elements, cs.last());
                match prev {
                    Some(p) => Some(spec_merge(p, b)),
                    None => Some(b),
                }
            },
            None => prev,
        }
    }
}

/// The box a bounding-box query reports: the union above, or the degenerate
/// origin box when no instance resolves (in particular over an empty set).
pub open spec fn spec_schema_bbox_or_origin(
    cs: Seq<ComponentInstanceV>,
    ls: Seq<ComponentLibraryV>,
) -> AABB {
    match spec_schema_bbox(cs, ls) {
        Some(b) => b,
        None => origin_box(),
    }
}

proof fn lemma_find_comp_wf(cs: Seq<crate::component::ComponentV>, name: Seq<char>)
    requires
        forall|j: int| 0 <= j < cs.len() ==> elems_wf((#[trigger] cs[j]).elements),
    ensures
        match find_comp(cs, name) {
            Some(c) => elems_wf(c.elements),
            None => true,
        },
    decreases cs.len(),
{
    if cs.len() > 0 && cs.first().name != name {
        assert(forall|j: int|
            0 <= j < cs.drop_first().len() ==> elems_wf((#[trigger] cs.drop_first()[j]).elements))
            by {
            assert(forall|j: int|
                0 <= j < cs.drop_first().len() ==> cs.drop_first()[j] == cs[j + 1]);
        }
        lemma_find_comp_wf(cs.drop_first(), name);
    }
}

proof fn lemma_find_by_name_wf(ls: Seq<ComponentLibraryV>, name: Seq<char>)
    requires
        libs_wf(ls),
    ensures
        match find_by_name(ls, name) {
            Some(c) => elems_wf(c.elements),
            None => true,
        },
    decreases ls.len(),
{
    if ls.len() > 0 {
        assert(forall|j: int|
            0 <= j < ls.first().components.len() ==> elems_wf(
                (#[trigger] ls.first().components[j]).elements,
            )) by {
            assert(ls.first() == ls[0]);
        }
        lemma_find_comp_wf(ls.first().components, name);
        assert(libs_wf(ls.drop_first())) by {
            assert(forall|j: int| 0 <= j < ls.drop_first().len() ==> ls.drop_first()[j] == ls[j + 1]);
        }
        lemma_find_by_name_wf(ls.drop_first(), name);
    }
}

/// Stored instances carry unique, non-nil, bounded state.
pub open spec fn comps_ok(cs: Seq<ComponentInstanceV>) -> bool {
    &&& forall|i: int, j: int|
        0 <= i < j < cs.len() ==> (#[trigger] cs[i]).uuid != (#[trigger] cs[j]).uuid
    &&& forall|i: int|
        0 <= i < cs.len() ==> !(#[trigger] cs[i]).uuid.spec_is_nil() && instance_wf(cs[i])
}

/// Stored wires carry unique, non-nil identities.
pub open spec fn wires_ok(ws: Seq<WireSegment>) -> bool {
    &&& forall|i: int, j: int|
        0 <= i < j < ws.len() ==> (#[trigger] ws[i]).uuid != (#[trigger] ws[j]).uuid
    &&& forall|i: int| 0 <= i < ws.len() ==> !(#[trigger] ws[i]).uuid.spec_is_nil()
}

/// The stored entities equal the parsed ones, each under some fresh
/// (non-nil) identity assigned at insertion.
pub open spec fn components_match(
    stored: Seq<ComponentInstanceV>,
    parsed: Seq<ComponentInstanceV>,
) -> bool {
    stored.len() == parsed.len() && forall|k: int|
        0 <= k < stored.len() ==> (#[trigger] stored[k]) == with_id(parsed[k], stored[k].uuid)
            && !stored[k].uuid.spec_is_nil()
}

/// The stored wires equal the parsed ones, each under some fresh (non-nil)
/// identity assigned at insertion.
pub open spec fn wires_match(stored: Seq<WireSegment>, parsed: Seq<WireSegment>) -> bool {
    stored.len() == parsed.len() && forall|k: int|
        0 <= k < stored.len() ==> (#[trigger] stored[k]) == (WireSegment {
            uuid: stored[k].uuid,
            ..parsed[k]
        }) && !stored[k].uuid.spec_is_nil()
}

/// The aggregate.
#[derive(Debug)]
pub struct Schema {
    components: Vec<ComponentInstance>,
    wires: Vec<WireSegment>,
    event_bus: EventBus,
}

impl Schema {
    /// The stored instances, as ghost values.
    pub closed spec fn components(&self) -> Seq<ComponentInstanceV> {
        comps_view(self.components@)
    }

    /// The stored wires.
    pub closed spec fn wires(&self) -> Seq<WireSegment> {
        self.wires@
    }

    /// The registered listeners' states.
    pub closed spec fn listeners(&self) -> Seq<BusListenerV> {
        self.event_bus@
    }

    /// Identities are unique and never nil once stored; every stored
    /// instance is bounded, so rotation and box arithmetic on it is exact.
    pub closed spec fn wf(&self) -> bool {
        comps_ok(self.components()) && wires_ok(self.wires()) && self.event_bus.wf()
    }

    /// A blank schema publishing to the given bus.
    pub fn new(event_bus: EventBus) -> (r: Schema)
        requires
            event_bus.wf(),
        ensures
            r.wf(),
            r.components() =~= Seq::<ComponentInstanceV>::empty(),
            r.wires() =~= Seq::<WireSegment>::empty(),
            r.listeners() == event_bus@,
    {
        let r = Schema { components: Vec::new(), wires: Vec::new(), event_bus };
        proof {
            assert(r.components() =~= Seq::<ComponentInstanceV>::empty());
        }
        r
    }

    /// Borrow the bus, to inspect listener state.
    pub fn event_bus(&self) -> (r: &EventBus)
        ensures
            r@ == self.listeners(),
            self.wf() ==> r.wf(),
    {
        &self.event_bus
    }

    fn find_component_index(&self, id: &Identity) -> (r: Option<usize>)
        ensures
            match r {
                Some(i) => i < self.components().len() && self.components()[i as int].uuid == *id,
                None => !has_comp_id(self.components(), *id),
            },
    {
        let mut i: usize = 0;
        while i < self.components.len()
            invariant
                0 <= i <= self.components@.len(),
                forall|q: int| 0 <= q < i ==> (#[trigger] self.components()[q]).uuid != *id,
            decreases self.components@.len() - i,
        {
            if self.components[i].uuid.hi == id.hi && self.components[i].uuid.lo == id.lo {
                proof {
                    assert(self.components()[i as int].uuid == *id);
                }
                return Some(i);
            }
            i = i + 1;
        }
        None
    }

    fn find_wire_index(&self, id: &Identity) -> (r: Option<usize>)
        ensures
            match r {
                Some(i) => i < self.wires().len() && self.wires()[i as int].uuid == *id,
                None => !has_wire_id(self.wires(), *id),
            },
    {
        let mut i: usize = 0;
        while i < self.wires.len()
            invariant
                0 <= i <= self.wires@.len(),
                forall|q: int| 0 <= q < i ==> (#[trigger] self.wires()[q]).uuid != *id,
            decreases self.wires@.len() - i,
        {
            if self.wires[i].uuid.hi == id.hi && self.wires[i].uuid.lo == id.lo {
                return Some(i);
            }
            i = i + 1;
        }
        None
    }

    /// Insert an instance: a fresh identity is assigned (the parser's nil
    /// placeholder is discarded), the instance is stored, one AddComponent
    /// notification carrying the stored snapshot is emitted, and the new
    /// identity is returned. In the vanishing case that the random identity
    /// is already stored — possible only when the store is nonempty — the
    /// insertion is refused: nothing is stored or emitted and no identity is
    /// returned, so a caller cannot mistake the collision for success.
    pub fn add_component(&mut self, instance: ComponentInstance) -> (r: Option<Identity>)
        requires
            old(self).wf(),
            instance_wf(instance@),
        ensures
            final(self).wf(),
            r matches Some(id) ==> (!id.spec_is_nil() && !has_comp_id(old(self).components(), id)
                && final(self).components() =~= old(self).components().push(
                with_id(instance@, id),
            ) && final(self).wires() == old(self).wires() && final(self).listeners() =~= spec_send(
                old(self).listeners(),
                EventMessageV::AddComponent(with_id(instance@, id)),
            )),
            r is None ==> final(self).components() == old(self).components() && final(self).wires()
                == old(self).wires() && final(self).listeners() == old(self).listeners() && old(self).components().len() > 0,
    {
        let id: Identity = fresh_identity();
        match self.find_component_index(&id) {
            Some(_) => None,
            None => {
                let mut inst: ComponentInstance = instance;
                inst.uuid = id;
                let snapshot: ComponentInstance = ComponentInstance {
                    uuid: id,
                    name: inst.name.clone(),
                    reference: inst.reference.clone(),
                    position: inst.position,
                    rotation: inst.rotation,
                };
                proof {
                    assert(snapshot@ == with_id(instance@, id));
                    assert(comps_view(self.components@.push(inst)) =~= self.components().push(
                        inst@,
                    ));
                }
                self.components.push(inst);
                self.event_bus.send(&EventMessage::AddComponent(snapshot));
                Some(id)
            },
        }
    }

    /// Insert a wire: a fresh identity is assigned, the wire is stored, and
    /// one AddWire notification carrying the stored snapshot is emitted. In
    /// the vanishing case that the random identity is already present —
    /// possible only when the store is nonempty, so an empty store always
    /// takes the insertion — nothing is stored or emitted.
    pub fn add_wire(&mut self, instance: WireSegment)
        requires
            old(self).wf(),
        ensures
            final(self).wf(),
            final(self).components() == old(self).components(),
            final(self).wires().len() == old(self).wires().len() || final(self).wires().len()
                == old(self).wires().len() + 1,
            final(self).wires().len() == old(self).wires().len() ==> old(self).wires().len() > 0,
            final(self).wires().len() == old(self).wires().len() + 1 ==> ({
                let nw = final(self).wires().last();
                &&& !nw.uuid.spec_is_nil()
                &&& !has_wire_id(old(self).wires(), nw.uuid)
                &&& nw == (WireSegment { uuid: nw.uuid, ..instance })
                &&& final(self).wires() =~= old(self).wires().push(nw)
                &&& final(self).listeners() =~= spec_send(
                    old(self).listeners(),
                    EventMessageV::AddWire(nw),
                )
            }),
            final(self).wires().len() == old(self).wires().len() ==> final(self).wires() == old(self).wires() && final(self).listeners() == old(self).listeners(),
    {
        let id: Identity = fresh_identity();
        match self.find_wire_index(&id) {
            Some(_) => {
                proof {
                    assert(!id.spec_is_nil());
                }
            },
            None => {
                let mut inst: WireSegment = instance;
                inst.uuid = id;
                proof {
                    assert(forall|q: int|
                        0 <= q < self.wires().len() ==> (#[trigger] self.wires()[q]).uuid != id);
                }
                self.wires.push(inst);
                proof {
                    assert(self.wires() =~= old(self).wires().push(inst));
                }
                self.event_bus.send(&EventMessage::AddWire(inst));
                proof {
                    assert(self.components() == old(self).components());
                }
            },
        }
    }

    /// Replace the stored wire that carries the given wire's identity: the
    /// old entry is swap-removed, the new one appended, and one UpdateWire
    /// notification emitted. An unknown identity is a recoverable NotFound
    /// error, with nothing changed or emitted.
    pub fn update_wire(&mut self, ws: WireSegment) -> (r: Result<(), SchemaError>)
        requires
            old(self).wf(),
        ensures
            final(self).wf(),
            has_wire_id(old(self).wires(), ws.uuid) ==> r is Ok && final(self).wires()
                =~= old(self).wires().update(
                wire_index(old(self).wires(), ws.uuid),
                old(self).wires().last(),
            ).drop_last().push(ws) && final(self).components() == old(self).components() && final(self).listeners() =~= spec_send(old(self).listeners(), EventMessageV::UpdateWire(ws)),
            !has_wire_id(old(self).wires(), ws.uuid) ==> r == Result::<
                (),
                SchemaError,
            >::Err(SchemaError::NotFound) && final(self).wires() == old(self).wires() && final(self).components() == old(self).components() && final(self).listeners() == old(self).listeners(),
    {
        match self.find_wire_index(&ws.uuid) {
            None => Err(SchemaError::NotFound),
            Some(i) => {
                proof {
                    let idx = wire_index(self.wires(), ws.uuid);
                    assert(self.wires()[i as int].uuid == ws.uuid);
                    assert(0 <= idx < self.wires().len() && self.wires()[idx].uuid == ws.uuid);
                    assert(idx == i as int);
                }
                let ghost ow = self.wires();
                let _old_wire: WireSegment = self.wires.swap_remove(i);
                proof {
                    let mid = ow.update(i as int, ow.last()).drop_last();
                    assert(self.wires() =~= mid);
                    assert(forall|q: int|
                        0 <= q < mid.len() ==> #[trigger] mid[q] == (if q == i as int {
                            ow.last()
                        } else {
                            ow[q]
                        }));
                    assert(forall|q: int| 0 <= q < mid.len() ==> (#[trigger] mid[q]).uuid != ws.uuid);
                    assert(forall|a: int, b: int|
                        0 <= a < b < mid.len() ==> (#[trigger] mid[a]).uuid != (
                        #[trigger] mid[b]).uuid);
                    assert(forall|q: int|
                        0 <= q < mid.len() ==> !(#[trigger] mid[q]).uuid.spec_is_nil());
                    assert(!ws.uuid.spec_is_nil());
                }
                self.wires.push(ws);
                proof {
                    assert(self.wires() =~= ow.update(i as int, ow.last()).drop_last().push(ws));
                }
                self.event_bus.send(&EventMessage::UpdateWire(ws));
                Ok(())
            },
        }
    }

    /// Compose the stored rotation of the identified instance with a fixed
    /// quarter turn (never replace it), and emit one UpdateComponent
    /// notification carrying the rotated snapshot.
    pub fn rotate_component(&mut self, component_uuid: &Identity)
        requires
            old(self).wf(),
            has_comp_id(old(self).components(), *component_uuid),
        ensures
            final(self).wf(),
            final(self).components() =~= old(self).components().update(
                comp_index(old(self).components(), *component_uuid),
                rotated_instance(
                    old(self).components()[comp_index(old(self).components(), *component_uuid)],
                ),
            ),
            final(self).wires() == old(self).wires(),
            final(self).listeners() =~= spec_send(
                old(self).listeners(),
                EventMessageV::UpdateComponent(
                    rotated_instance(
                        old(self).components()[comp_index(
                            old(self).components(),
                            *component_uuid,
                        )],
                    ),
                ),
            ),
    {
        match self.find_component_index(component_uuid) {
            None => {
                proof {
                    assert(false);
                }
            },
            Some(i) => {
                proof {
                    let idx = comp_index(self.components(), *component_uuid);
                    assert(self.components()[i as int].uuid == *component_uuid);
                    assert(0 <= idx < self.components().len() && self.components()[idx].uuid
                        == *component_uuid);
                    assert(idx == i as int);
                    assert(instance_wf(self.components()[i as int]));
                }
                let rotated: crate::geometry::Matrix4 = self.components[i].rotation.rotated90();
                let updated: ComponentInstance = ComponentInstance {
                    uuid: self.components[i].uuid,
                    name: self.components[i].name.clone(),
                    reference: self.components[i].reference.clone(),
                    position: self.components[i].position,
                    rotation: rotated,
                };
                let snapshot: ComponentInstance = ComponentInstance {
                    uuid: updated.uuid,
                    name: updated.name.clone(),
                    reference: updated.reference.clone(),
                    position: updated.position,
                    rotation: updated.rotation,
                };
                proof {
                    assert(updated@ == rotated_instance(self.components()[i as int]));
                    assert(snapshot@ == updated@);
                    assert(comps_view(self.components@.update(i as int, updated))
                        =~= self.components().update(i as int, updated@));
                }
                self.components.set(i, updated);
                self.event_bus.send(&EventMessage::UpdateComponent(snapshot));
            },
        }
    }

    /// Set the identified instance's position absolutely to the origin plus
    /// `translation` (not a relative move), and emit one UpdateComponent
    /// notification carrying the moved snapshot.
    pub fn move_component(&mut self, component_uuid: &Identity, translation: Vector2)
        requires
            old(self).wf(),
            has_comp_id(old(self).components(), *component_uuid),
            coord_ok(translation.x as int),
            coord_ok(translation.y as int),
        ensures
            final(self).wf(),
            final(self).components() =~= old(self).components().update(
                comp_index(old(self).components(), *component_uuid),
                moved_instance(
                    old(self).components()[comp_index(old(self).components(), *component_uuid)],
                    translation,
                ),
            ),
            final(self).wires() == old(self).wires(),
            final(self).listeners() =~= spec_send(
                old(self).listeners(),
                EventMessageV::UpdateComponent(
                    moved_instance(
                        old(self).components()[comp_index(
                            old(self).components(),
                            *component_uuid,
                        )],
                        translation,
                    ),
                ),
            ),
    {
        match self.find_component_index(component_uuid) {
            None => {
                proof {
                    assert(false);
                }
            },
            Some(i) => {
                proof {
                    let idx = comp_index(self.components(), *component_uuid);
                    assert(self.components()[i as int].uuid == *component_uuid);
                    assert(0 <= idx < self.components().len() && self.components()[idx].uuid
                        == *component_uuid);
                    assert(idx == i as int);
                }
                let origin: Point2 = Point2::origin();
                let updated: ComponentInstance = ComponentInstance {
                    uuid: self.components[i].uuid,
                    name: self.components[i].name.clone(),
                    reference: self.components[i].reference.clone(),
                    position: Point2 { x: origin.x + translation.x, y: origin.y + translation.y },
                    rotation: self.components[i].rotation,
                };
                let snapshot: ComponentInstance = ComponentInstance {
                    uuid: updated.uuid,
                    name: updated.name.clone(),
                    reference: updated.reference.clone(),
                    position: updated.position,
                    rotation: updated.rotation,
                };
                proof {
                    assert(updated@ == moved_instance(
                        self.components()[i as int],
                        translation,
                    ));
                    assert(comps_view(self.components@.update(i as int, updated))
                        =~= self.components().update(i as int, updated@));
                }
                self.components.set(i, updated);
                self.event_bus.send(&EventMessage::UpdateComponent(snapshot));
            },
        }
    }

    /// Look an instance up by identity; an unknown identity is a
    /// recoverable NotFound error.
    pub fn get_component_instance(&self, component_uuid: &Identity) -> (r: Result<
        &ComponentInstance,
        SchemaError,
    >)
        requires
            self.wf(),
        ensures
            match r {
                Ok(c) => has_comp_id(self.components(), *component_uuid) && c@
                    == self.components()[comp_index(self.components(), *component_uuid)],
                Err(e) => e == SchemaError::NotFound && !has_comp_id(
                    self.components(),
                    *component_uuid,
                ),
            },
    {
        match self.find_component_index(component_uuid) {
            Some(i) => {
                proof {
                    let idx = comp_index(self.components(), *component_uuid);
                    assert(self.components()[i as int].uuid == *component_uuid);
                    assert(0 <= idx < self.components().len() && self.components()[idx].uuid
                        == *component_uuid);
                    assert(idx == i as int);
                }
                Ok(&self.components[i])
            },
            None => Err(SchemaError::NotFound),
        }
    }

    /// Look a wire up by identity; an unknown identity is a recoverable
    /// NotFound error.
    pub fn get_wire_instance(&self, wire_uuid: Identity) -> (r: Result<&WireSegment, SchemaError>)
        requires
            self.wf(),
        ensures
            match r {
                Ok(w) => has_wire_id(self.wires(), wire_uuid) && *w == self.wires()[wire_index(
                    self.wires(),
                    wire_uuid,
                )],
                Err(e) => e == SchemaError::NotFound && !has_wire_id(self.wires(), wire_uuid),
            },
    {
        match self.find_wire_index(&wire_uuid) {
            Some(i) => {
                proof {
                    let idx = wire_index(self.wires(), wire_uuid);
                    assert(self.wires()[i as int].uuid == wire_uuid);
                    assert(0 <= idx < self.wires().len() && self.wires()[idx].uuid == wire_uuid);
                    assert(idx == i as int);
                }
                Ok(&self.wires[i])
            },
            None => Err(SchemaError::NotFound),
        }
    }

    /// Borrow the identified instance mutably. The caller sees the stored
    /// value and the aggregate afterwards holds whatever the caller leaves
    /// behind; well-formedness must be re-established by preserving the
    /// identity and the coordinate bounds.
    pub fn get_component_instance_mut(&mut self, component_uuid: &Identity) -> (r:
        &mut ComponentInstance)
        requires
            old(self).wf(),
            has_comp_id(old(self).components(), *component_uuid),
        ensures
            (*r)@ == old(self).components()[comp_index(old(self).components(), *component_uuid)],
            final(self).components() =~= old(self).components().update(
                comp_index(old(self).components(), *component_uuid),
                (*final(r))@,
            ),
            final(self).wires() == old(self).wires(),
            final(self).listeners() == old(self).listeners(),
    {
        let i: usize = match self.find_component_index(component_uuid) {
            Some(i) => i,
            None => {
                proof {
                    assert(false);
                }
                0
            },
        };
        proof {
            let idx = comp_index(self.components(), *component_uuid);
            assert(self.components()[i as int].uuid == *component_uuid);
            assert(0 <= idx < self.components().len() && self.components()[idx].uuid
                == *component_uuid);
            assert(idx == i as int);
            assert(comps_view(self.components@.update(
                i as int,
                self.components@[i as int],
            )) =~= self.components());
        }
        &mut self.components[i]
    }

    /// Borrow the identified wire mutably. The caller sees the stored value
    /// and the aggregate afterwards holds whatever the caller leaves behind;
    /// well-formedness must be re-established by preserving the identity.
    pub fn get_wire_instance_mut(&mut self, wire_uuid: Identity) -> (r: &mut WireSegment)
        requires
            old(self).wf(),
            has_wire_id(old(self).wires(), wire_uuid),
        ensures
            *r == old(self).wires()[wire_index(old(self).wires(), wire_uuid)],
            final(self).wires() =~= old(self).wires().update(
                wire_index(old(self).wires(), wire_uuid),
                *final(r),
            ),
            final(self).components() == old(self).components(),
            final(self).listeners() == old(self).listeners(),
    {
        let i: usize = match self.find_wire_index(&wire_uuid) {
            Some(i) => i,
            None => {
                proof {
                    assert(false);
                }
                0
            },
        };
        proof {
            let idx = wire_index(self.wires(), wire_uuid);
            assert(self.wires()[i as int].uuid == wire_uuid);
            assert(0 <= idx < self.wires().len() && self.wires()[idx].uuid == wire_uuid);
            assert(idx == i as int);
        }
        &mut self.wires[i]
    }

    /// The number of stored instances.
    pub fn components_len(&self) -> (n: usize)
        ensures
            n == self.components().len(),
    {
        self.components.len()
    }

    /// The number of stored wires.
    pub fn wires_len(&self) -> (n: usize)
        ensures
            n == self.wires().len(),
    {
        self.wires.len()
    }

    /// Borrow the stored instance at an index.
    pub fn component_at(&self, i: usize) -> (r: &ComponentInstance)
        requires
            i < self.components().len(),
        ensures
            r@ == self.components()[i as int],
    {
        &self.components[i]
    }

    /// Borrow the stored wire at an index.
    pub fn wire_at(&self, i: usize) -> (r: &WireSegment)
        requires
            i < self.wires().len(),
        ensures
            *r == self.wires()[i as int],
    {
        &self.wires[i]
    }


    /// Insert the given instances in order, each with a fresh identity and
    /// its own notification. Returns false if an insertion did not land
    /// (which takes a repeated random identity).
    fn append_components(&mut self, comps: Vec<ComponentInstance>) -> (ok: bool)
        requires
            old(self).wf(),
            all_instances_wf(comps_view(comps@)),
        ensures
            final(self).wf(),
            final(self).wires() == old(self).wires(),
            old(self).components().len() <= final(self).components().len(),
            final(self).components().len() - old(self).components().len() <= comps_view(comps@).len(),
            final(self).components().subrange(0, old(self).components().len() as int) == old(self).components(),
            components_match(
                final(self).components().subrange(
                    old(self).components().len() as int,
                    final(self).components().len() as int,
                ),
                comps_view(comps@).subrange(
                    0,
                    final(self).components().len() - old(self).components().len(),
                ),
            ),
            ok <==> final(self).components().len() - old(self).components().len() == comps_view(comps@).len(),
            comps@.len() == 0 ==> ok,
    {
        let ghost parsed = comps_view(comps@);
        let ghost old_len = self.components().len() as int;
        let ghost total = comps@.len() as int;
        let mut rem: Vec<ComponentInstance> = comps;
        proof {
            assert(comps_view(rem@) =~= parsed.subrange(total - rem@.len(), total));
            assert(self.components().subrange(0, old_len) =~= self.components());
            assert(self.components().subrange(old_len, self.components().len() as int)
                =~= Seq::<ComponentInstanceV>::empty());
            assert(parsed.subrange(0, 0) =~= Seq::<ComponentInstanceV>::empty());
        }
        while rem.len() > 0
            invariant
                self.wf(),
                self.wires() == old(self).wires(),
                old_len == old(self).components().len(),
                parsed == comps_view(comps@),
                total == parsed.len(),
                rem@.len() <= total,
                all_instances_wf(parsed),
                comps_view(rem@) == parsed.subrange(total - rem@.len(), total),
                self.components().len() == old_len + (total - rem@.len()),
                self.components().subrange(0, old_len) == old(self).components(),
                components_match(
                    self.components().subrange(old_len, self.components().len() as int),
                    parsed.subrange(0, total - rem@.len()),
                ),
            decreases rem@.len(),
        {
            let ghost k = total - rem@.len();
            let ghost pre = self.components();
            let ghost before_removal = rem@;
            let inst: ComponentInstance = rem.remove(0);
            proof {
                assert(comps_view(before_removal)[0] == before_removal[0]@);
                assert(inst@ == parsed[k]);
                assert(instance_wf(inst@));
                assert(forall|m: int|
                    0 <= m < rem@.len() ==> #[trigger] rem@[m] == before_removal[m + 1]);
                assert(comps_view(rem@) =~= parsed.subrange(k + 1, total)) by {
                    assert(forall|m: int|
                        0 <= m < rem@.len() ==> #[trigger] comps_view(rem@)[m] == comps_view(
                            before_removal,
                        )[m + 1]);
                }
            }
            let id: Identity = match self.add_component(inst) {
                Some(id) => id,
                None => {
                    proof {
                        assert(self.components().len() == old_len + k);
                        assert(self.components().subrange(
                            old_len,
                            self.components().len() as int,
                        ) == self.components().subrange(old_len, old_len + k));
                        assert(parsed.subrange(0, k) == parsed.subrange(
                            0,
                            self.components().len() - old_len,
                        ));
                        assert(self.components().len() - old_len < total);
                    }
                    return false;
                },
            };
            proof {
                assert(self.components() =~= pre.push(with_id(parsed[k], id)));
                assert(self.components().subrange(0, old_len) =~= pre.subrange(0, old_len));
                assert(self.components().subrange(old_len, self.components().len() as int)
                    =~= pre.subrange(old_len, pre.len() as int).push(with_id(parsed[k], id)));
                assert(parsed.subrange(0, k + 1) =~= parsed.subrange(0, k).push(parsed[k]));
            }
        }
        proof {
            assert(parsed.subrange(0, total) =~= parsed);
        }
        true
    }

    /// Insert the given wire segments in order, each with a fresh identity
    /// and its own notification. Returns false if an insertion did not land.
    fn append_wires(&mut self, wires: Vec<WireSegment>) -> (ok: bool)
        requires
            old(self).wf(),
        ensures
            final(self).wf(),
            final(self).components() == old(self).components(),
            old(self).wires().len() <= final(self).wires().len(),
            final(self).wires().len() - old(self).wires().len() <= wires@.len(),
            final(self).wires().subrange(0, old(self).wires().len() as int) == old(self).wires(),
            wires_match(
                final(self).wires().subrange(
                    old(self).wires().len() as int,
                    final(self).wires().len() as int,
                ),
                wires@.subrange(0, final(self).wires().len() - old(self).wires().len()),
            ),
            ok <==> final(self).wires().len() - old(self).wires().len() == wires@.len(),
            wires@.len() == 0 ==> ok,
    {
        let ghost parsed_w = wires@;
        let ghost old_wlen = self.wires().len() as int;
        let ghost wtotal = wires@.len() as int;
        proof {
            assert(self.wires().subrange(0, old_wlen) =~= self.wires());
            assert(self.wires().subrange(old_wlen, self.wires().len() as int)
                =~= Seq::<WireSegment>::empty());
            assert(parsed_w.subrange(0, 0) =~= Seq::<WireSegment>::empty());
        }
        let mut wi: usize = 0;
        while wi < wires.len()
            invariant
                self.wf(),
                0 <= wi <= wires@.len(),
                wires@ == parsed_w,
                wtotal == parsed_w.len(),
                old_wlen == old(self).wires().len(),
                self.components() == old(self).components(),
                self.wires().len() == old_wlen + wi,
                self.wires().subrange(0, old_wlen) == old(self).wires(),
                wires_match(
                    self.wires().subrange(old_wlen, self.wires().len() as int),
                    parsed_w.subrange(0, wi as int),
                ),
            decreases wires@.len() - wi,
        {
            let ghost prew = self.wires();
            let w: WireSegment = wires[wi];
            let before: usize = self.wires_len();
            self.add_wire(w);
            if self.wires_len() == before {
                proof {
                    assert(self.wires().subrange(old_wlen, self.wires().len() as int)
                        == self.wires().subrange(old_wlen, old_wlen + wi));
                    assert(parsed_w.subrange(0, wi as int) == parsed_w.subrange(
                        0,
                        self.wires().len() - old_wlen,
                    ));
                    assert(self.wires().len() - old_wlen < wtotal);
                }
                return false;
            }
            proof {
                let nw = self.wires().last();
                assert(prew.len() == old_wlen + wi);
                assert(self.wires() =~= prew.push(nw));
                assert(nw == (WireSegment { uuid: nw.uuid, ..w }));
                assert(!nw.uuid.spec_is_nil());
                assert(self.wires().subrange(0, old_wlen) =~= prew.subrange(0, old_wlen));
                assert(self.wires().subrange(old_wlen, self.wires().len() as int)
                    =~= prew.subrange(old_wlen, prew.len() as int).push(nw));
                assert(parsed_w.subrange(0, wi + 1) =~= parsed_w.subrange(0, wi as int).push(
                    parsed_w[wi as int],
                ));
            }
            wi = wi + 1;
        }
        proof {
            assert(parsed_w.subrange(0, wtotal) =~= parsed_w);
        }
        true
    }

    /// Populate the schema from the bytes of a schematic file: decode the
    /// whole file, then insert every component instance and wire segment in
    /// file order; each insertion assigns a fresh identity and emits its own
    /// notification. Returns false and changes nothing when the input does
    /// not match the grammar; a parseable file with no components and no
    /// wires always loads. Should the random identity source ever repeat an
    /// identity, the load stops and reports false, and what was inserted up
    /// to that point matches a prefix of the parsed entities, the earlier
    /// contents untouched.
    pub fn load(&mut self, input: &[u8]) -> (ok: bool)
        requires
            old(self).wf(),
        ensures
            final(self).wf(),
            sp_schema_file(input@) is None ==> !ok && final(self).components() == old(self).components() && final(self).wires() == old(self).wires() && final(self).listeners()
                == old(self).listeners(),
            sp_schema_file(input@) matches Some(es) && components_of(es).len() == 0 && wires_of(es).len() == 0 ==> ok,
            !ok ==> (sp_schema_file(input@) is None || (sp_schema_file(input@) matches Some(es)
                && ({
                let oldn = old(self).components().len() as int;
                let oldw = old(self).wires().len() as int;
                &&& oldn <= final(self).components().len()
                &&& final(self).components().len() - oldn <= components_of(es).len()
                &&& final(self).components().subrange(0, oldn) == old(self).components()
                &&& components_match(
                    final(self).components().subrange(
                        oldn,
                        final(self).components().len() as int,
                    ),
                    components_of(es).subrange(0, final(self).components().len() - oldn),
                )
                &&& oldw <= final(self).wires().len()
                &&& final(self).wires().len() - oldw <= wires_of(es).len()
                &&& final(self).wires().subrange(0, oldw) == old(self).wires()
                &&& wires_match(
                    final(self).wires().subrange(oldw, final(self).wires().len() as int),
                    wires_of(es).subrange(0, final(self).wires().len() - oldw),
                )
            }))),
            ok ==> (sp_schema_file(input@) matches Some(es) && (final(self).components().subrange(
                0,
                old(self).components().len() as int,
            ) == old(self).components() && components_match(
                final(self).components().subrange(
                    old(self).components().len() as int,
                    final(self).components().len() as int,
                ),
                components_of(es),
            ) && final(self).wires().subrange(0, old(self).wires().len() as int) == old(self).wires() && wires_match(
                final(self).wires().subrange(
                    old(self).wires().len() as int,
                    final(self).wires().len() as int,
                ),
                wires_of(es),
            ))),
    {
        let file: SchemaFile = match SchemaFile::parse(input) {
            Some(f) => f,
            None => {
                return false;
            },
        };
        proof {
            lemma_parsed_schema_wf(input@);
        }
        let ghost es = sp_schema_file(input@).unwrap();
        let ghost parsed_c = comps_view(file.components@);
        let ghost parsed_w = file.wires@;
        let ghost mid_wires = self.wires();
        if !self.append_components(file.components) {
            proof {
                assert(self.wires().subrange(0, old(self).wires().len() as int)
                    =~= old(self).wires());
                assert(self.wires().subrange(
                    old(self).wires().len() as int,
                    self.wires().len() as int,
                ) =~= Seq::<WireSegment>::empty());
                assert(wires_of(es).subrange(0, 0) =~= Seq::<WireSegment>::empty());
            }
            return false;
        }
        if !self.append_wires(file.wires) {
            proof {
                assert(parsed_c.subrange(0, parsed_c.len() as int) =~= parsed_c);
            }
            return false;
        }
        proof {
            assert(parsed_c.subrange(0, parsed_c.len() as int) =~= parsed_c);
            assert(parsed_w.subrange(0, parsed_w.len() as int) =~= parsed_w);
        }
        true
    }

    /// The bounding box containing the boxes of all stored instances whose
    /// library name resolves: exactly the union of those boxes. Instances
    /// with an unknown name are silently skipped; when no instance resolves
    /// (in particular over an empty set) the degenerate box at the origin is
    /// reported.
    pub fn get_bounding_box(&self, libraries: &ComponentLibraries) -> (r: AABB)
        requires
            self.wf(),
            libs_wf(libraries@),
        ensures
            r == spec_schema_bbox_or_origin(self.components(), libraries@),
            self.components().len() == 0 ==> r == origin_box(),
    {
        let mut acc: Option<AABB> = None;
        let mut i: usize = 0;
        proof {
            assert(self.components().subrange(0, 0) =~= Seq::<ComponentInstanceV>::empty());
        }
        while i < self.components.len()
            invariant
                0 <= i <= self.components@.len(),
                self.wf(),
                libs_wf(libraries@),
                ({
                    match acc {
                        Some(b) => spec_schema_bbox(
                            self.components().subrange(0, i as int),
                            libraries@,
                        ) == Some(b),
                        None => spec_schema_bbox(
                            self.components().subrange(0, i as int),
                            libraries@,
                        ) is None,
                    }
                }),
            decreases self.components@.len() - i,
        {
            let instance: &ComponentInstance = &self.components[i];
            proof {
                assert(instance_wf(self.components()[i as int]));
                lemma_find_by_name_wf(libraries@, instance.name@);
                assert(self.components().subrange(0, i + 1).drop_last()
                    =~= self.components().subrange(0, i as int));
                assert(self.components().subrange(0, i + 1).last() == self.components()[i as int]);
            }
            match libraries.get_component_by_name(&instance.name) {
                Some(component) => {
                    proof {
                        assert(instance@ == self.components()[i as int]);
                        assert(find_by_name(libraries@, instance.name@) == Some(component@));
                        assert(elems_wf(component@.elements));
                    }
                    let bb: AABB = instance.get_boundingbox(component);
                    match acc {
                        Some(prev) => {
                            let mut merged: AABB = prev;
                            merged.merge(&bb);
                            acc = Some(merged);
                        },
                        None => {
                            acc = Some(bb);
                        },
                    }
                },
                None => {},
            }
            i = i + 1;
        }
        proof {
            assert(self.components().subrange(0, self.components().len() as int)
                =~= self.components());
        }
        match acc {
            Some(b) => b,
            None => AABB::new(Point2::new(0, 0), Point2::new(0, 0)),
        }
    }
}

/// Over an empty instance set the schema bounding box is the degenerate box
/// at the origin.
pub proof fn lemma_schema_bbox_empty(ls: Seq<ComponentLibraryV>)
    ensures
        spec_schema_bbox_or_origin(Seq::<ComponentInstanceV>::empty(), ls) == origin_box(),
{
}

/// Over a single known instance the schema bounding box equals that
/// instance's own rotated and translated box, wherever it lies.
pub proof fn lemma_schema_bbox_single(c: ComponentInstanceV, ls: Seq<ComponentLibraryV>)
    requires
        find_by_name(ls, c.name) is Some,
    ensures
        spec_schema_bbox_or_origin(seq![c], ls) == instance_bbox(
            find_by_name(ls, c.name).unwrap().elements,
            c,
        ),
{
    let one = seq![c];
    assert(one.len() == 1);
    assert(one.drop_last() =~= Seq::<ComponentInstanceV>::empty());
    assert(one.last() == c);
    assert(spec_schema_bbox(one.drop_last(), ls) is None);
}

/// Rotating an instance four times returns it to its starting state: the
/// quarter turns compose, they do not replace one another.
pub proof fn lemma_rotate_four_times(c: ComponentInstanceV)
    requires
        rotatable(c.rotation),
    ensures
        rotated_instance(rotated_instance(rotated_instance(rotated_instance(c)))) == c,
{
    crate::geometry::lemma_four_quarter_turns(c.rotation);
}

} // verus!
