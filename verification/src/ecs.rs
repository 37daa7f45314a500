use std::any::TypeId;
use vstd::prelude::*;

verus! {

/// Identifier of an entity. Identifiers are handed out from 1 upwards; 0 names no entity.
pub type EID = u64;

/// A kind of component that an entity may carry; each kind knows how to make a fresh value.
pub trait Component: Sized {
    fn new() -> Self;
}

/// The storage of one kind of component, kept behind a trait object in the registry.
pub trait Storage {
}

/// The values of one component kind, in the order in which they were added.
pub struct ComponentStorage<T: Component> {
    components: Vec<T>,
}

impl<T: Component> ComponentStorage<T> {
    /// The stored components, oldest first.
    pub closed spec fn view(&self) -> Seq<T> {
        self.components@
    }

    /// An empty storage.
    pub fn new() -> (s: ComponentStorage<T>)
        ensures
            s@ == Seq::<T>::empty(),
    {
        let components = Vec::new();
        ComponentStorage { components }
    }

    /// Appends one component made by `T::new`; what was stored before stays in place.
    pub fn add(&mut self)
        ensures
            final(self)@.len() == old(self)@.len() + 1,
            final(self)@.subrange(0, old(self)@.len() as int) == old(self)@,
            call_ensures(T::new, (), final(self)@.last()),
    {
        let c = T::new();
        self.components.push(c);
    }

    /// How many components are stored.
    pub fn len(&self) -> (n: usize)
        ensures
            n == self@.len(),
    {
        self.components.len()
    }
}

impl<T: 'static + Component> Storage for ComponentStorage<T> {
}

#[verifier::external_type_specification]
#[verifier::external_body]
pub struct ExTypeId(TypeId);

/// Calls `std::any::TypeId::of::<T>()`. Nothing is claimed of the identifier it gives.
#[verifier::external_body]
fn type_id_of<T: ?Sized + 'static>() -> TypeId {
    TypeId::of::<T>()
}

/// Calls `<TypeId as PartialEq>::eq`. Claims that two type identifiers compare equal
/// exactly when they are the same value.
#[verifier::external_body]
fn type_ids_equal(a: &TypeId, b: &TypeId) -> (r: bool)
    ensures
        r == (*a == *b),
{
    *a == *b
}

/// The component kinds that are registered after registering `t` on top of `types`:
/// unchanged when `t` is already there, else `t` appended.
pub open spec fn registered_after(types: Seq<TypeId>, t: TypeId) -> Seq<TypeId> {
    if types.contains(t) {
        types
    } else {
        types.push(t)
    }
}

/// One registered component kind and its storage.
pub struct ComponentSlot {
    type_id: TypeId,
    storage: Box<dyn Storage>,
}

impl ComponentSlot {
    /// The component kind this slot stores.
    pub closed spec fn kind(&self) -> TypeId {
        self.type_id
    }
}

/// The kinds of a sequence of slots, in order.
pub open spec fn kinds_of(slots: Seq<ComponentSlot>) -> Seq<TypeId> {
    slots.map_values(|s: ComponentSlot| s.kind())
}

/// How registering the kind `t` turns the slots `before` into `after`: when `t` is there
/// already every slot, its storage included, stays as it was; otherwise every slot stays in
/// its place and one slot for `t` is appended.
pub open spec fn slots_after_registering(
    before: Seq<ComponentSlot>,
    after: Seq<ComponentSlot>,
    t: TypeId,
) -> bool {
    if kinds_of(before).contains(t) {
        after == before
    } else {
        &&& after.len() == before.len() + 1
        &&& after.subrange(0, before.len() as int) == before
        &&& after[before.len() as int].kind() == t
    }
}

/// Appending a slot appends its kind.
proof fn lemma_kinds_of_push(slots: Seq<ComponentSlot>, slot: ComponentSlot)
    ensures
        kinds_of(slots.push(slot)) == kinds_of(slots).push(slot.kind()),
{
    assert(kinds_of(slots.push(slot)) =~= kinds_of(slots).push(slot.kind()));
}

/// The entity-component-system registry: the entities created so far, the next identifier
/// to hand out, and one storage per registered component kind.
pub struct ECS {
    entities: Vec<EID>,
    next_free_eid: EID,
    components_store: Vec<ComponentSlot>,
}

impl ECS {
    /// The entities created so far, in order of creation.
    pub closed spec fn entity_ids(&self) -> Seq<EID> {
        self.entities@
    }

    /// The identifier that the next created entity gets.
    pub closed spec fn next_free_id(&self) -> EID {
        self.next_free_eid
    }

    /// The slots of the registered component kinds, each with its storage, in order of
    /// registration.
    pub closed spec fn slots(&self) -> Seq<ComponentSlot> {
        self.components_store@
    }

    /// The registered component kinds, in order of registration.
    pub open spec fn component_types(&self) -> Seq<TypeId> {
        kinds_of(self.slots())
    }

    /// The entities are exactly 1, 2, ... up to the one before the next free identifier, in
    /// order; no component kind is registered twice.
    #[verifier::type_invariant]
    pub closed spec fn wf(&self) -> bool {
        &&& 1 <= self.next_free_eid
        &&& self.entities@.len() == self.next_free_eid - 1
        &&& forall|i: int| 0 <= i < self.entities@.len() ==> #[trigger] self.entities@[i] == i + 1
        &&& kinds_of(self.components_store@).no_duplicates()
    }

    /// An empty registry whose first entity will be 1.
    pub fn new() -> (e: ECS)
        ensures
            e.entity_ids() == Seq::<EID>::empty(),
            e.next_free_id() == 1,
            e.slots() == Seq::<ComponentSlot>::empty(),
            e.component_types() == Seq::<TypeId>::empty(),
    {
        let storages: Vec<ComponentSlot> = Vec::new();
        let entities: Vec<EID> = Vec::new();
        let next_free_eid: EID = 1;
        proof {
            assert(kinds_of(storages@) =~= Seq::<TypeId>::empty());
        }
        let e = ECS { entities: entities, components_store: storages, next_free_eid: next_free_eid };
        e
    }

    /// The position of `t` among the registered kinds, if it is registered.
    fn find_component_type(&self, t: &TypeId) -> (r: Option<usize>)
        ensures
            match r {
                Some(i) => i < self.component_types().len() && self.component_types()[i as int]
                    == *t,
                None => !self.component_types().contains(*t),
            },
    {
        let n: usize = self.components_store.len();
        let mut i: usize = 0;
        while i < n
            invariant
                n == self.components_store@.len(),
                i <= n,
                forall|j: int| 0 <= j < i ==> self.component_types()[j] != *t,
            decreases n - i,
        {
            if type_ids_equal(&self.components_store[i].type_id, t) {
                return Some(i);
            }
            i = i + 1;
        }
        None
    }

    /// Appends a slot for a kind that is not registered yet.
    fn push_slot(&mut self, slot: ComponentSlot)
        requires
            !old(self).component_types().contains(slot.kind()),
        ensures
            final(self).slots() == old(self).slots().push(slot),
            final(self).component_types() == old(self).component_types().push(slot.kind()),
            slots_after_registering(old(self).slots(), final(self).slots(), slot.kind()),
            final(self).entity_ids() == old(self).entity_ids(),
            final(self).next_free_id() == old(self).next_free_id(),
    {
        proof {
            use_type_invariant(&*self);
            let before = kinds_of(self.components_store@);
            let t = slot.kind();
            lemma_kinds_of_push(self.components_store@, slot);
            let after = before.push(t);
            assert forall|i: int, j: int|
                0 <= i < after.len() && 0 <= j < after.len() && i != j implies after[i]
                != after[j] by {
                if i < before.len() && j < before.len() {
                } else if i < before.len() {
                    assert(before.contains(before[i]));
                } else {
                    assert(before.contains(before[j]));
                }
            }
            assert(kinds_of(self.components_store@.push(slot)).no_duplicates());
        }
        let mut taken = ECS::new();
        std::mem::swap(self, &mut taken);
        proof {
            use_type_invariant(&taken);
        }
        let ECS { entities, next_free_eid, mut components_store } = taken;
        let ghost before = components_store@;
        let ghost pushed = slot;
        components_store.push(slot);
        *self = ECS { entities, next_free_eid, components_store };
        proof {
            lemma_kinds_of_push(before, pushed);
            assert(self.slots().subrange(0, before.len() as int) =~= before);
        }
    }

    /// Whether the component kind `t` is registered.
    pub fn is_component_registered(&self, t: &TypeId) -> (r: bool)
        ensures
            r == self.component_types().contains(*t),
    {
        match self.find_component_type(t) {
            Some(_) => true,
            None => false,
        }
    }

    /// How many component kinds are registered.
    pub fn component_type_count(&self) -> (n: usize)
        ensures
            n == self.component_types().len(),
    {
        self.components_store.len()
    }

    /// Registers the component kind `t`, stored as values of `T`, unless `t` is registered
    /// already. Returns whether it was newly registered. A kind registered already keeps its
    /// storage; every other slot stays in its place; entities are not touched.
    pub fn register_component_with_id<T: 'static + Component>(&mut self, t: TypeId) -> (added: bool)
        ensures
            added == !old(self).component_types().contains(t),
            final(self).component_types() == registered_after(old(self).component_types(), t),
            slots_after_registering(old(self).slots(), final(self).slots(), t),
            final(self).entity_ids() == old(self).entity_ids(),
            final(self).next_free_id() == old(self).next_free_id(),
    {
        match self.find_component_type(&t) {
            Some(_) => false,
            None => {
                let storage: Box<dyn Storage> = Box::new(ComponentStorage::<T>::new());
                let slot = ComponentSlot { type_id: t, storage };
                self.push_slot(slot);
                true
            },
        }
    }

    /// Registers the component kind `T` unless it is registered already, and returns whether
    /// it was newly registered. Whatever identifier `TypeId::of::<T>()` gives, the registry
    /// grows by a slot for that identifier exactly when it was absent; a kind registered
    /// already keeps its storage. Entities are not touched.
    pub fn register_component<T: 'static + Component>(&mut self) -> (added: bool)
        ensures
            exists|t: TypeId|
                {
                    &&& added == !old(self).component_types().contains(t)
                    &&& final(self).component_types() == registered_after(
                        old(self).component_types(),
                        t,
                    )
                    &&& slots_after_registering(old(self).slots(), final(self).slots(), t)
                },
            final(self).entity_ids() == old(self).entity_ids(),
            final(self).next_free_id() == old(self).next_free_id(),
    {
        let t = type_id_of::<T>();
        self.register_component_with_id::<T>(t)
    }

    /// Creates an entity with the next free identifier and returns that identifier: the
    /// first entity created gets 1, the second 2, and so on. Component storages are kept.
    pub fn create_entity(&mut self) -> (eid: EID)
        requires
            old(self).next_free_id() < u64::MAX,
        ensures
            eid == old(self).next_free_id(),
            eid == old(self).entity_ids().len() + 1,
            !old(self).entity_ids().contains(eid),
            final(self).entity_ids() == old(self).entity_ids().push(eid),
            final(self).next_free_id() == old(self).next_free_id() + 1,
            final(self).slots() == old(self).slots(),
    {
        proof {
            use_type_invariant(&*self);
        }
        let mut taken = ECS::new();
        std::mem::swap(self, &mut taken);
        proof {
            use_type_invariant(&taken);
        }
        let ECS { mut entities, next_free_eid, components_store } = taken;
        let new_eid: EID = next_free_eid;
        entities.push(new_eid);
        *self = ECS { entities, next_free_eid: new_eid + 1, components_store };
        new_eid
    }

    /// The entities created so far, in order of creation.
    pub fn entities(&self) -> (r: &[EID])
        ensures
            r@ == self.entity_ids(),
    {
        self.entities.as_slice()
    }

    /// The identifier that the next created entity gets.
    pub fn next_free_eid(&self) -> (r: EID)
        ensures
            r == self.next_free_id(),
    {
        self.next_free_eid
    }

    /// Looks up the component of kind `T` of an entity; the lookup is not implemented yet,
    /// so it reads nothing and gives nothing back.
    pub fn get_component<T: Component>(&self, _eid: EID) {
    }

    /// Removes the component of kind `T` from an entity; the removal is not implemented yet,
    /// so the registry is left as it was.
    pub fn remove_component<T: Component>(&mut self, _eid: EID)
        ensures
            *final(self) == *old(self),
    {
    }
}

/// The entities of a registry are 1, 2, ..., n in creation order, and the next identifier
/// handed out is n + 1: after n creations from a new registry, the k-th entity is k.
pub proof fn lemma_entity_ids_sequential(e: &ECS)
    requires
        e.wf(),
    ensures
        e.next_free_id() == e.entity_ids().len() + 1,
        forall|k: int| 0 <= k < e.entity_ids().len() ==> #[trigger] e.entity_ids()[k] == k + 1,
{
}

/// No identifier is handed out twice: the entities of a registry are distinct, and none of
/// them is 0.
pub proof fn lemma_entity_ids_distinct(e: &ECS)
    requires
        e.wf(),
    ensures
        e.entity_ids().no_duplicates(),
        !e.entity_ids().contains(0),
{
    assert forall|i: int, j: int|
        0 <= i < e.entity_ids().len() && 0 <= j < e.entity_ids().len() && i != j implies e.entity_ids()[i]
        != e.entity_ids()[j] by {
        assert(e.entity_ids()[i] == i + 1);
        assert(e.entity_ids()[j] == j + 1);
    }
    if e.entity_ids().contains(0) {
        let k = choose|k: int| 0 <= k < e.entity_ids().len() && e.entity_ids()[k] == 0;
        assert(e.entity_ids()[k] == k + 1);
    }
}

/// Registering the same component kind twice leaves the registry as registering it once.
pub proof fn lemma_registration_idempotent(types: Seq<TypeId>, t: TypeId)
    ensures
        registered_after(registered_after(types, t), t) == registered_after(types, t),
        registered_after(types, t).contains(t),
{
    if !types.contains(t) {
        assert(types.push(t)[types.len() as int] == t);
    }
}

/// A second registration of the same kind leaves every slot, storages included, as the
/// first registration left them.
pub proof fn lemma_second_registration_keeps_slots(
    first: Seq<ComponentSlot>,
    second: Seq<ComponentSlot>,
    third: Seq<ComponentSlot>,
    t: TypeId,
)
    requires
        slots_after_registering(first, second, t),
        slots_after_registering(second, third, t),
    ensures
        third == second,
{
    if !kinds_of(first).contains(t) {
        assert(kinds_of(second)[first.len() as int] == t);
    }
}

/// Registering keeps every kind registered before, in its place.
pub proof fn lemma_registration_keeps_earlier(types: Seq<TypeId>, t: TypeId)
    ensures
        registered_after(types, t).subrange(0, types.len() as int) == types,
{
    assert(registered_after(types, t).subrange(0, types.len() as int) =~= types);
}

/// Registering two kinds in either order registers the same kinds, and keeps every kind
/// registered before in its place.
pub proof fn lemma_registration_order(types: Seq<TypeId>, t: TypeId, u: TypeId)
    ensures
        registered_after(registered_after(types, t), u).to_set() == registered_after(
            registered_after(types, u),
            t,
        ).to_set(),
        registered_after(registered_after(types, t), u).subrange(0, types.len() as int) == types,
        registered_after(registered_after(types, u), t).subrange(0, types.len() as int) == types,
{
    let a = registered_after(registered_after(types, t), u);
    let b = registered_after(registered_after(types, u), t);
    lemma_registration_keeps_earlier(types, t);
    lemma_registration_keeps_earlier(registered_after(types, t), u);
    lemma_registration_keeps_earlier(types, u);
    lemma_registration_keeps_earlier(registered_after(types, u), t);
    assert(a.subrange(0, types.len() as int) =~= types);
    assert(b.subrange(0, types.len() as int) =~= types);
    assert forall|x: TypeId| a.contains(x) <==> (types.contains(x) || x == t || x == u) by {
        lemma_registration_idempotent(types, t);
        lemma_registration_idempotent(registered_after(types, t), u);
        if a.contains(x) {
            let k = choose|k: int| 0 <= k < a.len() && a[k] == x;
            if k < types.len() {
                assert(a.subrange(0, types.len() as int)[k] == x);
            }
        }
        if types.contains(x) {
            let k = choose|k: int| 0 <= k < types.len() && types[k] == x;
            assert(a.subrange(0, types.len() as int)[k] == x);
            assert(a[k] == x);
        }
        if x == t && !a.contains(x) {
            let r = registered_after(types, t);
            let k = choose|k: int| 0 <= k < r.len() && r[k] == t;
            assert(registered_after(r, u).subrange(0, r.len() as int) == r);
            assert(a.subrange(0, r.len() as int)[k] == t);
        }
    }
    assert forall|x: TypeId| b.contains(x) <==> (types.contains(x) || x == t || x == u) by {
        lemma_registration_idempotent(types, u);
        lemma_registration_idempotent(registered_after(types, u), t);
        if b.contains(x) {
            let k = choose|k: int| 0 <= k < b.len() && b[k] == x;
            if k < types.len() {
                assert(b.subrange(0, types.len() as int)[k] == x);
            }
        }
        if types.contains(x) {
            let k = choose|k: int| 0 <= k < types.len() && types[k] == x;
            assert(b.subrange(0, types.len() as int)[k] == x);
            assert(b[k] == x);
        }
        if x == u && !b.contains(x) {
            let r = registered_after(types, u);
            let k = choose|k: int| 0 <= k < r.len() && r[k] == u;
            assert(registered_after(r, t).subrange(0, r.len() as int) == r);
            assert(b.subrange(0, r.len() as int)[k] == u);
        }
    }
    assert(a.to_set() =~= b.to_set());
}

} // verus!
