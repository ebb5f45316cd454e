//! The component contract, the dispatch table built from it, and the host
//! entries that move typed component payloads across the handle boundary.
use vstd::prelude::*;
use crate::handle::{Handle, HandleArena};
use crate::lifecycle::{adopted, copied, released, serialized};
use crate::schema::{ComponentData, ComponentUpdate, Field};

verus! {

/// The integer that names a component type at the host.
pub type ComponentId = u32;

/// The number of a command within a component.
pub type CommandIndex = u32;

/// Host-specific state handed to every entry; zero when unused.
pub type UserData = usize;

/// Which payload kinds a dispatch table serves.
#[derive(PartialEq, Eq, Structural, Clone, Copy, Debug)]
pub enum Capability {
    /// Component data and updates only; the command slots are absent.
    DataUpdate,
    /// Component data, updates, command requests and command responses.
    Full,
}

/// The payload kinds that cross the handle boundary.
#[derive(PartialEq, Eq, Structural, Clone, Copy, Debug)]
pub enum Payload {
    ComponentData,
    ComponentUpdate,
    CommandRequest,
    CommandResponse,
}

/// The table that the host holds for one component identity.
#[derive(PartialEq, Eq, Structural, Clone, Copy, Debug)]
pub struct ComponentVtable {
    pub component_id: ComponentId,
    pub user_data: UserData,
    pub capability: Capability,
}

impl ComponentVtable {
    /// Whether the table's slots for payload kind `p` are live entries.
    pub open spec fn spec_serves(&self, p: Payload) -> bool {
        match p {
            Payload::CommandRequest | Payload::CommandResponse => self.capability == Capability::Full,
            _ => true,
        }
    }

    /// Whether the table's slots for payload kind `p` are live entries; the
    /// host must not invoke an entry whose slot is absent.
    pub fn serves(&self, p: Payload) -> (r: bool)
        ensures
            r == self.spec_serves(p),
    {
        match p {
            Payload::CommandRequest | Payload::CommandResponse => self.capability == Capability::Full,
            _ => true,
        }
    }
}

/// What a strongly typed component supplies so that the host can hold its
/// data and updates behind opaque handles.
///
/// Each spec function carries a closed placeholder body, so that an
/// implementation written in plain Rust compiles; nothing outside this module
/// can see that body, so generic code treats the function as unknown and a
/// verified implementation states its own. The placeholders do not describe
/// an implementation in plain Rust that keeps them: nothing checks such an
/// implementation, and what the library proves holds of it only insofar as it
/// behaves as these contracts say with its real fields in their place.
pub trait Component: Sized {
    /// The whole-lifetime payload of the component.
    type Data;

    /// An incremental change to the component.
    type Update;

    /// The identity of this component type at the host.
    const ID: ComponentId;

    /// The fields that serializing `data` writes.
    closed spec fn data_fields(data: Self::Data) -> Seq<Field> {
        Seq::empty()
    }

    /// The fields that serializing `update` writes.
    closed spec fn update_fields(update: Self::Update) -> Seq<Field> {
        Seq::empty()
    }

    /// `data` is a value that deserializing the fields `source` may give.
    closed spec fn reads_data(source: Seq<Field>, data: Self::Data) -> bool {
        true
    }

    /// `update` is a value that deserializing the fields `source` may give.
    closed spec fn reads_update(source: Seq<Field>, update: Self::Update) -> bool {
        true
    }

    /// The release logic of `component_update_free` has run on `update`,
    /// releasing every resource it owned.
    closed spec fn update_released(update: Self::Update) -> bool {
        true
    }

    fn component_data_deserialize(
        component_id: ComponentId,
        user_data: UserData,
        source: ComponentData,
    ) -> (r: Self::Data)
        requires
            component_id == Self::ID,
        ensures
            Self::reads_data(source@, r),
    ;

    /// Writes `handle`; the borrow is mutable only to let the value buffer.
    fn component_data_serialize(
        component_id: ComponentId,
        user_data: UserData,
        handle: &mut Self::Data,
    ) -> (r: ComponentData)
        requires
            component_id == Self::ID,
        ensures
            r@ == Self::data_fields(*old(handle)),
            Self::data_fields(*final(handle)) == Self::data_fields(*old(handle)),
    ;

    /// An independent duplicate of `handle`.
    fn component_data_copy(
        component_id: ComponentId,
        user_data: UserData,
        handle: &Self::Data,
    ) -> (r: Self::Data)
        requires
            component_id == Self::ID,
        ensures
            Self::data_fields(r) == Self::data_fields(*handle),
    ;

    fn component_update_deserialize(
        component_id: ComponentId,
        user_data: UserData,
        source: ComponentUpdate,
    ) -> (r: Self::Update)
        requires
            component_id == Self::ID,
        ensures
            Self::reads_update(source@, r),
    ;

    /// Writes `handle`; the borrow is mutable only to let the value buffer.
    fn component_update_serialize(
        component_id: ComponentId,
        user_data: UserData,
        handle: &mut Self::Update,
    ) -> (r: ComponentUpdate)
        requires
            component_id == Self::ID,
        ensures
            r@ == Self::update_fields(*old(handle)),
            Self::update_fields(*final(handle)) == Self::update_fields(*old(handle)),
    ;

    /// Releases `handle` and every resource it owns.
    fn component_update_free(component_id: ComponentId, user_data: UserData, handle: Self::Update)
        requires
            component_id == Self::ID,
        ensures
            Self::update_released(handle),
    ;

    /// An independent duplicate of `handle`, freeable on its own.
    fn component_update_copy(
        component_id: ComponentId,
        user_data: UserData,
        handle: &Self::Update,
    ) -> (r: Self::Update)
        requires
            component_id == Self::ID,
        ensures
            Self::update_fields(r) == Self::update_fields(*handle),
    ;

    /// The table for this component: data and update slots live, command
    /// slots absent.
    fn get_vtable() -> (r: ComponentVtable)
        ensures
            r == (ComponentVtable {
                component_id: Self::ID,
                user_data: 0,
                capability: Capability::DataUpdate,
            }),
            r.spec_serves(Payload::ComponentData),
            r.spec_serves(Payload::ComponentUpdate),
            !r.spec_serves(Payload::CommandRequest),
            !r.spec_serves(Payload::CommandResponse),
    {
        ComponentVtable {
            component_id: Self::ID,
            user_data: 0,
            capability: Capability::DataUpdate,
        }
    }
}

/// `T::data_fields` as a function value.
pub open spec fn data_fields_of<T: Component>() -> spec_fn(T::Data) -> Seq<Field> {
    |d: T::Data| T::data_fields(d)
}

/// `T::update_fields` as a function value.
pub open spec fn update_fields_of<T: Component>() -> spec_fn(T::Update) -> Seq<Field> {
    |u: T::Update| T::update_fields(u)
}

/// Deserializes `source` into new component data and hands the host a fresh
/// handle to it through `handle_out`. Returns 1; or 0, with nothing changed,
/// when `heap` has no handle left to mint.
pub fn component_data_deserialize<T: Component>(
    component_id: ComponentId,
    user_data: UserData,
    source: ComponentData,
    heap: &mut HandleArena<T::Data>,
    handle_out: &mut Handle,
) -> (r: u8)
    requires
        component_id == T::ID,
    ensures
        r == 0 || r == 1,
        r == 1 <==> !old(heap).is_exhausted(),
        r == 0 ==> *final(heap) == *old(heap) && *final(handle_out) == *old(handle_out),
        r == 1 ==> {
            &&& adopted(old(heap)@, final(heap)@, *final(handle_out))
            &&& T::reads_data(source@, final(heap)@[*final(handle_out)])
            &&& final(heap).minted() == old(heap).minted() + 1
        },
{
    if heap.exhausted() {
        return 0;
    }
    let data = T::component_data_deserialize(component_id, user_data, source);
    match heap.insert(data) {
        Some(h) => {
            *handle_out = h;
            1
        },
        None => 0,
    }
}

/// Writes the data behind `handle` into `target_out`. The host keeps the
/// handle: the value is serialized in place, never taken out of the arena.
pub fn component_data_serialize<T: Component>(
    component_id: ComponentId,
    user_data: UserData,
    handle: Handle,
    heap: &mut HandleArena<T::Data>,
    target_out: &mut ComponentData,
)
    requires
        component_id == T::ID,
        old(heap)@.contains_key(handle),
    ensures
        serialized(old(heap)@, final(heap)@, handle, final(target_out)@, data_fields_of::<T>()),
        final(heap).minted() == old(heap).minted(),
{
    let out = T::component_data_serialize(component_id, user_data, heap.get_mut(handle));
    *target_out = out;
}

/// Duplicates the data behind `handle` and returns a fresh handle to the
/// duplicate, leaving `handle` as it was; `None`, with nothing changed, when
/// `heap` has no handle left to mint.
pub fn component_data_copy<T: Component>(
    component_id: ComponentId,
    user_data: UserData,
    handle: Handle,
    heap: &mut HandleArena<T::Data>,
) -> (r: Option<Handle>)
    requires
        component_id == T::ID,
        old(heap)@.contains_key(handle),
    ensures
        r is None <==> old(heap).is_exhausted(),
        r is None ==> *final(heap) == *old(heap),
        r matches Some(c) ==> {
            &&& copied(old(heap)@, final(heap)@, handle, c, data_fields_of::<T>())
            &&& final(heap).minted() == old(heap).minted() + 1
        },
{
    if heap.exhausted() {
        return None;
    }
    let dup = T::component_data_copy(component_id, user_data, heap.get(handle));
    heap.insert(dup)
}

/// Takes `handle` from the host and drops the data behind it.
pub fn component_data_free<T: Component>(
    component_id: ComponentId,
    user_data: UserData,
    handle: Handle,
    heap: &mut HandleArena<T::Data>,
)
    requires
        component_id == T::ID,
        old(heap)@.contains_key(handle),
    ensures
        released(old(heap)@, final(heap)@, handle),
        final(heap).minted() == old(heap).minted(),
{
    let _data = heap.remove(handle);
}

/// Deserializes `source` into a new update and hands the host a fresh handle
/// to it through `handle_out`. Returns 1; or 0, with nothing changed, when
/// `heap` has no handle left to mint.
///
/// This entry is live in every table: it does the work through the
/// component's own update deserialize, and does not abort as unimplemented.
pub fn component_update_deserialize<T: Component>(
    component_id: ComponentId,
    user_data: UserData,
    source: ComponentUpdate,
    heap: &mut HandleArena<T::Update>,
    handle_out: &mut Handle,
) -> (r: u8)
    requires
        component_id == T::ID,
    ensures
        r == 0 || r == 1,
        r == 1 <==> !old(heap).is_exhausted(),
        r == 0 ==> *final(heap) == *old(heap) && *final(handle_out) == *old(handle_out),
        r == 1 ==> {
            &&& adopted(old(heap)@, final(heap)@, *final(handle_out))
            &&& T::reads_update(source@, final(heap)@[*final(handle_out)])
            &&& final(heap).minted() == old(heap).minted() + 1
        },
{
    if heap.exhausted() {
        return 0;
    }
    let value = T::component_update_deserialize(component_id, user_data, source);
    match heap.insert(value) {
        Some(h) => {
            *handle_out = h;
            1
        },
        None => 0,
    }
}

/// Writes the update behind `handle` into `target_out`. The host keeps the
/// handle: the value is serialized in place, never taken out of the arena.
///
/// This entry is live in every table: it does the work through the
/// component's own update serialize, and does not abort as unimplemented.
pub fn component_update_serialize<T: Component>(
    component_id: ComponentId,
    user_data: UserData,
    handle: Handle,
    heap: &mut HandleArena<T::Update>,
    target_out: &mut ComponentUpdate,
)
    requires
        component_id == T::ID,
        old(heap)@.contains_key(handle),
    ensures
        serialized(old(heap)@, final(heap)@, handle, final(target_out)@, update_fields_of::<T>()),
        final(heap).minted() == old(heap).minted(),
{
    let out = T::component_update_serialize(component_id, user_data, heap.get_mut(handle));
    *target_out = out;
}

/// Duplicates the update behind `handle` and returns a fresh handle to the
/// duplicate, leaving `handle` as it was; `None`, with nothing changed, when
/// `heap` has no handle left to mint.
pub fn component_update_copy<T: Component>(
    component_id: ComponentId,
    user_data: UserData,
    handle: Handle,
    heap: &mut HandleArena<T::Update>,
) -> (r: Option<Handle>)
    requires
        component_id == T::ID,
        old(heap)@.contains_key(handle),
    ensures
        r is None <==> old(heap).is_exhausted(),
        r is None ==> *final(heap) == *old(heap),
        r matches Some(c) ==> {
            &&& copied(old(heap)@, final(heap)@, handle, c, update_fields_of::<T>())
            &&& final(heap).minted() == old(heap).minted() + 1
        },
{
    if heap.exhausted() {
        return None;
    }
    let dup = T::component_update_copy(component_id, user_data, heap.get(handle));
    heap.insert(dup)
}

/// Takes `handle` from the host and releases the update behind it with everything it owns.
pub fn component_update_free<T: Component>(
    component_id: ComponentId,
    user_data: UserData,
    handle: Handle,
    heap: &mut HandleArena<T::Update>,
)
    requires
        component_id == T::ID,
        old(heap)@.contains_key(handle),
    ensures
        released(old(heap)@, final(heap)@, handle),
        T::update_released(old(heap)@[handle]),
        final(heap).minted() == old(heap).minted(),
{
    let value = heap.remove(handle);
    T::component_update_free(component_id, user_data, value);
}

} // verus!
