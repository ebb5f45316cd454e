//! The optional command capability of a component, and the host entries
//! that move command requests and responses across the handle boundary.
use vstd::prelude::*;
use crate::component::{Capability, Payload, CommandIndex, Component, ComponentId, ComponentVtable, UserData};
use crate::handle::{Handle, HandleArena};
use crate::lifecycle::{adopted, copied, released, serialized};
use crate::schema::{CommandRequest, CommandResponse, Field};

verus! {

/// What a component with commands supplies on top of `Component`, so that the
/// host can hold command requests and responses behind opaque handles.
///
/// Each spec function carries a closed placeholder body, so that an
/// implementation written in plain Rust compiles; nothing outside this module
/// can see that body, so generic code treats the function as unknown and a
/// verified implementation states its own. The placeholders do not describe
/// an implementation in plain Rust that keeps them: nothing checks such an
/// implementation, and what the library proves holds of it only insofar as it
/// behaves as these contracts say with its real fields in their place.
pub trait Commands: Component {
    /// The payload of a call of one of the component's commands.
    type Request;

    /// The payload that answers such a call.
    type Response;

    /// The fields that serializing `request` for command `command_index` writes.
    closed spec fn request_fields(command_index: CommandIndex, request: Self::Request) -> Seq<Field> {
        Seq::empty()
    }

    /// The fields that serializing `response` for command `command_index` writes.
    closed spec fn response_fields(command_index: CommandIndex, response: Self::Response) -> Seq<Field> {
        Seq::empty()
    }

    /// `request` is a value that deserializing `source` for command `command_index` may give.
    closed spec fn reads_request(
        command_index: CommandIndex,
        source: Seq<Field>,
        request: Self::Request,
    ) -> bool {
        true
    }

    /// `response` is a value that deserializing `source` for command `command_index` may give.
    closed spec fn reads_response(
        command_index: CommandIndex,
        source: Seq<Field>,
        response: Self::Response,
    ) -> bool {
        true
    }

    /// The release logic of `command_request_free` for command
    /// `command_index` has run on `request`, releasing every resource it owned.
    closed spec fn request_released(command_index: CommandIndex, request: Self::Request) -> bool {
        true
    }

    /// The release logic of `command_response_free` for command
    /// `command_index` has run on `response`, releasing every resource it owned.
    closed spec fn response_released(command_index: CommandIndex, response: Self::Response) -> bool {
        true
    }

    fn command_request_deserialize(
        component_id: ComponentId,
        command_index: CommandIndex,
        user_data: UserData,
        source: CommandRequest,
    ) -> (r: Self::Request)
        requires
            component_id == Self::ID,
        ensures
            Self::reads_request(command_index, source@, r),
    ;

    /// Writes `handle`; the borrow is mutable only to let the value buffer.
    fn command_request_serialize(
        component_id: ComponentId,
        command_index: CommandIndex,
        user_data: UserData,
        handle: &mut Self::Request,
    ) -> (r: CommandRequest)
        requires
            component_id == Self::ID,
        ensures
            r@ == Self::request_fields(command_index, *old(handle)),
            Self::request_fields(command_index, *final(handle)) == Self::request_fields(command_index, *old(handle)),
    ;

    /// Releases `handle` and every resource it owns.
    fn command_request_free(
        component_id: ComponentId,
        command_index: CommandIndex,
        user_data: UserData,
        handle: Self::Request,
    )
        requires
            component_id == Self::ID,
        ensures
            Self::request_released(command_index, handle),
    ;

    /// An independent duplicate of `handle`, freeable on its own.
    fn command_request_copy(
        component_id: ComponentId,
        command_index: CommandIndex,
        user_data: UserData,
        handle: &Self::Request,
    ) -> (r: Self::Request)
        requires
            component_id == Self::ID,
        ensures
            Self::request_fields(command_index, r) == Self::request_fields(command_index, *handle),
    ;

    fn command_response_deserialize(
        component_id: ComponentId,
        command_index: CommandIndex,
        user_data: UserData,
        source: CommandResponse,
    ) -> (r: Self::Response)
        requires
            component_id == Self::ID,
        ensures
            Self::reads_response(command_index, source@, r),
    ;

    /// Writes `handle`; the borrow is mutable only to let the value buffer.
    fn command_response_serialize(
        component_id: ComponentId,
        command_index: CommandIndex,
        user_data: UserData,
        handle: &mut Self::Response,
    ) -> (r: CommandResponse)
        requires
            component_id == Self::ID,
        ensures
            r@ == Self::response_fields(command_index, *old(handle)),
            Self::response_fields(command_index, *final(handle)) == Self::response_fields(command_index, *old(handle)),
    ;

    /// Releases `handle` and every resource it owns.
    fn command_response_free(
        component_id: ComponentId,
        command_index: CommandIndex,
        user_data: UserData,
        handle: Self::Response,
    )
        requires
            component_id == Self::ID,
        ensures
            Self::response_released(command_index, handle),
    ;

    /// An independent duplicate of `handle`, freeable on its own.
    fn command_response_copy(
        component_id: ComponentId,
        command_index: CommandIndex,
        user_data: UserData,
        handle: &Self::Response,
    ) -> (r: Self::Response)
        requires
            component_id == Self::ID,
        ensures
            Self::response_fields(command_index, r) == Self::response_fields(command_index, *handle),
    ;

    /// The table for this component with every slot live: data, updates,
    /// command requests and command responses.
    fn get_command_vtable() -> (r: ComponentVtable)
        ensures
            r == (ComponentVtable {
                component_id: Self::ID,
                user_data: 0,
                capability: Capability::Full,
            }),
            forall|p: Payload| r.spec_serves(p),
    {
        ComponentVtable { component_id: Self::ID, user_data: 0, capability: Capability::Full }
    }
}

/// `T::request_fields` for command `command_index`, as a function value.
pub open spec fn request_fields_of<T: Commands>(command_index: CommandIndex) -> spec_fn(T::Request) -> Seq<Field> {
    |q: T::Request| T::request_fields(command_index, q)
}

/// `T::response_fields` for command `command_index`, as a function value.
pub open spec fn response_fields_of<T: Commands>(command_index: CommandIndex) -> spec_fn(T::Response) -> Seq<Field> {
    |a: T::Response| T::response_fields(command_index, a)
}

/// Deserializes `source` into a new command request and hands the host a fresh handle
/// to it through `handle_out`. Returns 1; or 0, with nothing changed, when
/// `heap` has no handle left to mint.
pub fn command_request_deserialize<T: Commands>(
    component_id: ComponentId,
    command_index: CommandIndex,
    user_data: UserData,
    source: CommandRequest,
    heap: &mut HandleArena<T::Request>,
    handle_out: &mut Handle,
) -> (r: u8)
    requires
        component_id == T::ID,
    ensures
        r == 0 || r == 1,
        r == 1 <==> !old(heap).is_exhausted(),
        r == 0 ==> *final(heap) == *old(heap) && *final(handle_out) == *old(handle_out),
        r == 1 ==> {
            &&& adopted(old(heap)@, final(heap)@, *final(handle_out))
            &&& T::reads_request(command_index, source@, final(heap)@[*final(handle_out)])
            &&& final(heap).minted() == old(heap).minted() + 1
        },
{
    if heap.exhausted() {
        return 0;
    }
    let value = T::command_request_deserialize(component_id, command_index, user_data, source);
    match heap.insert(value) {
        Some(h) => {
            *handle_out = h;
            1
        },
        None => 0,
    }
}

/// Writes the command request behind `handle` into `target_out`. The host keeps the
/// handle: the value is serialized in place, never taken out of the arena.
pub fn command_request_serialize<T: Commands>(
    component_id: ComponentId,
    command_index: CommandIndex,
    user_data: UserData,
    handle: Handle,
    heap: &mut HandleArena<T::Request>,
    target_out: &mut CommandRequest,
)
    requires
        component_id == T::ID,
        old(heap)@.contains_key(handle),
    ensures
        serialized(old(heap)@, final(heap)@, handle, final(target_out)@, request_fields_of::<T>(command_index)),
        final(heap).minted() == old(heap).minted(),
{
    let out = T::command_request_serialize(component_id, command_index, user_data, heap.get_mut(handle));
    *target_out = out;
}

/// Duplicates the command request behind `handle` and returns a fresh handle to the
/// duplicate, leaving `handle` as it was; `None`, with nothing changed, when
/// `heap` has no handle left to mint.
pub fn command_request_copy<T: Commands>(
    component_id: ComponentId,
    command_index: CommandIndex,
    user_data: UserData,
    handle: Handle,
    heap: &mut HandleArena<T::Request>,
) -> (r: Option<Handle>)
    requires
        component_id == T::ID,
        old(heap)@.contains_key(handle),
    ensures
        r is None <==> old(heap).is_exhausted(),
        r is None ==> *final(heap) == *old(heap),
        r matches Some(c) ==> {
            &&& copied(old(heap)@, final(heap)@, handle, c, request_fields_of::<T>(command_index))
            &&& final(heap).minted() == old(heap).minted() + 1
        },
{
    if heap.exhausted() {
        return None;
    }
    let dup = T::command_request_copy(component_id, command_index, user_data, heap.get(handle));
    heap.insert(dup)
}

/// Takes `handle` from the host and releases the command request behind it with everything it owns.
pub fn command_request_free<T: Commands>(
    component_id: ComponentId,
    command_index: CommandIndex,
    user_data: UserData,
    handle: Handle,
    heap: &mut HandleArena<T::Request>,
)
    requires
        component_id == T::ID,
        old(heap)@.contains_key(handle),
    ensures
        released(old(heap)@, final(heap)@, handle),
        T::request_released(command_index, old(heap)@[handle]),
        final(heap).minted() == old(heap).minted(),
{
    let value = heap.remove(handle);
    T::command_request_free(component_id, command_index, user_data, value);
}

/// Deserializes `source` into a new command response and hands the host a fresh handle
/// to it through `handle_out`. Returns 1; or 0, with nothing changed, when
/// `heap` has no handle left to mint.
pub fn command_response_deserialize<T: Commands>(
    component_id: ComponentId,
    command_index: CommandIndex,
    user_data: UserData,
    source: CommandResponse,
    heap: &mut HandleArena<T::Response>,
    handle_out: &mut Handle,
) -> (r: u8)
    requires
        component_id == T::ID,
    ensures
        r == 0 || r == 1,
        r == 1 <==> !old(heap).is_exhausted(),
        r == 0 ==> *final(heap) == *old(heap) && *final(handle_out) == *old(handle_out),
        r == 1 ==> {
            &&& adopted(old(heap)@, final(heap)@, *final(handle_out))
            &&& T::reads_response(command_index, source@, final(heap)@[*final(handle_out)])
            &&& final(heap).minted() == old(heap).minted() + 1
        },
{
    if heap.exhausted() {
        return 0;
    }
    let value = T::command_response_deserialize(component_id, command_index, user_data, source);
    match heap.insert(value) {
        Some(h) => {
            *handle_out = h;
            1
        },
        None => 0,
    }
}

/// Writes the command response behind `handle` into `target_out`. The host keeps the
/// handle: the value is serialized in place, never taken out of the arena.
pub fn command_response_serialize<T: Commands>(
    component_id: ComponentId,
    command_index: CommandIndex,
    user_data: UserData,
    handle: Handle,
    heap: &mut HandleArena<T::Response>,
    target_out: &mut CommandResponse,
)
    requires
        component_id == T::ID,
        old(heap)@.contains_key(handle),
    ensures
        serialized(old(heap)@, final(heap)@, handle, final(target_out)@, response_fields_of::<T>(command_index)),
        final(heap).minted() == old(heap).minted(),
{
    let out = T::command_response_serialize(component_id, command_index, user_data, heap.get_mut(handle));
    *target_out = out;
}

/// Duplicates the command response behind `handle` and returns a fresh handle to the
/// duplicate, leaving `handle` as it was; `None`, with nothing changed, when
/// `heap` has no handle left to mint.
pub fn command_response_copy<T: Commands>(
    component_id: ComponentId,
    command_index: CommandIndex,
    user_data: UserData,
    handle: Handle,
    heap: &mut HandleArena<T::Response>,
) -> (r: Option<Handle>)
    requires
        component_id == T::ID,
        old(heap)@.contains_key(handle),
    ensures
        r is None <==> old(heap).is_exhausted(),
        r is None ==> *final(heap) == *old(heap),
        r matches Some(c) ==> {
            &&& copied(old(heap)@, final(heap)@, handle, c, response_fields_of::<T>(command_index))
            &&& final(heap).minted() == old(heap).minted() + 1
        },
{
    if heap.exhausted() {
        return None;
    }
    let dup = T::command_response_copy(component_id, command_index, user_data, heap.get(handle));
    heap.insert(dup)
}

/// Takes `handle` from the host and releases the command response behind it with everything it owns.
pub fn command_response_free<T: Commands>(
    component_id: ComponentId,
    command_index: CommandIndex,
    user_data: UserData,
    handle: Handle,
    heap: &mut HandleArena<T::Response>,
)
    requires
        component_id == T::ID,
        old(heap)@.contains_key(handle),
    ensures
        released(old(heap)@, final(heap)@, handle),
        T::response_released(command_index, old(heap)@[handle]),
        final(heap).minted() == old(heap).minted(),
{
    let value = heap.remove(handle);
    T::command_response_free(component_id, command_index, user_data, value);
}

} // verus!
