use spatial_component::command::{
    command_request_copy, command_request_deserialize, command_request_free,
    command_request_serialize, command_response_copy, command_response_deserialize,
    command_response_free, command_response_serialize, Commands,
};
use spatial_component::component::{
    component_data_copy, component_data_deserialize, component_data_free,
    component_data_serialize, component_update_copy, component_update_deserialize,
    component_update_free, component_update_serialize, Capability, CommandIndex, Component,
    ComponentId, Payload, UserData,
};
use spatial_component::handle::{Handle, HandleArena};
use spatial_component::schema::{
    CommandRequest, CommandResponse, ComponentData, ComponentUpdate, SchemaObject,
};
use std::sync::atomic::{AtomicUsize, Ordering};

const POSITION_ID: ComponentId = 54;
const X_FIELD: u32 = 1;

static UPDATES_FREED: AtomicUsize = AtomicUsize::new(0);
static REQUESTS_FREED: AtomicUsize = AtomicUsize::new(0);

#[derive(Clone, Debug, PartialEq)]
struct PositionData {
    x: u64,
}

#[derive(Clone, Debug, PartialEq)]
struct PositionUpdate {
    x: Option<u64>,
}

struct Position;

fn read_x(fields: &SchemaObject) -> Option<u64> {
    fields.get_uint64(X_FIELD)
}

impl Component for Position {
    type Data = PositionData;
    type Update = PositionUpdate;

    const ID: ComponentId = POSITION_ID;

    fn component_data_deserialize(_: ComponentId, _: UserData, source: ComponentData) -> PositionData {
        PositionData { x: read_x(&source.fields).unwrap_or(0) }
    }

    fn component_data_serialize(_: ComponentId, _: UserData, handle: &mut PositionData) -> ComponentData {
        let mut out = ComponentData::new();
        out.fields.add_uint64(X_FIELD, handle.x);
        out
    }

    fn component_data_copy(_: ComponentId, _: UserData, handle: &PositionData) -> PositionData {
        handle.clone()
    }

    fn component_update_deserialize(_: ComponentId, _: UserData, source: ComponentUpdate) -> PositionUpdate {
        PositionUpdate { x: read_x(&source.fields) }
    }

    fn component_update_serialize(_: ComponentId, _: UserData, handle: &mut PositionUpdate) -> ComponentUpdate {
        let mut out = ComponentUpdate::new();
        if let Some(x) = handle.x {
            out.fields.add_uint64(X_FIELD, x);
        }
        out
    }

    fn component_update_free(_: ComponentId, _: UserData, _handle: PositionUpdate) {
        UPDATES_FREED.fetch_add(1, Ordering::SeqCst);
    }

    fn component_update_copy(_: ComponentId, _: UserData, handle: &PositionUpdate) -> PositionUpdate {
        handle.clone()
    }
}

struct Door;

impl Component for Door {
    type Data = PositionData;
    type Update = PositionUpdate;

    const ID: ComponentId = 77;

    fn component_data_deserialize(_: ComponentId, _: UserData, source: ComponentData) -> PositionData {
        PositionData { x: read_x(&source.fields).unwrap_or(0) }
    }

    fn component_data_serialize(_: ComponentId, _: UserData, handle: &mut PositionData) -> ComponentData {
        let mut out = ComponentData::new();
        out.fields.add_uint64(X_FIELD, handle.x);
        out
    }

    fn component_data_copy(_: ComponentId, _: UserData, handle: &PositionData) -> PositionData {
        handle.clone()
    }

    fn component_update_deserialize(_: ComponentId, _: UserData, source: ComponentUpdate) -> PositionUpdate {
        PositionUpdate { x: read_x(&source.fields) }
    }

    fn component_update_serialize(_: ComponentId, _: UserData, handle: &mut PositionUpdate) -> ComponentUpdate {
        let mut out = ComponentUpdate::new();
        if let Some(x) = handle.x {
            out.fields.add_uint64(X_FIELD, x);
        }
        out
    }

    fn component_update_free(_: ComponentId, _: UserData, _handle: PositionUpdate) {}

    fn component_update_copy(_: ComponentId, _: UserData, handle: &PositionUpdate) -> PositionUpdate {
        handle.clone()
    }
}

impl Commands for Door {
    type Request = u64;
    type Response = u64;

    fn command_request_deserialize(_: ComponentId, index: CommandIndex, _: UserData, source: CommandRequest) -> u64 {
        source.fields.get_uint64(index).unwrap_or(0)
    }

    fn command_request_serialize(_: ComponentId, index: CommandIndex, _: UserData, handle: &mut u64) -> CommandRequest {
        let mut out = CommandRequest::new();
        out.fields.add_uint64(index, *handle);
        out
    }

    fn command_request_free(_: ComponentId, _: CommandIndex, _: UserData, _handle: u64) {
        REQUESTS_FREED.fetch_add(1, Ordering::SeqCst);
    }

    fn command_request_copy(_: ComponentId, _: CommandIndex, _: UserData, handle: &u64) -> u64 {
        *handle
    }

    fn command_response_deserialize(_: ComponentId, index: CommandIndex, _: UserData, source: CommandResponse) -> u64 {
        source.fields.get_uint64(index).unwrap_or(0)
    }

    fn command_response_serialize(_: ComponentId, index: CommandIndex, _: UserData, handle: &mut u64) -> CommandResponse {
        let mut out = CommandResponse::new();
        out.fields.add_uint64(index, *handle);
        out
    }

    fn command_response_free(_: ComponentId, _: CommandIndex, _: UserData, _handle: u64) {}

    fn command_response_copy(_: ComponentId, _: CommandIndex, _: UserData, handle: &u64) -> u64 {
        *handle
    }
}

fn data_source(x: u64) -> ComponentData {
    let mut source = ComponentData::new();
    source.fields.add_uint64(X_FIELD, x);
    source
}

fn update_source(x: u64) -> ComponentUpdate {
    let mut source = ComponentUpdate::new();
    source.fields.add_uint64(X_FIELD, x);
    source
}

fn fields_of(object: &SchemaObject) -> Vec<(u32, u64)> {
    let mut out = Vec::new();
    for i in 0..object.len() {
        out.push(object.entry(i));
    }
    out
}

#[test]
fn data_only_table_scenario() {
    let table = Position::get_vtable();
    assert_eq!(table.component_id, POSITION_ID);
    assert_eq!(table.user_data, 0);
    assert_eq!(table.capability, Capability::DataUpdate);

    let mut heap: HandleArena<PositionData> = HandleArena::new();
    let mut handle: Handle = 0;
    let ok = component_data_deserialize::<Position>(
        table.component_id,
        table.user_data,
        data_source(5),
        &mut heap,
        &mut handle,
    );
    assert_eq!(ok, 1);
    assert!(heap.contains(handle));
    assert_eq!(heap.get(handle).x, 5);

    let mut out = ComponentData::new();
    component_data_serialize::<Position>(table.component_id, table.user_data, handle, &mut heap, &mut out);
    assert_eq!(out.fields.get_uint64(X_FIELD), Some(5));
    assert!(heap.contains(handle));
    assert_eq!(heap.get(handle).x, 5);

    component_data_free::<Position>(table.component_id, table.user_data, handle, &mut heap);
    assert!(!heap.contains(handle));
    assert!(heap.is_empty());
}

#[test]
fn copy_serializes_like_original() {
    let mut heap: HandleArena<PositionData> = HandleArena::new();
    let mut handle: Handle = 0;
    assert_eq!(component_data_deserialize::<Position>(POSITION_ID, 0, data_source(12), &mut heap, &mut handle), 1);
    let copy = component_data_copy::<Position>(POSITION_ID, 0, handle, &mut heap).unwrap();
    assert_ne!(copy, handle);
    assert!(heap.contains(handle));
    assert!(heap.contains(copy));

    let mut out_original = ComponentData::new();
    let mut out_copy = ComponentData::new();
    component_data_serialize::<Position>(POSITION_ID, 0, handle, &mut heap, &mut out_original);
    component_data_serialize::<Position>(POSITION_ID, 0, copy, &mut heap, &mut out_copy);
    assert_eq!(fields_of(&out_original.fields), vec![(X_FIELD, 12)]);
    assert_eq!(fields_of(&out_original.fields), fields_of(&out_copy.fields));

    component_data_free::<Position>(POSITION_ID, 0, handle, &mut heap);
    assert!(heap.contains(copy));
    component_data_free::<Position>(POSITION_ID, 0, copy, &mut heap);
    assert!(heap.is_empty());
}

#[test]
fn freeing_update_copy_keeps_original() {
    let before = UPDATES_FREED.load(Ordering::SeqCst);
    let mut heap: HandleArena<PositionUpdate> = HandleArena::new();
    let mut handle: Handle = 0;
    assert_eq!(component_update_deserialize::<Position>(POSITION_ID, 0, update_source(9), &mut heap, &mut handle), 1);
    let copy = component_update_copy::<Position>(POSITION_ID, 0, handle, &mut heap).unwrap();
    component_update_free::<Position>(POSITION_ID, 0, copy, &mut heap);
    assert!(!heap.contains(copy));
    assert!(heap.contains(handle));
    assert_eq!(heap.get(handle).x, Some(9));

    let mut out = ComponentUpdate::new();
    component_update_serialize::<Position>(POSITION_ID, 0, handle, &mut heap, &mut out);
    assert_eq!(fields_of(&out.fields), vec![(X_FIELD, 9)]);

    component_update_free::<Position>(POSITION_ID, 0, handle, &mut heap);
    assert!(heap.is_empty());
    assert_eq!(UPDATES_FREED.load(Ordering::SeqCst) - before, 2);
}

#[test]
fn interleaved_copies_and_serializes_are_each_freed_once() {
    let before = UPDATES_FREED.load(Ordering::SeqCst);
    let mut heap: HandleArena<PositionUpdate> = HandleArena::new();
    let mut handle: Handle = 0;
    assert_eq!(component_update_deserialize::<Position>(POSITION_ID, 0, update_source(3), &mut heap, &mut handle), 1);

    let mut copies: Vec<Handle> = Vec::new();
    for round in 0..6 {
        if round % 2 == 0 {
            copies.push(component_update_copy::<Position>(POSITION_ID, 0, handle, &mut heap).unwrap());
        } else {
            let mut out = ComponentUpdate::new();
            component_update_serialize::<Position>(POSITION_ID, 0, handle, &mut heap, &mut out);
            assert_eq!(fields_of(&out.fields), vec![(X_FIELD, 3)]);
        }
    }
    assert_eq!(copies.len(), 3);

    component_update_free::<Position>(POSITION_ID, 0, handle, &mut heap);
    for c in &copies {
        assert!(heap.contains(*c));
        component_update_free::<Position>(POSITION_ID, 0, *c, &mut heap);
    }
    assert!(heap.is_empty());
    assert_eq!(UPDATES_FREED.load(Ordering::SeqCst) - before, 4);
}

#[test]
fn tables_show_command_capability() {
    let data_only = Position::get_vtable();
    assert!(data_only.serves(Payload::ComponentData));
    assert!(data_only.serves(Payload::ComponentUpdate));
    assert!(!data_only.serves(Payload::CommandRequest));
    assert!(!data_only.serves(Payload::CommandResponse));

    let full = Door::get_command_vtable();
    assert_eq!(full.component_id, 77);
    assert_eq!(full.capability, Capability::Full);
    assert!(full.serves(Payload::CommandRequest));
    assert!(full.serves(Payload::CommandResponse));
    assert!(full.serves(Payload::ComponentData));

    let plain = Door::get_vtable();
    assert_eq!(plain.capability, Capability::DataUpdate);
    assert!(!plain.serves(Payload::CommandRequest));
}

#[test]
fn command_request_lifecycle() {
    let before = REQUESTS_FREED.load(Ordering::SeqCst);
    let mut heap: HandleArena<u64> = HandleArena::new();
    let mut source = CommandRequest::new();
    source.fields.add_uint64(2, 40);
    let mut handle: Handle = 0;
    assert_eq!(command_request_deserialize::<Door>(77, 2, 0, source, &mut heap, &mut handle), 1);
    assert_eq!(*heap.get(handle), 40);

    let copy = command_request_copy::<Door>(77, 2, 0, handle, &mut heap).unwrap();
    let mut out = CommandRequest::new();
    command_request_serialize::<Door>(77, 2, 0, copy, &mut heap, &mut out);
    assert_eq!(fields_of(&out.fields), vec![(2, 40)]);

    command_request_free::<Door>(77, 2, 0, copy, &mut heap);
    command_request_free::<Door>(77, 2, 0, handle, &mut heap);
    assert!(heap.is_empty());
    assert_eq!(REQUESTS_FREED.load(Ordering::SeqCst) - before, 2);
}

#[test]
fn command_response_lifecycle() {
    let mut heap: HandleArena<u64> = HandleArena::new();
    let mut source = CommandResponse::new();
    source.fields.add_uint64(1, 8);
    let mut handle: Handle = 0;
    assert_eq!(command_response_deserialize::<Door>(77, 1, 0, source, &mut heap, &mut handle), 1);
    let copy = command_response_copy::<Door>(77, 1, 0, handle, &mut heap).unwrap();
    let mut out_original = CommandResponse::new();
    let mut out_copy = CommandResponse::new();
    command_response_serialize::<Door>(77, 1, 0, handle, &mut heap, &mut out_original);
    command_response_serialize::<Door>(77, 1, 0, copy, &mut heap, &mut out_copy);
    assert_eq!(fields_of(&out_original.fields), vec![(1, 8)]);
    assert_eq!(fields_of(&out_original.fields), fields_of(&out_copy.fields));
    command_response_free::<Door>(77, 1, 0, handle, &mut heap);
    command_response_free::<Door>(77, 1, 0, copy, &mut heap);
    assert!(heap.is_empty());
}

#[test]
fn handles_are_never_reused() {
    let mut heap: HandleArena<PositionData> = HandleArena::new();
    let mut first: Handle = 0;
    assert_eq!(component_data_deserialize::<Position>(POSITION_ID, 0, data_source(1), &mut heap, &mut first), 1);
    component_data_free::<Position>(POSITION_ID, 0, first, &mut heap);
    let mut second: Handle = 0;
    assert_eq!(component_data_deserialize::<Position>(POSITION_ID, 0, data_source(2), &mut heap, &mut second), 1);
    assert_ne!(first, second);
    assert!(!heap.contains(first));
    assert_eq!(heap.get(second).x, 2);
    assert!(!heap.exhausted());
}
