//! Untyped, field-indexed schema objects: the medium through which typed
//! values cross to the host.
use vstd::prelude::*;

verus! {

/// The number that names a field inside a schema object.
pub type FieldId = u32;

/// One written field: its number and its value.
pub type Field = (FieldId, u64);

/// The last value written to `field_id` in `fields`, if any.
pub open spec fn field_value(fields: Seq<Field>, field_id: FieldId) -> Option<u64>
    decreases fields.len(),
{
    if fields.len() == 0 {
        None
    } else if fields.last().0 == field_id {
        Some(fields.last().1)
    } else {
        field_value(fields.drop_last(), field_id)
    }
}

/// A field-indexed container of values, in the order they were written.
pub struct SchemaObject {
    fields: Vec<Field>,
}

impl View for SchemaObject {
    type V = Seq<Field>;

    closed spec fn view(&self) -> Seq<Field> {
        self.fields@
    }
}

impl SchemaObject {
    /// An object with no field written.
    pub fn new() -> (r: Self)
        ensures
            r@ == Seq::<Field>::empty(),
    {
        SchemaObject { fields: Vec::new() }
    }

    /// Writes `value` to the field `field_id`.
    pub fn add_uint64(&mut self, field_id: FieldId, value: u64)
        ensures
            final(self)@ == old(self)@.push((field_id, value)),
    {
        self.fields.push((field_id, value));
    }

    /// Reads the last value written to the field `field_id`, if any.
    pub fn get_uint64(&self, field_id: FieldId) -> (r: Option<u64>)
        ensures
            r == field_value(self@, field_id),
    {
        let mut i: usize = self.fields.len();
        assert(self@.take(i as int) =~= self@);
        while i > 0
            invariant
                i <= self@.len(),
                field_value(self@, field_id) == field_value(self@.take(i as int), field_id),
            decreases i,
        {
            let (f, v) = self.fields[i - 1];
            assert(self@.take(i as int).drop_last() =~= self@.take(i - 1));
            if f == field_id {
                return Some(v);
            }
            i = i - 1;
        }
        None
    }

    /// The `i`-th field value written.
    pub fn entry(&self, i: usize) -> (r: Field)
        requires
            i < self@.len(),
        ensures
            r == self@[i as int],
    {
        self.fields[i]
    }

    /// The number of field values written.
    pub fn len(&self) -> (r: usize)
        ensures
            r == self@.len(),
    {
        self.fields.len()
    }
}

/// The schema form of a whole component's data.
pub struct ComponentData {
    pub fields: SchemaObject,
}

/// The schema form of an update to a component.
pub struct ComponentUpdate {
    pub fields: SchemaObject,
}

/// The schema form of a command request.
pub struct CommandRequest {
    pub fields: SchemaObject,
}

/// The schema form of a command response.
pub struct CommandResponse {
    pub fields: SchemaObject,
}

impl View for ComponentData {
    type V = Seq<Field>;

    open spec fn view(&self) -> Seq<Field> {
        self.fields@
    }
}

impl View for ComponentUpdate {
    type V = Seq<Field>;

    open spec fn view(&self) -> Seq<Field> {
        self.fields@
    }
}

impl View for CommandRequest {
    type V = Seq<Field>;

    open spec fn view(&self) -> Seq<Field> {
        self.fields@
    }
}

impl View for CommandResponse {
    type V = Seq<Field>;

    open spec fn view(&self) -> Seq<Field> {
        self.fields@
    }
}

impl ComponentData {
    /// Component data with no field written.
    pub fn new() -> (r: Self)
        ensures
            r@ == Seq::<Field>::empty(),
    {
        ComponentData { fields: SchemaObject::new() }
    }
}

impl ComponentUpdate {
    /// An update with no field written.
    pub fn new() -> (r: Self)
        ensures
            r@ == Seq::<Field>::empty(),
    {
        ComponentUpdate { fields: SchemaObject::new() }
    }
}

impl CommandRequest {
    /// A command request with no field written.
    pub fn new() -> (r: Self)
        ensures
            r@ == Seq::<Field>::empty(),
    {
        CommandRequest { fields: SchemaObject::new() }
    }
}

impl CommandResponse {
    /// A command response with no field written.
    pub fn new() -> (r: Self)
        ensures
            r@ == Seq::<Field>::empty(),
    {
        CommandResponse { fields: SchemaObject::new() }
    }
}

} // verus!
