//! The contract of a value type nested inside a component's schema object.
use vstd::prelude::*;
use crate::component::UserData;
use crate::schema::{Field, SchemaObject};

verus! {

/// What a value type supplies to be read from and written into a field of a
/// larger schema object.
///
/// Each spec function carries a closed placeholder body, so that an
/// implementation written in plain Rust compiles; nothing outside this module
/// can see that body, so generic code treats the function as unknown and a
/// verified implementation states its own. The placeholders do not describe
/// an implementation in plain Rust that keeps them: nothing checks such an
/// implementation, and what the library proves holds of it only insofar as it
/// behaves as these contracts say with its real fields in their place.
pub trait Type: Sized {
    /// The value itself.
    type Data;

    /// An incremental change to the value.
    type Update;

    /// The fields that serializing `data` appends to its target.
    closed spec fn data_fields(data: Self::Data) -> Seq<Field> {
        Seq::empty()
    }

    /// The fields that serializing `update` appends to its target.
    closed spec fn update_fields(update: Self::Update) -> Seq<Field> {
        Seq::empty()
    }

    /// `data` is a value that deserializing the fields `source` may give.
    closed spec fn reads_data(source: Seq<Field>, data: Self::Data) -> bool {
        true
    }

    /// `update` is a value that deserializing the fields `source` may give.
    closed spec fn reads_update(source: Seq<Field>, update: Self::Update) -> bool {
        true
    }

    /// The release logic of `type_update_free` has run on `update`, releasing
    /// every resource it owned.
    closed spec fn update_released(update: Self::Update) -> bool {
        true
    }

    /// Reads a value from `source`, which is only borrowed for the call.
    fn type_data_deserialize(user_data: UserData, source: &SchemaObject) -> (r: Self::Data)
        ensures
            Self::reads_data(source@, r),
    ;

    /// Appends the fields of `data` to `target`; the borrow of `data` is
    /// mutable only to let it buffer, and it stays the caller's.
    fn type_data_serialize(user_data: UserData, data: &mut Self::Data, target: &mut SchemaObject)
        ensures
            final(target)@ == old(target)@ + Self::data_fields(*old(data)),
            Self::data_fields(*final(data)) == Self::data_fields(*old(data)),
    ;

    /// Reads an update from `source`, which is only borrowed for the call.
    fn type_update_deserialize(user_data: UserData, source: &SchemaObject) -> (r: Self::Update)
        ensures
            Self::reads_update(source@, r),
    ;

    /// Appends the fields of `data` to `target`; the borrow of `data` is
    /// mutable only to let it buffer, and it stays the caller's.
    fn type_update_serialize(user_data: UserData, data: &mut Self::Update, target: &mut SchemaObject)
        ensures
            final(target)@ == old(target)@ + Self::update_fields(*old(data)),
            Self::update_fields(*final(data)) == Self::update_fields(*old(data)),
    ;

    /// Releases `data` and every resource it owns.
    fn type_update_free(user_data: UserData, data: Self::Update)
        ensures
            Self::update_released(data),
    ;

    /// An independent duplicate of `data` that writes the same fields and is
    /// freeable on its own.
    fn type_update_copy(user_data: UserData, data: &Self::Update) -> (r: Self::Update)
        ensures
            Self::update_fields(r) == Self::update_fields(*data),
    ;
}

} // verus!
