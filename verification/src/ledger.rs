//! Objects and the ledger that holds them.

use vstd::prelude::*;
use crate::names::{FieldName, ObjectId, ObjectType};
use crate::principal::Principal;
use crate::value::{GenericValue, ValueView};
use crate::vec_map::VecMap;

verus! {

/// A typed, owned record of named field values.
#[derive(Debug)]
pub struct Object {
    owner: Principal,
    object_type: ObjectType,
    fields: VecMap<FieldName, GenericValue>,
}

/// What an [`Object`] denotes.
pub struct ObjectView {
    pub owner: Seq<u8>,
    pub object_type: Seq<char>,
    pub fields: Map<Seq<char>, ValueView>,
}

impl View for Object {
    type V = ObjectView;

    closed spec fn view(&self) -> ObjectView {
        ObjectView { owner: self.owner@, object_type: self.object_type@, fields: self.fields@ }
    }
}

impl Object {
    /// The object of type `object_type` that `owner` owns and that has the
    /// field values `fields`.
    pub(crate) fn new(owner: Principal, object_type: ObjectType, fields: VecMap<
        FieldName,
        GenericValue,
    >) -> (r: Object)
        ensures
            r@ == (ObjectView { owner: owner@, object_type: object_type@, fields: fields@ }),
    {
        Object { owner, object_type, fields }
    }

    /// Who owns the object.
    pub fn owner(&self) -> (r: &Principal)
        ensures
            r@ == self@.owner,
    {
        &self.owner
    }

    /// The name of the object's type.
    pub fn object_type(&self) -> (r: &ObjectType)
        ensures
            r@ == self@.object_type,
    {
        &self.object_type
    }

    /// The values of the object's fields.
    pub fn fields(&self) -> (r: &VecMap<FieldName, GenericValue>)
        ensures
            r@ == self@.fields,
    {
        &self.fields
    }

    /// The object with `owner` in place of its owner.
    pub(crate) fn with_owner(self, owner: Principal) -> (r: Object)
        ensures
            r@ == (ObjectView { owner: owner@, ..self@ }),
    {
        Object { owner, object_type: self.object_type, fields: self.fields }
    }

    /// The object with `value` as the value of its field `field_name`.
    pub(crate) fn with_field(self, field_name: FieldName, value: GenericValue) -> (r: Object)
        ensures
            r@ == (ObjectView { fields: self@.fields.insert(field_name@, value@), ..self@ }),
    {
        let mut fields = self.fields;
        fields.insert(field_name, value);
        Object { owner: self.owner, object_type: self.object_type, fields }
    }
}

/// The objects that exist, by their identifiers.
#[derive(Debug)]
pub struct Ledger {
    pub objects: VecMap<ObjectId, Object>,
}

impl View for Ledger {
    type V = Map<nat, ObjectView>;

    open spec fn view(&self) -> Map<nat, ObjectView> {
        self.objects@
    }
}

impl Default for Ledger {
    fn default() -> (r: Self)
        ensures
            r@ == Map::<nat, ObjectView>::empty(),
    {
        Ledger { objects: VecMap::new() }
    }
}

} // verus!
