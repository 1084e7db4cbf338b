//! Access policies: of one object type, and of the registry as a whole.

use vstd::prelude::*;
use crate::actor::{Actor, ActorView};
use crate::key::Duplicate;
use crate::names::{FieldName, ObjectType};
use crate::principal::Principal;
use crate::value::{GenericValueSchema, SchemaView};
use crate::vec_map::VecMap;
use crate::vec_set::VecSet;

verus! {

/// The schema of an object type: the shape of each of its fields.
pub type ObjectSchema = VecMap<FieldName, GenericValueSchema>;

/// The policy of each registered object type, by the type's name.
pub type ObjectAccessControlPolicyByType = VecMap<ObjectType, ObjectAccessControlPolicy>;

/// What the registry as a whole allows.
#[derive(Debug)]
pub struct CanisterAccessControlPolicy {
    /// The identities that may register new object types.
    pub can_create_new_types: VecSet<Principal>,
}

impl View for CanisterAccessControlPolicy {
    type V = Set<Seq<u8>>;

    open spec fn view(&self) -> Set<Seq<u8>> {
        self.can_create_new_types@
    }
}

impl Default for CanisterAccessControlPolicy {
    fn default() -> (r: Self)
        ensures
            r@ == Set::<Seq<u8>>::empty(),
    {
        CanisterAccessControlPolicy { can_create_new_types: VecSet::new() }
    }
}

/// The policy of one object type.
#[derive(Debug)]
pub struct ObjectAccessControlPolicy {
    /// The identities that may create objects of the type.
    pub can_mint: VecSet<Principal>,
    /// Who may destroy an object of the type.
    pub can_burn: VecSet<Actor>,
    /// The fields that an object of the type has, and their shapes.
    pub object_schema: ObjectSchema,
    /// Who may write each field. A field without an entry cannot be written
    /// by anyone.
    pub field_writers: VecMap<FieldName, VecSet<Actor>>,
}

/// What an [`ObjectAccessControlPolicy`] denotes.
pub struct PolicyView {
    pub can_mint: Set<Seq<u8>>,
    pub can_burn: Set<ActorView>,
    pub object_schema: Map<Seq<char>, SchemaView>,
    pub field_writers: Map<Seq<char>, Set<ActorView>>,
}

impl View for ObjectAccessControlPolicy {
    type V = PolicyView;

    open spec fn view(&self) -> PolicyView {
        PolicyView {
            can_mint: self.can_mint@,
            can_burn: self.can_burn@,
            object_schema: self.object_schema@,
            field_writers: self.field_writers@,
        }
    }
}

impl Duplicate for ObjectAccessControlPolicy {
    fn duplicate(&self) -> (r: Self) {
        ObjectAccessControlPolicy {
            can_mint: self.can_mint.duplicate(),
            can_burn: self.can_burn.duplicate(),
            object_schema: self.object_schema.duplicate(),
            field_writers: self.field_writers.duplicate(),
        }
    }
}

impl Clone for ObjectAccessControlPolicy {
    fn clone(&self) -> (r: Self)
        ensures
            r@ == self@,
    {
        self.duplicate()
    }
}

} // verus!
