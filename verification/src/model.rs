//! What each operation of the registry does, stated over what the ledger,
//! the policies and the arguments denote.
//!
//! Every operation is a function from the state before the call to either
//! the state after it or the reason for refusing. A refused operation has no
//! state after it: nothing changes.

use vstd::prelude::*;
use crate::actor::caller_allowed;
use crate::error::ErrorView;
use crate::ledger::ObjectView;
use crate::policy::PolicyView;
use crate::value::{SchemaView, ValueView};

verus! {

/// Whether the field values of an object match the schema of its type: both
/// have the same number of fields, and every field that has a value is
/// declared with a shape that the value has.
pub open spec fn object_matches(
    values: Map<Seq<char>, ValueView>,
    schema: Map<Seq<char>, SchemaView>,
) -> bool {
    &&& values.len() == schema.len()
    &&& forall|name: Seq<char>| #[trigger]
        values.contains_key(name) ==> schema.contains_key(name) && values[name].matches(
            schema[name],
        )
}

/// Checking a value against the schema of the field that it is meant for.
pub open spec fn field_check_result(
    schema: Map<Seq<char>, SchemaView>,
    field_name: Seq<char>,
    value: ValueView,
) -> Result<(), ErrorView> {
    if !schema.contains_key(field_name) {
        Err(ErrorView::NoSuchField { field_name })
    } else if !value.matches(schema[field_name]) {
        Err(ErrorView::SchemaMismatch)
    } else {
        Ok(())
    }
}

/// Whether `id` is the identifier that a ledger with the identifiers `used`
/// allocates: the least positive number below the number of objects that is
/// not in use or, when all of those are in use, the number of objects plus
/// one.
pub open spec fn is_fresh_id(used: Set<nat>, id: nat) -> bool {
    &&& forall|below: nat| 1 <= below < used.len() && below < id ==> #[trigger] used.contains(below)
    &&& {
        ||| 1 <= id < used.len() && !used.contains(id)
        ||| id == used.len() + 1
    }
}

/// The identifier that a ledger with the identifiers `used` allocates.
pub open spec fn fresh_id(used: Set<nat>) -> nat {
    choose|id: nat| is_fresh_id(used, id)
}

/// At most one identifier is the one that a ledger allocates.
pub proof fn lemma_fresh_id_unique(used: Set<nat>, id: nat)
    requires
        is_fresh_id(used, id),
    ensures
        fresh_id(used) == id,
{
    // Were `fresh_id(used)` another identifier than `id`, the lesser of the
    // two would be at once free and in use.
    assert(is_fresh_id(used, fresh_id(used)));
}

/// The identifier of the object that a mint creates: the one asked for,
/// unless it is taken, or else a freshly allocated one.
pub open spec fn mint_id(ledger: Map<nat, ObjectView>, requested: Option<nat>) -> Result<
    nat,
    ErrorView,
> {
    match requested {
        Some(id) => if ledger.contains_key(id) {
            Err(ErrorView::DuplicateObjectId { object_id: id })
        } else {
            Ok(id)
        },
        None => Ok(fresh_id(ledger.dom())),
    }
}

/// Creating an object: the identifier of the new object and the ledger that
/// holds it, or the reason for refusing.
pub open spec fn mint_result(
    caller: Seq<u8>,
    ledger: Map<nat, ObjectView>,
    registry: Map<Seq<char>, PolicyView>,
    requested: Option<nat>,
    object_type: Seq<char>,
    owner: Seq<u8>,
    fields: Map<Seq<char>, ValueView>,
) -> Result<(nat, Map<nat, ObjectView>), ErrorView> {
    match mint_id(ledger, requested) {
        Err(refusal) => Err(refusal),
        Ok(id) => {
            let policy = registry[object_type];
            if !policy.can_mint.contains(caller) {
                Err(ErrorView::NotAuthorized)
            } else if !object_matches(fields, policy.object_schema) {
                Err(ErrorView::SchemaMismatch)
            } else {
                Ok((id, ledger.insert(id, ObjectView { owner, object_type, fields })))
            }
        },
    }
}

/// Destroying an object: the ledger without it, or the reason for refusing.
pub open spec fn burn_result(
    caller: Seq<u8>,
    ledger: Map<nat, ObjectView>,
    registry: Map<Seq<char>, PolicyView>,
    object_id: nat,
) -> Result<Map<nat, ObjectView>, ErrorView> {
    if !ledger.contains_key(object_id) {
        Err(ErrorView::NoSuchObject { object_id })
    } else {
        let object = ledger[object_id];
        let policy = registry[object.object_type];
        if !caller_allowed(caller, object.owner, policy.can_burn) {
            Err(ErrorView::NotAuthorized)
        } else {
            Ok(ledger.remove(object_id))
        }
    }
}

/// Writing a field of an object: the ledger in which the field has the new
/// value, or the reason for refusing.
pub open spec fn set_value_result(
    caller: Seq<u8>,
    ledger: Map<nat, ObjectView>,
    registry: Map<Seq<char>, PolicyView>,
    object_id: nat,
    field_name: Seq<char>,
    value: ValueView,
) -> Result<Map<nat, ObjectView>, ErrorView> {
    if !ledger.contains_key(object_id) {
        Err(ErrorView::NoSuchObject { object_id })
    } else {
        let object = ledger[object_id];
        let policy = registry[object.object_type];
        if !policy.object_schema.contains_key(field_name) || !value.matches(
            policy.object_schema[field_name],
        ) {
            Err(ErrorView::SchemaMismatch)
        } else if !policy.field_writers.contains_key(field_name) {
            Err(ErrorView::NoSuchField { field_name })
        } else if !caller_allowed(caller, object.owner, policy.field_writers[field_name]) {
            Err(ErrorView::NotAuthorized)
        } else {
            Ok(
                ledger.insert(
                    object_id,
                    ObjectView { fields: object.fields.insert(field_name, value), ..object },
                ),
            )
        }
    }
}

/// Handing an object to a new owner: the ledger in which it has that owner,
/// or the reason for refusing. Only the owner itself can hand an object on.
pub open spec fn transfer_result(
    caller: Seq<u8>,
    ledger: Map<nat, ObjectView>,
    object_id: nat,
    to: Seq<u8>,
) -> Result<Map<nat, ObjectView>, ErrorView> {
    if !ledger.contains_key(object_id) {
        Err(ErrorView::NoSuchObject { object_id })
    } else if ledger[object_id].owner != caller {
        Err(ErrorView::NotAuthorized)
    } else {
        Ok(ledger.insert(object_id, ObjectView { owner: to, ..ledger[object_id] }))
    }
}

/// Looking up the owner of an object.
pub open spec fn owner_of_result(ledger: Map<nat, ObjectView>, object_id: nat) -> Result<
    Seq<u8>,
    ErrorView,
> {
    if !ledger.contains_key(object_id) {
        Err(ErrorView::NoSuchObject { object_id })
    } else {
        Ok(ledger[object_id].owner)
    }
}

/// Registering an object type: the registry that holds its policy, or the
/// reason for refusing.
pub open spec fn add_object_type_result(
    caller: Seq<u8>,
    can_create_new_types: Set<Seq<u8>>,
    registry: Map<Seq<char>, PolicyView>,
    object_type: Seq<char>,
    policy: PolicyView,
) -> Result<Map<Seq<char>, PolicyView>, ErrorView> {
    if registry.contains_key(object_type) {
        Err(ErrorView::DuplicateObjectType { object_type })
    } else if !can_create_new_types.contains(caller) {
        Err(ErrorView::NotAuthorized)
    } else {
        Ok(registry.insert(object_type, policy))
    }
}

/// Whether the ledger and the registry belong together: the type of every
/// object in the ledger is registered.
pub open spec fn types_registered(
    ledger: Map<nat, ObjectView>,
    registry: Map<Seq<char>, PolicyView>,
) -> bool {
    forall|id: nat| #[trigger]
        ledger.contains_key(id) ==> registry.contains_key(ledger[id].object_type)
}

} // verus!
