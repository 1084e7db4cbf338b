//! The operations of the registry.
//!
//! Each operation checks everything before it changes anything, so it either
//! makes its one change or refuses and leaves the state as it found it.

use vstd::prelude::*;
use crate::actor::check_caller_allowed;
use crate::error::{ErrorView, NFOError};
use crate::key::Key;
use crate::ledger::{Ledger, Object, ObjectView};
use crate::model::{
    add_object_type_result,
    burn_result,
    fresh_id,
    is_fresh_id,
    lemma_fresh_id_unique,
    mint_id,
    mint_result,
    owner_of_result,
    set_value_result,
    transfer_result,
};
use crate::names::{FieldName, ObjectId, ObjectType};
use crate::number::Nat;
use crate::policy::{
    CanisterAccessControlPolicy,
    ObjectAccessControlPolicy,
    ObjectAccessControlPolicyByType,
    PolicyView,
};
use crate::principal::Principal;
use crate::schema::{check_value_matches_field_schema, check_value_matches_object_schema};
use crate::value::GenericValue;
use crate::vec_map::VecMap;

verus! {

/// What an identifier that may or may not have been given denotes.
pub open spec fn requested_id(id: Option<ObjectId>) -> Option<nat> {
    match id {
        Some(id) => Some(id@),
        None => None,
    }
}

/// Allocates an identifier for a new object: the least positive number below
/// the number of objects that names none of them, or else the number of
/// objects plus one.
pub fn allocate_fresh_id<V: View>(objects: &VecMap<ObjectId, V>) -> (r: ObjectId)
    ensures
        is_fresh_id(objects@.dom(), r@),
        r@ == fresh_id(objects@.dom()),
{
    let count = objects.len();
    let mut i: usize = 1;
    while i < count
        invariant
            count == objects@.dom().len(),
            1 <= i,
            i <= count || i == 1,
            forall|below: nat| 1 <= below < i ==> #[trigger] objects@.dom().contains(below),
        decreases count - i,
    {
        let candidate = Nat::from_usize(i);
        if !objects.contains_key(&candidate) {
            proof {
                lemma_fresh_id_unique(objects@.dom(), candidate@);
            }
            return candidate;
        }
        i += 1;
    }
    let id = Nat::from_u128(count as u128 + 1);
    proof {
        lemma_fresh_id_unique(objects@.dom(), id@);
    }
    id
}

/// Creates an object of the type `object_type` with the owner `owner` and the
/// field values `value`, under the identifier `new_object_id` or, where none
/// is given, under a freshly allocated one, and returns the identifier.
///
/// Refused when the identifier asked for is taken, when `caller` may not
/// mint objects of the type, or when the values do not match the schema of
/// the type. The type must be registered.
pub fn mint_impl(
    caller: &Principal,
    ledger: &mut Ledger,
    oac_by_type: &ObjectAccessControlPolicyByType,
    new_object_id: Option<ObjectId>,
    object_type: ObjectType,
    owner: Principal,
    value: VecMap<FieldName, GenericValue>,
) -> (r: Result<ObjectId, NFOError>)
    requires
        mint_id(old(ledger)@, requested_id(new_object_id)) is Ok ==> oac_by_type@.contains_key(
            object_type@,
        ),
    ensures
        match r {
            Ok(id) => mint_result(
                caller@,
                old(ledger)@,
                oac_by_type@,
                requested_id(new_object_id),
                object_type@,
                owner@,
                value@,
            ) == Ok::<(nat, Map<nat, ObjectView>), ErrorView>((id@, final(ledger)@)),
            Err(refusal) => {
                &&& mint_result(
                    caller@,
                    old(ledger)@,
                    oac_by_type@,
                    requested_id(new_object_id),
                    object_type@,
                    owner@,
                    value@,
                ) == Err::<(nat, Map<nat, ObjectView>), ErrorView>(refusal@)
                &&& *final(ledger) == *old(ledger)
            },
        },
{
    let object_id = match new_object_id {
        None => allocate_fresh_id(&ledger.objects),
        Some(id) => {
            if ledger.objects.contains_key(&id) {
                return Err(NFOError::DuplicateObjectIdError { object_id: id });
            }
            id
        },
    };
    let oac = oac_by_type.get(&object_type).unwrap();
    if !oac.can_mint.contains(caller) {
        return Err(NFOError::NotAuthorizedError);
    }
    match check_value_matches_object_schema(&value, &oac.object_schema) {
        Ok(()) => {},
        Err(refusal) => {
            return Err(refusal);
        },
    }
    ledger.objects.insert(object_id.clone(), Object::new(owner, object_type, value));
    Ok(object_id)
}

/// Gives the field `field_name` of the object `object_id` the value `value`,
/// in place of the whole value that it had.
///
/// Refused when there is no such object, when the schema of the object's
/// type does not declare the field with a shape that the value has, when the
/// type lets nobody write the field, or when `caller` is not among those
/// that it lets write it. The type of the object must be registered.
pub fn set_value_impl(
    caller: &Principal,
    ledger: &mut Ledger,
    oac_by_type: &ObjectAccessControlPolicyByType,
    object_id: &ObjectId,
    field_name: FieldName,
    value: GenericValue,
) -> (r: Result<(), NFOError>)
    requires
        old(ledger)@.contains_key(object_id@) ==> oac_by_type@.contains_key(
            old(ledger)@[object_id@].object_type,
        ),
    ensures
        match r {
            Ok(()) => set_value_result(
                caller@,
                old(ledger)@,
                oac_by_type@,
                object_id@,
                field_name@,
                value@,
            ) == Ok::<Map<nat, ObjectView>, ErrorView>(final(ledger)@),
            Err(refusal) => {
                &&& set_value_result(
                    caller@,
                    old(ledger)@,
                    oac_by_type@,
                    object_id@,
                    field_name@,
                    value@,
                ) == Err::<Map<nat, ObjectView>, ErrorView>(refusal@)
                &&& *final(ledger) == *old(ledger)
            },
        },
{
    let obj = match ledger.objects.get(object_id) {
        None => {
            return Err(NFOError::NoSuchObjectError { object_id: object_id.clone() });
        },
        Some(obj) => obj,
    };
    let oac = oac_by_type.get(obj.object_type()).unwrap();
    match check_value_matches_field_schema(&oac.object_schema, &field_name, &value) {
        Ok(()) => {},
        Err(_) => {
            return Err(NFOError::SchemaMismatchError);
        },
    }
    let field_writers = match oac.field_writers.get(&field_name) {
        None => {
            return Err(NFOError::NoSuchFieldError { field_name });
        },
        Some(field_writers) => field_writers,
    };
    match check_caller_allowed(caller, obj.owner(), field_writers) {
        Ok(()) => {},
        Err(refusal) => {
            return Err(refusal);
        },
    }
    let (id, object) = ledger.objects.remove(object_id).unwrap();
    ledger.objects.insert(id, object.with_field(field_name, value));
    proof {
        let before = old(ledger)@;
        let updated = ObjectView {
            fields: before[object_id@].fields.insert(field_name@, value@),
            ..before[object_id@]
        };
        assert(ledger@ =~= before.insert(object_id@, updated));
    }
    Ok(())
}

/// Destroys the object `object_id`.
///
/// Refused when there is no such object, or when `caller` is not among
/// those that the object's type lets burn it. The type of the object must be
/// registered.
pub fn burn_impl(
    caller: &Principal,
    ledger: &mut Ledger,
    oac_by_type: &ObjectAccessControlPolicyByType,
    object_id: ObjectId,
) -> (r: Result<(), NFOError>)
    requires
        old(ledger)@.contains_key(object_id@) ==> oac_by_type@.contains_key(
            old(ledger)@[object_id@].object_type,
        ),
    ensures
        match r {
            Ok(()) => burn_result(caller@, old(ledger)@, oac_by_type@, object_id@) == Ok::<
                Map<nat, ObjectView>,
                ErrorView,
            >(final(ledger)@),
            Err(refusal) => {
                &&& burn_result(caller@, old(ledger)@, oac_by_type@, object_id@) == Err::<
                    Map<nat, ObjectView>,
                    ErrorView,
                >(refusal@)
                &&& *final(ledger) == *old(ledger)
            },
        },
{
    let obj = match ledger.objects.get(&object_id) {
        None => {
            return Err(NFOError::NoSuchObjectError { object_id });
        },
        Some(obj) => obj,
    };
    let oac = oac_by_type.get(obj.object_type()).unwrap();
    match check_caller_allowed(caller, obj.owner(), &oac.can_burn) {
        Ok(()) => {},
        Err(refusal) => {
            return Err(refusal);
        },
    }
    let _ = ledger.objects.remove(&object_id);
    Ok(())
}

/// Registers the object type `object_type` with the policy `policy`.
///
/// Refused when the type is already registered, or when `caller` may not
/// register object types.
pub fn add_object_type_impl(
    caller: &Principal,
    cac: &CanisterAccessControlPolicy,
    oac_by_type: &mut ObjectAccessControlPolicyByType,
    object_type: ObjectType,
    policy: ObjectAccessControlPolicy,
) -> (r: Result<(), NFOError>)
    ensures
        match r {
            Ok(()) => add_object_type_result(
                caller@,
                cac@,
                old(oac_by_type)@,
                object_type@,
                policy@,
            ) == Ok::<Map<Seq<char>, PolicyView>, ErrorView>(final(oac_by_type)@),
            Err(refusal) => {
                &&& add_object_type_result(
                    caller@,
                    cac@,
                    old(oac_by_type)@,
                    object_type@,
                    policy@,
                ) == Err::<Map<Seq<char>, PolicyView>, ErrorView>(refusal@)
                &&& *final(oac_by_type) == *old(oac_by_type)
            },
        },
{
    if oac_by_type.contains_key(&object_type) {
        return Err(NFOError::DuplicateObjectTypeError { object_type });
    }
    if !cac.can_create_new_types.contains(caller) {
        return Err(NFOError::NotAuthorizedError);
    }
    oac_by_type.insert(object_type, policy);
    Ok(())
}

/// Hands the object `object_id` to the owner `to`. Nothing else about the
/// object changes.
///
/// Refused when there is no such object, or when `caller` is not its owner.
pub fn transfer_impl(
    caller: &Principal,
    ledger: &mut Ledger,
    object_id: &ObjectId,
    to: Principal,
) -> (r: Result<(), NFOError>)
    ensures
        match r {
            Ok(()) => transfer_result(caller@, old(ledger)@, object_id@, to@) == Ok::<
                Map<nat, ObjectView>,
                ErrorView,
            >(final(ledger)@),
            Err(refusal) => {
                &&& transfer_result(caller@, old(ledger)@, object_id@, to@) == Err::<
                    Map<nat, ObjectView>,
                    ErrorView,
                >(refusal@)
                &&& *final(ledger) == *old(ledger)
            },
        },
{
    let object = match ledger.objects.get(object_id) {
        None => {
            return Err(NFOError::NoSuchObjectError { object_id: object_id.clone() });
        },
        Some(object) => object,
    };
    if !object.owner().same(caller) {
        return Err(NFOError::NotAuthorizedError);
    }
    let (id, object) = ledger.objects.remove(object_id).unwrap();
    ledger.objects.insert(id, object.with_owner(to));
    proof {
        let before = old(ledger)@;
        let handed_on = ObjectView { owner: to@, ..before[object_id@] };
        assert(ledger@ =~= before.insert(object_id@, handed_on));
    }
    Ok(())
}

/// The owner of the object `object_id`. Anyone may ask.
///
/// Refused when there is no such object.
pub fn owner_of_impl(ledger: &Ledger, object_id: &ObjectId) -> (r: Result<Principal, NFOError>)
    ensures
        match r {
            Ok(owner) => owner_of_result(ledger@, object_id@) == Ok::<Seq<u8>, ErrorView>(owner@),
            Err(refusal) => owner_of_result(ledger@, object_id@) == Err::<Seq<u8>, ErrorView>(
                refusal@,
            ),
        },
{
    match ledger.objects.get(object_id) {
        None => Err(NFOError::NoSuchObjectError { object_id: object_id.clone() }),
        Some(object) => Ok(object.owner().clone()),
    }
}

} // verus!
