//! Laws that hold of the registry as a whole.

use vstd::prelude::*;
use crate::actor::{caller_allowed, ActorView};
use crate::error::ErrorView;
use crate::ledger::ObjectView;
use crate::model::{
    add_object_type_result,
    burn_result,
    mint_id,
    mint_result,
    object_matches,
    set_value_result,
    transfer_result,
    types_registered,
};
use crate::policy::PolicyView;
use crate::value::{SchemaView, ValueView};

verus! {

/// Whether two values are of the same kind: both the same kind of scalar, or
/// both records.
pub open spec fn same_kind(a: ValueView, b: ValueView) -> bool {
    ||| a is Bool && b is Bool
    ||| a is Text && b is Text
    ||| a is Blob && b is Blob
    ||| a is Principal && b is Principal
    ||| a is Nat8 && b is Nat8
    ||| a is Nat16 && b is Nat16
    ||| a is Nat32 && b is Nat32
    ||| a is Nat64 && b is Nat64
    ||| a is Nat && b is Nat
    ||| a is Int8 && b is Int8
    ||| a is Int16 && b is Int16
    ||| a is Int32 && b is Int32
    ||| a is Int64 && b is Int64
    ||| a is Float && b is Float
    ||| a is Nested && b is Nested
}

/// Whether `altered` is `value` with the kind of one value in it changed:
/// that of the value itself where `path` is empty, and else that of the
/// value which `path` leads to, field position by field position, through
/// the records inside `value`. Every other name and value is as in `value`.
pub open spec fn kind_altered_at(value: ValueView, altered: ValueView, path: Seq<int>) -> bool
    decreases path.len(),
{
    if path.len() == 0 {
        !same_kind(value, altered)
    } else {
        let i = path[0];
        &&& value is Nested
        &&& altered is Nested
        &&& 0 <= i < value->Nested_0.len()
        &&& altered->Nested_0.len() == value->Nested_0.len()
        &&& altered->Nested_0 == value->Nested_0.update(
            i,
            (value->Nested_0[i].0, altered->Nested_0[i].1),
        )
        &&& kind_altered_at(value->Nested_0[i].1, altered->Nested_0[i].1, path.drop_first())
    }
}

/// Every value matches the schema that describes its own shape, and that
/// schema only.
pub proof fn law_value_matches_its_shape_only(value: ValueView, schema: SchemaView)
    ensures
        value.matches(value.shape()),
        value.matches(schema) <==> schema == value.shape(),
{
}

/// Changing the kind of one value, at any depth, changes the shape of the
/// whole.
pub proof fn lemma_kind_altered_changes_shape(value: ValueView, altered: ValueView, path: Seq<int>)
    requires
        kind_altered_at(value, altered, path),
    ensures
        altered.shape() != value.shape(),
    decreases path.len(),
{
    if path.len() > 0 {
        let i = path[0];
        lemma_kind_altered_changes_shape(
            value->Nested_0[i].1,
            altered->Nested_0[i].1,
            path.drop_first(),
        );
        assert(altered.shape()->Nested_0[i] != value.shape()->Nested_0[i]);
    }
}

/// A value that matches a schema no longer matches it once the kind of one
/// value in it, at any depth, has been changed.
pub proof fn law_altered_kind_does_not_match(
    value: ValueView,
    altered: ValueView,
    path: Seq<int>,
    schema: SchemaView,
)
    requires
        value.matches(schema),
        kind_altered_at(value, altered, path),
    ensures
        !altered.matches(schema),
{
    lemma_kind_altered_changes_shape(value, altered, path);
}

/// With the owner as the only actor, the owner alone is allowed. With one
/// fixed identity as the only actor, that identity alone is allowed, owner
/// or not. With both, both are allowed and nobody else.
pub proof fn law_owner_and_fixed_actors(caller: Seq<u8>, owner: Seq<u8>, fixed: Seq<u8>)
    ensures
        caller_allowed(caller, owner, set![ActorView::Owner]) <==> caller == owner,
        caller_allowed(caller, owner, set![ActorView::Fixed(fixed)]) <==> caller == fixed,
        caller_allowed(caller, owner, set![ActorView::Owner, ActorView::Fixed(fixed)]) <==> (caller
            == owner || caller == fixed),
{
}

/// A caller that the type does not let mint is refused as not authorized,
/// whatever the field values are, once the identifier is settled.
pub proof fn law_mint_needs_authorization(
    caller: Seq<u8>,
    ledger: Map<nat, ObjectView>,
    registry: Map<Seq<char>, PolicyView>,
    requested: Option<nat>,
    object_type: Seq<char>,
    owner: Seq<u8>,
    fields: Map<Seq<char>, ValueView>,
)
    requires
        registry.contains_key(object_type),
        !registry[object_type].can_mint.contains(caller),
        mint_id(ledger, requested) is Ok,
    ensures
        mint_result(caller, ledger, registry, requested, object_type, owner, fields) == Err::<
            (nat, Map<nat, ObjectView>),
            ErrorView,
        >(ErrorView::NotAuthorized),
{
}

/// The identifier of a burned object is free at once: a mint that asks for
/// it, by a caller who may mint and with values that match, succeeds and
/// creates the new object under that identifier.
pub proof fn law_burn_then_mint(
    burner: Seq<u8>,
    minter: Seq<u8>,
    ledger: Map<nat, ObjectView>,
    registry: Map<Seq<char>, PolicyView>,
    object_id: nat,
    object_type: Seq<char>,
    owner: Seq<u8>,
    fields: Map<Seq<char>, ValueView>,
)
    requires
        burn_result(burner, ledger, registry, object_id) is Ok,
        registry.contains_key(object_type),
        registry[object_type].can_mint.contains(minter),
        object_matches(fields, registry[object_type].object_schema),
    ensures
        mint_result(
            minter,
            burn_result(burner, ledger, registry, object_id)->Ok_0,
            registry,
            Some(object_id),
            object_type,
            owner,
            fields,
        ) == Ok::<(nat, Map<nat, ObjectView>), ErrorView>(
            (object_id, ledger.insert(object_id, ObjectView { owner, object_type, fields })),
        ),
{
    let burned = burn_result(burner, ledger, registry, object_id)->Ok_0;
    assert(burned.insert(object_id, ObjectView { owner, object_type, fields }) =~= ledger.insert(
        object_id,
        ObjectView { owner, object_type, fields },
    ));
}

/// While the type of every object is registered, it stays so: no operation
/// that succeeds leaves an object behind whose type is not registered.
pub proof fn law_types_stay_registered(
    caller: Seq<u8>,
    ledger: Map<nat, ObjectView>,
    registry: Map<Seq<char>, PolicyView>,
    object_id: nat,
    requested: Option<nat>,
    object_type: Seq<char>,
    owner: Seq<u8>,
    fields: Map<Seq<char>, ValueView>,
    field_name: Seq<char>,
    value: ValueView,
    can_create_new_types: Set<Seq<u8>>,
    policy: PolicyView,
)
    requires
        types_registered(ledger, registry),
    ensures
        registry.contains_key(object_type) ==> match mint_result(
            caller,
            ledger,
            registry,
            requested,
            object_type,
            owner,
            fields,
        ) {
            Ok((_, after)) => types_registered(after, registry),
            Err(_) => true,
        },
        match burn_result(caller, ledger, registry, object_id) {
            Ok(after) => types_registered(after, registry),
            Err(_) => true,
        },
        match set_value_result(caller, ledger, registry, object_id, field_name, value) {
            Ok(after) => types_registered(after, registry),
            Err(_) => true,
        },
        match transfer_result(caller, ledger, object_id, owner) {
            Ok(after) => types_registered(after, registry),
            Err(_) => true,
        },
        match add_object_type_result(caller, can_create_new_types, registry, object_type, policy) {
            Ok(after) => types_registered(ledger, after),
            Err(_) => true,
        },
{
}

} // verus!
