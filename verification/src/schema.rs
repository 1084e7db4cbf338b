//! Checking values against schemas.

use vstd::prelude::*;
use crate::error::{ErrorView, NFOError};
use crate::model::{field_check_result, object_matches};
use crate::names::FieldName;
use crate::policy::ObjectSchema;
use crate::value::{GenericValue, GenericValueSchema};
use crate::vec_map::{key_index, lemma_entry_in_map, VecMap};

verus! {

/// Checks that `value` has exactly the shape that `schema` declares.
///
/// A scalar matches only the schema of its own kind. A record matches a
/// record schema with the same number of fields whose names agree position
/// by position and whose values match in turn.
pub fn check_value_matches_value_schema(value: &GenericValue, schema: &GenericValueSchema) -> (r:
    Result<(), NFOError>)
    ensures
        r is Ok <==> value@.matches(schema@),
        r is Err ==> r->Err_0@ == ErrorView::SchemaMismatch,
    decreases value,
{
    match (value, schema) {
        (GenericValue::BoolContent(_), GenericValueSchema::BoolContent) => Ok(()),
        (GenericValue::BlobContent(_), GenericValueSchema::BlobContent) => Ok(()),
        (GenericValue::FloatContent(_), GenericValueSchema::FloatContent) => Ok(()),
        (GenericValue::Int8Content(_), GenericValueSchema::Int8Content) => Ok(()),
        (GenericValue::Int16Content(_), GenericValueSchema::Int16Content) => Ok(()),
        (GenericValue::Int32Content(_), GenericValueSchema::Int32Content) => Ok(()),
        (GenericValue::Int64Content(_), GenericValueSchema::Int64Content) => Ok(()),
        (GenericValue::Nat8Content(_), GenericValueSchema::Nat8Content) => Ok(()),
        (GenericValue::Nat16Content(_), GenericValueSchema::Nat16Content) => Ok(()),
        (GenericValue::Nat32Content(_), GenericValueSchema::Nat32Content) => Ok(()),
        (GenericValue::Nat64Content(_), GenericValueSchema::Nat64Content) => Ok(()),
        (GenericValue::NatContent(_), GenericValueSchema::NatContent) => Ok(()),
        (GenericValue::TextContent(_), GenericValueSchema::TextContent) => Ok(()),
        (GenericValue::Principal(_), GenericValueSchema::Principal) => Ok(()),
        (GenericValue::NestedContent(fields), GenericValueSchema::NestedContent(expected)) => {
            if fields.len() != expected.len() {
                assert(value@.shape()->Nested_0.len() != schema@->Nested_0.len());
                return Err(NFOError::SchemaMismatchError);
            }
            let mut i: usize = 0;
            while i < fields.len()
                invariant
                    *value == GenericValue::NestedContent(*fields),
                    *schema == GenericValueSchema::NestedContent(*expected),
                    fields@.len() == expected@.len(),
                    i <= fields@.len(),
                    forall|j: int|
                        0 <= j < i ==> fields@[j].0@ == expected@[j].0@ && fields@[j].1@.shape()
                            == expected@[j].1@,
                decreases fields@.len() - i,
            {
                if fields[i].0 != expected[i].0 {
                    assert(value@.shape()->Nested_0[i as int] != schema@->Nested_0[i as int]);
                    return Err(NFOError::SchemaMismatchError);
                }
                match check_value_matches_value_schema(&fields[i].1, &expected[i].1) {
                    Ok(()) => {},
                    Err(e) => {
                        assert(value@.shape()->Nested_0[i as int] != schema@->Nested_0[i as int]);
                        return Err(e);
                    },
                }
                i += 1;
            }
            assert(value@.shape()->Nested_0 =~= schema@->Nested_0);
            Ok(())
        },
        _ => Err(NFOError::SchemaMismatchError),
    }
}

/// Checks `value` against the shape that `schema` declares for the field
/// `field_name`. A field that the schema does not declare is no field.
pub fn check_value_matches_field_schema(
    schema: &ObjectSchema,
    field_name: &FieldName,
    value: &GenericValue,
) -> (r: Result<(), NFOError>)
    ensures
        match r {
            Ok(()) => field_check_result(schema@, field_name@, value@) == Ok::<(), ErrorView>(()),
            Err(refusal) => field_check_result(schema@, field_name@, value@) == Err::<
                (),
                ErrorView,
            >(refusal@),
        },
{
    match schema.get(field_name) {
        None => Err(NFOError::NoSuchFieldError { field_name: field_name.clone() }),
        Some(value_schema) => check_value_matches_value_schema(value, value_schema),
    }
}

/// Checks the field values of an object against the schema of its type:
/// there must be as many values as declared fields, and every value must
/// belong to a declared field and have its shape.
pub fn check_value_matches_object_schema(
    value: &VecMap<FieldName, GenericValue>,
    schema: &ObjectSchema,
) -> (r: Result<(), NFOError>)
    ensures
        r is Ok <==> object_matches(value@, schema@),
        r is Err ==> r->Err_0@ == ErrorView::SchemaMismatch,
{
    let count = value.len();
    if count != schema.len() {
        return Err(NFOError::SchemaMismatchError);
    }
    let mut i: usize = 0;
    while i < count
        invariant
            count == value.entries().len(),
            i <= count,
            forall|j: int|
                0 <= j < i ==> schema@.contains_key((#[trigger] value.entries()[j]).0@)
                    && value.entries()[j].1@.matches(schema@[value.entries()[j].0@]),
        decreases count - i,
    {
        let (name, field_value) = value.get_index(i).unwrap();
        match schema.get(name) {
            None => {
                return Err(NFOError::SchemaMismatchError);
            },
            Some(value_schema) => match check_value_matches_value_schema(
                field_value,
                value_schema,
            ) {
                Ok(()) => {},
                Err(refusal) => {
                    return Err(refusal);
                },
            },
        }
        i += 1;
    }
    proof {
        assert forall|name: Seq<char>| #[trigger] value@.contains_key(name) implies {
            &&& schema@.contains_key(name)
            &&& value@[name].matches(schema@[name])
        } by {
            let j = key_index(value.entries(), name);
            lemma_entry_in_map(value.entries(), j);
        }
    }
    Ok(())
}

} // verus!
