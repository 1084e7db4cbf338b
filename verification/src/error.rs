//! The ways in which an operation on the registry can be refused.

use vstd::prelude::*;
use crate::names::{FieldName, ObjectId, ObjectType};

verus! {

/// Why an operation was refused. A refused operation changes nothing.
#[derive(Debug)]
pub enum NFOError {
    /// The ledger holds no object with this identifier.
    NoSuchObjectError { object_id: ObjectId },
    /// The field is not one that the object's type lets anyone write.
    NoSuchFieldError { field_name: FieldName },
    /// A value does not have the shape that the schema declares.
    SchemaMismatchError,
    /// The caller is not among those that the policy allows to act.
    NotAuthorizedError,
    /// The identifier asked for already names an object.
    DuplicateObjectIdError { object_id: ObjectId },
    /// The object type is already registered.
    DuplicateObjectTypeError { object_type: ObjectType },
}

/// What an [`NFOError`] denotes.
pub enum ErrorView {
    NoSuchObject { object_id: nat },
    NoSuchField { field_name: Seq<char> },
    SchemaMismatch,
    NotAuthorized,
    DuplicateObjectId { object_id: nat },
    DuplicateObjectType { object_type: Seq<char> },
}

impl View for NFOError {
    type V = ErrorView;

    open spec fn view(&self) -> ErrorView {
        match self {
            NFOError::NoSuchObjectError { object_id } => ErrorView::NoSuchObject {
                object_id: object_id@,
            },
            NFOError::NoSuchFieldError { field_name } => ErrorView::NoSuchField {
                field_name: field_name@,
            },
            NFOError::SchemaMismatchError => ErrorView::SchemaMismatch,
            NFOError::NotAuthorizedError => ErrorView::NotAuthorized,
            NFOError::DuplicateObjectIdError { object_id } => ErrorView::DuplicateObjectId {
                object_id: object_id@,
            },
            NFOError::DuplicateObjectTypeError { object_type } => ErrorView::DuplicateObjectType {
                object_type: object_type@,
            },
        }
    }
}

} // verus!
