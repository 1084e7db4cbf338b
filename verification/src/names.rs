//! The names by which objects, object types and fields are known.

use vstd::prelude::*;
use crate::number::Nat;

verus! {

/// Identifies an object in the ledger.
pub type ObjectId = Nat;

/// Names a registered object type.
pub type ObjectType = String;

/// Names a field of an object.
pub type FieldName = String;

} // verus!
