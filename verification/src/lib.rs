//! A registry of typed, owned objects with per-type access policies.
//!
//! Every mutation is validated in full against the registered policy of the
//! object's type before the ledger is touched, so a failed operation leaves
//! the ledger and the policy registry exactly as they were.

pub mod actor;
pub mod engine;
pub mod error;
pub mod key;
pub mod laws;
pub mod ledger;
pub mod model;
pub mod names;
pub mod number;
pub mod policy;
pub mod principal;
pub mod report;
pub mod schema;
pub mod value;
pub mod vec_map;
pub mod vec_set;

pub use actor::{check_caller_allowed, Actor};
pub use engine::{
    add_object_type_impl, allocate_fresh_id, burn_impl, mint_impl, owner_of_impl, set_value_impl,
    transfer_impl,
};
pub use error::NFOError;
pub use key::{Duplicate, Key};
pub use ledger::{Ledger, Object};
pub use names::{FieldName, ObjectId, ObjectType};
pub use number::Nat;
pub use policy::{
    CanisterAccessControlPolicy, ObjectAccessControlPolicy, ObjectAccessControlPolicyByType,
    ObjectSchema,
};
pub use principal::Principal;
pub use report::{actor_label, display_policy_impl, fixed_label, format_policy};
pub use schema::{
    check_value_matches_field_schema, check_value_matches_object_schema,
    check_value_matches_value_schema,
};
pub use value::{GenericValue, GenericValueSchema};
pub use vec_map::VecMap;
pub use vec_set::VecSet;
