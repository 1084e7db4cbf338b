//! A readable report of who may write the fields of an object.
//!
//! The report has one line for each field for which the policy names
//! writers, in the order in which the fields were entered into the policy:
//! the field's name, a colon, and the writers between braces, separated by
//! commas. A writer is written `Owner`, or `Fixed(..)` around the textual
//! form of the principal.

use vstd::prelude::*;
use vstd::string::StringExecFns;
use crate::actor::{Actor, ActorView};
use crate::error::{ErrorView, NFOError};
use crate::ledger::Ledger;
use crate::names::{FieldName, ObjectId};
use crate::policy::ObjectAccessControlPolicyByType;
use crate::principal::MAX_PRINCIPAL_LENGTH;
use crate::vec_map::VecMap;
use crate::vec_set::VecSet;

verus! {

/// The textual form of the principal with the given bytes, as
/// `candid::Principal::to_text` writes it.
pub uninterp spec fn principal_text(bytes: Seq<u8>) -> Seq<char>;

/// The textual form of the principal with the bytes `bytes`.
///
/// Calls `candid::Principal::from_slice` on the bytes and `to_text` on what
/// it returns. `from_slice` panics on more than 29 bytes, which the
/// precondition rules out. Trusted: that the text is a function of the bytes
/// alone, which is what [`principal_text`] names.
#[verifier::external_body]
fn principal_to_text(bytes: &[u8]) -> (text: String)
    requires
        bytes@.len() <= MAX_PRINCIPAL_LENGTH,
    ensures
        text@ == principal_text(bytes@),
{
    candid::Principal::from_slice(bytes).to_text()
}

/// How a fixed identity with the textual form `text` is written.
pub open spec fn fixed_text(text: Seq<char>) -> Seq<char> {
    "Fixed("@ + text + ")"@
}

/// How an actor is written.
pub open spec fn actor_text(actor: ActorView) -> Seq<char> {
    match actor {
        ActorView::Owner => "Owner"@,
        ActorView::Fixed(bytes) => fixed_text(principal_text(bytes)),
    }
}

/// How a sequence of actors is written: one after the other, separated by a
/// comma and a space.
pub open spec fn actors_text(actors: Seq<Actor>) -> Seq<char>
    decreases actors.len(),
{
    if actors.len() == 0 {
        Seq::empty()
    } else if actors.len() == 1 {
        actor_text(actors[0]@)
    } else {
        actors_text(actors.drop_last()) + ", "@ + actor_text(actors.last()@)
    }
}

/// The line of the report for one field.
pub open spec fn field_line(field_name: Seq<char>, writers: Seq<Actor>) -> Seq<char> {
    field_name + ": {"@ + actors_text(writers) + "}\n"@
}

/// The report for the field writers of a policy.
pub open spec fn policy_text(field_writers: Seq<(FieldName, VecSet<Actor>)>) -> Seq<char>
    decreases field_writers.len(),
{
    if field_writers.len() == 0 {
        Seq::empty()
    } else {
        policy_text(field_writers.drop_last()) + field_line(
            field_writers.last().0@,
            field_writers.last().1.items(),
        )
    }
}

/// Writes a fixed identity whose textual form is `text`.
pub fn fixed_label(text: &str) -> (r: String)
    ensures
        r@ == fixed_text(text@),
{
    let mut label = String::from_str("Fixed(");
    label.append(text);
    label.append(")");
    label
}

/// Writes an actor.
pub fn actor_label(actor: &Actor) -> (r: String)
    ensures
        r@ == actor_text(actor@),
{
    match actor {
        Actor::Owner => String::from_str("Owner"),
        Actor::Fixed(principal) => {
            let text = principal_to_text(principal.as_slice());
            fixed_label(text.as_str())
        },
    }
}

/// Writes the actors of a set, in the order in which they were added.
fn actors_label(actors: &VecSet<Actor>) -> (r: String)
    ensures
        r@ == actors_text(actors.items()),
{
    let count = actors.len();
    let mut label = String::new();
    let mut i: usize = 0;
    while i < count
        invariant
            count == actors.items().len(),
            i <= count,
            label@ == actors_text(actors.items().subrange(0, i as int)),
        decreases count - i,
    {
        let actor = actors.get_index(i).unwrap();
        let ghost before = actors.items().subrange(0, i as int);
        let ghost after = actors.items().subrange(0, i + 1);
        assert(after.drop_last() =~= before);
        if i > 0 {
            label.append(", ");
        }
        let one = actor_label(actor);
        label.append(one.as_str());
        i += 1;
    }
    assert(actors.items().subrange(0, count as int) =~= actors.items());
    label
}

/// Renders who may write each field: one line for each field of
/// `field_writers`, in the order of its entries.
pub fn format_policy(field_writers: &VecMap<FieldName, VecSet<Actor>>) -> (r: String)
    ensures
        r@ == policy_text(field_writers.entries()),
{
    let count = field_writers.len();
    let mut report = String::new();
    let mut i: usize = 0;
    while i < count
        invariant
            count == field_writers.entries().len(),
            i <= count,
            report@ == policy_text(field_writers.entries().subrange(0, i as int)),
        decreases count - i,
    {
        let (field_name, writers) = field_writers.get_index(i).unwrap();
        let ghost before = field_writers.entries().subrange(0, i as int);
        let ghost after = field_writers.entries().subrange(0, i + 1);
        assert(after.drop_last() =~= before);
        report.append(field_name.as_str());
        report.append(": {");
        let actors = actors_label(writers);
        report.append(actors.as_str());
        report.append("}\n");
        i += 1;
    }
    assert(field_writers.entries().subrange(0, count as int) =~= field_writers.entries());
    report
}

/// Renders who may write each field of the object `object_id`, as its type
/// has it.
///
/// Refused when there is no such object. The type of the object must be
/// registered.
pub fn display_policy_impl(
    ledger: &Ledger,
    oac_by_type: &ObjectAccessControlPolicyByType,
    object_id: ObjectId,
) -> (r: Result<String, NFOError>)
    requires
        ledger@.contains_key(object_id@) ==> oac_by_type@.contains_key(
            ledger@[object_id@].object_type,
        ),
    ensures
        match r {
            Ok(report) => {
                &&& ledger@.contains_key(object_id@)
                &&& report@ == policy_text(
                    oac_by_type.value_of(ledger@[object_id@].object_type).field_writers.entries(),
                )
            },
            Err(refusal) => {
                &&& !ledger@.contains_key(object_id@)
                &&& refusal@ == ErrorView::NoSuchObject { object_id: object_id@ }
            },
        },
{
    let obj = match ledger.objects.get(&object_id) {
        None => {
            return Err(NFOError::NoSuchObjectError { object_id });
        },
        Some(obj) => obj,
    };
    let oac = oac_by_type.get(obj.object_type()).unwrap();
    Ok(format_policy(&oac.field_writers))
}

} // verus!
