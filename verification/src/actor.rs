//! Who a policy lets act on an object, and whether a caller is among them.

use vstd::prelude::*;
use crate::error::{ErrorView, NFOError};
use crate::key::{Duplicate, Key};
use crate::principal::Principal;
use crate::vec_set::VecSet;

verus! {

/// Someone whom a policy allows to act: whoever owns the object at the time
/// of the check, or one fixed identity.
#[derive(Debug, PartialEq, Eq, Hash)]
pub enum Actor {
    Owner,
    Fixed(Principal),
}

/// What an [`Actor`] denotes.
pub enum ActorView {
    Owner,
    Fixed(Seq<u8>),
}

impl View for Actor {
    type V = ActorView;

    open spec fn view(&self) -> ActorView {
        match self {
            Actor::Owner => ActorView::Owner,
            Actor::Fixed(principal) => ActorView::Fixed(principal@),
        }
    }
}

impl Clone for Actor {
    fn clone(&self) -> (r: Self)
        ensures
            r@ == self@,
    {
        match self {
            Actor::Owner => Actor::Owner,
            Actor::Fixed(principal) => Actor::Fixed(principal.clone()),
        }
    }
}

impl Duplicate for Actor {
    fn duplicate(&self) -> (r: Self) {
        self.clone()
    }
}

impl Key for Actor {
    fn same(&self, other: &Self) -> (r: bool) {
        match (self, other) {
            (Actor::Owner, Actor::Owner) => true,
            (Actor::Fixed(a), Actor::Fixed(b)) => a.same(b),
            _ => false,
        }
    }
}

/// Whether `caller` is among `actors`, for an object that `owner` owns:
/// either `actors` names the caller as a fixed identity, or the caller is
/// the owner and `actors` names the owner.
pub open spec fn caller_allowed(caller: Seq<u8>, owner: Seq<u8>, actors: Set<ActorView>) -> bool {
    actors.contains(ActorView::Fixed(caller)) || (caller == owner && actors.contains(
        ActorView::Owner,
    ))
}

/// Checks that `caller` is among `actors`, for an object that `owner` owns at
/// the time of the call.
pub fn check_caller_allowed(caller: &Principal, owner: &Principal, actors: &VecSet<Actor>) -> (r:
    Result<(), NFOError>)
    ensures
        r is Ok <==> caller_allowed(caller@, owner@, actors@),
        r is Err ==> r->Err_0@ == ErrorView::NotAuthorized,
{
    let allowed = actors.contains(&Actor::Fixed(caller.clone())) || (caller.same(owner)
        && actors.contains(&Actor::Owner));
    if allowed {
        Ok(())
    } else {
        Err(NFOError::NotAuthorizedError)
    }
}

} // verus!
