use nfo::{check_caller_allowed, Actor, NFOError, Principal, VecSet};

fn principal(i: u8) -> Principal {
    Principal::from_slice(&[i]).unwrap()
}

fn actors(list: Vec<Actor>) -> VecSet<Actor> {
    let mut set = VecSet::new();
    for actor in list {
        set.insert(actor);
    }
    set
}

fn refused(result: Result<(), NFOError>) -> bool {
    matches!(result, Err(NFOError::NotAuthorizedError))
}

#[test]
fn with_the_owner_as_only_actor_the_owner_alone_is_allowed() {
    let owner = principal(1);
    let stranger = principal(2);
    let only_owner = actors(vec![Actor::Owner]);
    assert!(check_caller_allowed(&owner, &owner, &only_owner).is_ok());
    assert!(refused(check_caller_allowed(&stranger, &owner, &only_owner)));
}

#[test]
fn a_fixed_actor_is_allowed_without_being_the_owner() {
    let owner = principal(1);
    let server = principal(2);
    let stranger = principal(3);
    let only_server = actors(vec![Actor::Fixed(server.clone())]);
    assert!(check_caller_allowed(&server, &owner, &only_server).is_ok());
    assert!(refused(check_caller_allowed(&owner, &owner, &only_server)));
    assert!(refused(check_caller_allowed(&stranger, &owner, &only_server)));
}

#[test]
fn with_owner_and_fixed_actor_both_are_allowed_and_nobody_else() {
    let owner = principal(1);
    let server = principal(2);
    let stranger = principal(3);
    let both = actors(vec![Actor::Owner, Actor::Fixed(server.clone())]);
    assert!(check_caller_allowed(&owner, &owner, &both).is_ok());
    assert!(check_caller_allowed(&server, &owner, &both).is_ok());
    assert!(refused(check_caller_allowed(&stranger, &owner, &both)));
}

#[test]
fn nobody_is_allowed_by_no_actors() {
    let owner = principal(1);
    let nobody = actors(vec![]);
    assert!(refused(check_caller_allowed(&owner, &owner, &nobody)));
}

#[test]
fn the_owner_named_as_a_fixed_actor_is_allowed() {
    let owner = principal(1);
    let named = actors(vec![Actor::Fixed(owner.clone())]);
    assert!(check_caller_allowed(&owner, &owner, &named).is_ok());
    assert!(check_caller_allowed(&owner, &principal(9), &named).is_ok());
}

#[test]
fn the_owner_is_whoever_owns_the_object_at_the_time() {
    let first = principal(1);
    let second = principal(2);
    let only_owner = actors(vec![Actor::Owner]);
    assert!(check_caller_allowed(&first, &first, &only_owner).is_ok());
    assert!(refused(check_caller_allowed(&first, &second, &only_owner)));
    assert!(check_caller_allowed(&second, &second, &only_owner).is_ok());
}
