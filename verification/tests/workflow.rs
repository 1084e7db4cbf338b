use nfo::{
    add_object_type_impl, mint_impl, owner_of_impl, set_value_impl, transfer_impl, Actor,
    CanisterAccessControlPolicy, GenericValue, GenericValueSchema, Ledger,
    ObjectAccessControlPolicy, ObjectAccessControlPolicyByType, Principal, VecMap, VecSet,
};

fn principal(i: u64) -> Principal {
    let outside = candid::Principal::self_authenticating(format!("ID{}", i));
    Principal::from_slice(outside.as_slice()).expect("a principal has at most 29 bytes")
}

#[test]
fn basic_workflow() {
    let mut ledger = Ledger::default();
    let mut cac = CanisterAccessControlPolicy::default();
    let mut oac_by_type = ObjectAccessControlPolicyByType::default();

    let author = principal(1);
    let game_server = principal(2);
    let user1 = principal(3);
    let user2 = principal(4);

    let sword_type = String::from("sword");
    let loc_field = String::from("loc");
    let mut sword_schema = VecMap::new();
    sword_schema.insert(loc_field.clone(), GenericValueSchema::TextContent);
    let mut loc_writers = VecSet::new();
    loc_writers.insert(Actor::Fixed(game_server.clone()));
    let mut sword_writers = VecMap::new();
    sword_writers.insert(loc_field.clone(), loc_writers);
    let mut can_mint = VecSet::new();
    can_mint.insert(author.clone());
    let mut can_burn = VecSet::new();
    can_burn.insert(Actor::Owner);
    let sword_policy = ObjectAccessControlPolicy {
        can_mint,
        can_burn,
        object_schema: sword_schema,
        field_writers: sword_writers,
    };

    // NFO author not yet added to the list of principals who can add object types
    assert!(add_object_type_impl(
        &author,
        &cac,
        &mut oac_by_type,
        sword_type.clone(),
        sword_policy.clone()
    )
    .is_err());
    cac.can_create_new_types.insert(author.clone());
    assert!(add_object_type_impl(
        &author,
        &cac,
        &mut oac_by_type,
        sword_type.clone(),
        sword_policy
    )
    .is_ok());

    let mut sword1_fields = VecMap::new();
    sword1_fields.insert(
        loc_field.clone(),
        GenericValue::TextContent(String::from("vault")),
    );
    let sword_object_id = mint_impl(
        &author,
        &mut ledger,
        &oac_by_type,
        None,
        sword_type.clone(),
        user1.clone(),
        sword1_fields.clone(),
    )
    .expect("Couldn't mint a sword");

    assert_eq!(
        owner_of_impl(&ledger, &sword_object_id).expect("Object should exist"),
        user1
    );

    // The user can't mint a sword on their own
    assert!(mint_impl(
        &user1,
        &mut ledger,
        &oac_by_type,
        None,
        sword_type.clone(),
        user1.clone(),
        sword1_fields,
    )
    .is_err());

    set_value_impl(
        &game_server,
        &mut ledger,
        &oac_by_type,
        &sword_object_id,
        loc_field.clone(),
        GenericValue::TextContent(String::from("inventory")),
    )
    .expect("Game server not able to change the sword location");

    // The user shouldn't be able to move the item back to the vault on their own
    assert!(set_value_impl(
        &user1,
        &mut ledger,
        &oac_by_type,
        &sword_object_id,
        loc_field.clone(),
        GenericValue::TextContent(String::from("vault"))
    )
    .is_err());

    // The NFO author can't transfer objects
    assert!(transfer_impl(&author, &mut ledger, &sword_object_id, user2.clone()).is_err());
    assert_eq!(
        owner_of_impl(&ledger, &sword_object_id).expect("Object should exist"),
        user1
    );

    transfer_impl(&user1, &mut ledger, &sword_object_id, user2.clone())
        .expect("User must be able to transfer their tokens");
    assert_eq!(
        owner_of_impl(&ledger, &sword_object_id).expect("Object should exist"),
        user2
    );
}
