use nfo::{
    actor_label, add_object_type_impl, display_policy_impl, fixed_label, format_policy, mint_impl,
    Actor, CanisterAccessControlPolicy, GenericValue, GenericValueSchema, Ledger, NFOError, Nat,
    ObjectAccessControlPolicy, ObjectAccessControlPolicyByType, Principal, VecMap, VecSet,
};

fn anonymous() -> Principal {
    Principal::from_slice(&[4]).unwrap()
}

fn management() -> Principal {
    Principal::from_slice(&[]).unwrap()
}

fn actors(list: Vec<Actor>) -> VecSet<Actor> {
    let mut set = VecSet::new();
    for actor in list {
        set.insert(actor);
    }
    set
}

#[test]
fn a_fixed_identity_is_written_around_its_text() {
    assert_eq!(fixed_label("2vxsx-fae"), "Fixed(2vxsx-fae)");
    assert_eq!(fixed_label(""), "Fixed()");
}

#[test]
fn an_actor_is_written_by_name_or_by_the_text_of_its_principal() {
    assert_eq!(actor_label(&Actor::Owner), "Owner");
    assert_eq!(actor_label(&Actor::Fixed(anonymous())), "Fixed(2vxsx-fae)");
    assert_eq!(actor_label(&Actor::Fixed(management())), "Fixed(aaaaa-aa)");
}

#[test]
fn the_text_of_a_principal_is_that_of_the_outside_crate() {
    let outside = candid::Principal::self_authenticating("some key");
    let principal = Principal::from_slice(outside.as_slice()).unwrap();
    assert_eq!(
        actor_label(&Actor::Fixed(principal)),
        format!("Fixed({})", outside.to_text())
    );
}

#[test]
fn the_report_of_no_writers_is_empty() {
    let field_writers: VecMap<String, VecSet<Actor>> = VecMap::new();
    assert_eq!(format_policy(&field_writers), "");
}

#[test]
fn the_report_has_a_line_for_each_field_in_order() {
    let mut field_writers = VecMap::new();
    field_writers.insert(
        String::from("loc"),
        actors(vec![Actor::Fixed(anonymous())]),
    );
    field_writers.insert(
        String::from("name"),
        actors(vec![Actor::Owner, Actor::Fixed(management()), Actor::Owner]),
    );
    field_writers.insert(String::from("sealed"), actors(vec![]));
    assert_eq!(
        format_policy(&field_writers),
        "loc: {Fixed(2vxsx-fae)}\nname: {Owner, Fixed(aaaaa-aa)}\nsealed: {}\n"
    );
}

fn sword_registry() -> ObjectAccessControlPolicyByType {
    let mut object_schema = VecMap::new();
    object_schema.insert(String::from("loc"), GenericValueSchema::TextContent);
    let mut field_writers = VecMap::new();
    field_writers.insert(
        String::from("loc"),
        actors(vec![Actor::Fixed(anonymous()), Actor::Owner]),
    );
    let mut can_mint = VecSet::new();
    can_mint.insert(anonymous());
    let policy = ObjectAccessControlPolicy {
        can_mint,
        can_burn: actors(vec![Actor::Owner]),
        object_schema,
        field_writers,
    };
    let mut cac = CanisterAccessControlPolicy::default();
    cac.can_create_new_types.insert(anonymous());
    let mut oac_by_type = ObjectAccessControlPolicyByType::default();
    add_object_type_impl(
        &anonymous(),
        &cac,
        &mut oac_by_type,
        String::from("sword"),
        policy,
    )
    .unwrap();
    oac_by_type
}

#[test]
fn the_policy_of_an_object_is_that_of_its_type() {
    let oac_by_type = sword_registry();
    let mut ledger = Ledger::default();
    let mut fields = VecMap::new();
    fields.insert(
        String::from("loc"),
        GenericValue::TextContent(String::from("vault")),
    );
    let id = mint_impl(
        &anonymous(),
        &mut ledger,
        &oac_by_type,
        None,
        String::from("sword"),
        management(),
        fields,
    )
    .unwrap();
    assert_eq!(
        display_policy_impl(&ledger, &oac_by_type, id).unwrap(),
        "loc: {Fixed(2vxsx-fae), Owner}\n"
    );
}

#[test]
fn a_missing_object_has_no_policy_to_show() {
    let oac_by_type = sword_registry();
    let ledger = Ledger::default();
    assert!(matches!(
        display_policy_impl(&ledger, &oac_by_type, Nat::from_u64(1)),
        Err(NFOError::NoSuchObjectError { object_id }) if object_id == Nat::from_u64(1)
    ));
}
