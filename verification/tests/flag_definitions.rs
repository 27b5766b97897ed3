use loom_server::routes::flags::{
    check_activation_reason, check_archive_transition, check_flag_updatable, check_owned_by_org, check_sdk_key_name,
    check_flag_key_free, check_sdk_key_revocable, check_strategy_unused, least_duplicate, parse_maintainer,
    validate_new_flag, validate_strategy,
    update_flag_config, validate_variants, FlagConfigState, StrategyChange,
};

fn names(v: &[&str]) -> Vec<String> {
    v.iter().map(|s| s.to_string()).collect()
}

#[test]
fn variants_must_exist_and_differ() {
    let e = validate_variants(&names(&[]), "on").err().unwrap();
    assert_eq!((e.0, e.1.error.as_str()), (400, "no_variants"));
    let e = validate_variants(&names(&["on", "off", "b", "off", "b"]), "on").err().unwrap();
    assert_eq!(e.1.error, "duplicate_variant");
    assert_eq!(e.1.message, "Duplicate variant name: b");
    let e = validate_variants(&names(&["on", "off"]), "maybe").err().unwrap();
    assert_eq!(e.1.error, "default_variant_missing");
    assert!(validate_variants(&names(&["on", "off"]), "off").is_ok());
}

#[test]
fn least_duplicate_uses_str_order() {
    assert_eq!(least_duplicate(&names(&["z", "a", "z", "a"])).as_deref(), Some("a"));
    assert_eq!(least_duplicate(&names(&["ab", "b", "ab", "b"])).as_deref(), Some("ab"));
    assert_eq!(least_duplicate(&names(&["x", "y"])), None);
}

#[test]
fn new_flag_checks_in_order() {
    let e = validate_new_flag(false, &names(&[]), "on").err().unwrap();
    assert_eq!(e.1.error, "invalid_key");
    let e = validate_new_flag(true, &names(&[]), "on").err().unwrap();
    assert_eq!(e.1.error, "no_variants");
    assert!(validate_new_flag(true, &names(&["on"]), "on").is_ok());
    let e = check_flag_key_free(Ok(true)).err().unwrap();
    assert_eq!((e.0, e.1.error.as_str()), (409, "duplicate_key"));
    assert!(check_flag_key_free(Ok(false)).is_ok());
    assert!(check_flag_key_free(Err(())).is_ok());
    let e = parse_maintainer(Some("nope")).err().unwrap();
    assert_eq!(e.1.error, "invalid_maintainer_id");
    assert_eq!(parse_maintainer(Some("00000000-0000-0000-0000-00000000000a")).ok(), Some(Some(10u128)));
    assert_eq!(parse_maintainer(None).ok(), Some(None));
}

#[test]
fn taken_key_is_reported_before_a_bad_maintainer() {
    // A request with a used key and a malformed maintainer id: the key is
    // checked first, so the answer is the conflict.
    let answer = validate_new_flag(true, &names(&["on", "off"]), "on")
        .and_then(|_| check_flag_key_free(Ok(true)))
        .and_then(|_| parse_maintainer(Some("not-a-uuid")));
    assert_eq!(answer.err().unwrap().0, 409);
}

#[test]
fn archive_and_update_rules() {
    assert!(check_archive_transition(false, true).is_ok());
    assert_eq!(check_archive_transition(true, true).err().unwrap().1.error, "already_archived");
    assert_eq!(check_archive_transition(false, false).err().unwrap().1.error, "not_archived");
    assert!(check_archive_transition(true, false).is_ok());
    assert_eq!(check_flag_updatable(true).err().unwrap().1.error, "flag_archived");
}

#[test]
fn org_scoping_and_names() {
    assert!(check_owned_by_org(Some(3), 3, "k").is_ok());
    assert_eq!(check_owned_by_org(None, 3, "server.api.flags.flag_not_found").err().unwrap().1.message, "server.api.flags.flag_not_found");
    assert!(check_sdk_key_name("ci").is_ok());
    assert!(check_sdk_key_name("").is_err());
    assert!(check_sdk_key_name(&"n".repeat(101)).is_err());
    assert_eq!(check_sdk_key_revocable(true).err().unwrap().1.error, "already_revoked");
}

#[test]
fn strategy_checks() {
    assert!(validate_strategy(Some("rollout"), Some(50), Some(&vec![10, 100])).is_ok());
    assert_eq!(validate_strategy(Some(""), None, None).err().unwrap().1.error, "invalid_name");
    assert_eq!(validate_strategy(None, Some(101), None).err().unwrap().1.error, "invalid_percentage");
    assert_eq!(validate_strategy(None, None, Some(&vec![5, 150])).err().unwrap().1.error, "invalid_schedule_percentage");
    assert_eq!(check_strategy_unused(4, &vec![None, Some(4)]).err().unwrap().1.error, "strategy_in_use");
    assert!(check_strategy_unused(4, &vec![None, Some(5)]).is_ok());
    assert_eq!(check_activation_reason("  ").err().unwrap().1.error, "reason_required");
    assert!(check_activation_reason("incident").is_ok());
}

#[test]
fn config_updates() {
    let c = FlagConfigState { enabled: false, strategy_id: Some(1) };
    assert_eq!(update_flag_config(c, Some(true), StrategyChange::Keep).ok(), Some(FlagConfigState { enabled: true, strategy_id: Some(1) }));
    assert_eq!(update_flag_config(c, None, StrategyChange::Clear).ok(), Some(FlagConfigState { enabled: false, strategy_id: None }));
    assert_eq!(
        update_flag_config(c, None, StrategyChange::Assign { id: 9, found: Ok(true) }).ok(),
        Some(FlagConfigState { enabled: false, strategy_id: Some(9) })
    );
    assert_eq!(update_flag_config(c, None, StrategyChange::Assign { id: 9, found: Ok(false) }).err().unwrap().0, 404);
    assert_eq!(update_flag_config(c, None, StrategyChange::Unparsable).err().unwrap().1.error, "invalid_strategy_id");
}

#[test]
fn maintainer_ids_in_every_uuid_form() {
    let v = 0x550e8400e29b41d4a716446655440000u128;
    assert_eq!(parse_maintainer(Some("550e8400e29b41d4a716446655440000")).ok(), Some(Some(v)));
    assert_eq!(parse_maintainer(Some("550E8400-E29B-41D4-A716-446655440000")).ok(), Some(Some(v)));
    assert_eq!(parse_maintainer(Some("{550e8400-e29b-41d4-a716-446655440000}")).ok(), Some(Some(v)));
    assert_eq!(parse_maintainer(Some("URN:uuid:550e8400-e29b-41d4-a716-446655440000")).ok(), Some(Some(v)));
    assert!(parse_maintainer(Some("550e8400-e29b-41d4-a716-44665544000g")).is_err());
    assert!(parse_maintainer(Some("550e8400+e29b-41d4-a716-446655440000")).is_err());
    assert!(parse_maintainer(Some("")).is_err());
}
