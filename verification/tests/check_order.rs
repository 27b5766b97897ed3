use loom_server::access::OrgRole;
use loom_server::routes::crash::capture_checks;
use loom_server::routes::flags::{evaluation_checks, flag_config_checks, FlagConfigState};
use loom_server::routes::repos::create_repo_checks;

#[test]
fn capture_checks_come_in_order() {
    let e = capture_checks::<u32>(false, Err(()), Err(())).err().unwrap();
    assert_eq!((e.0, e.1.error.as_str()), (400, "invalid_project_id"));
    let e = capture_checks::<u32>(true, Ok(None), Err(())).err().unwrap();
    assert_eq!((e.0, e.1.error.as_str()), (404, "project_not_found"));
    let e = capture_checks(true, Ok(Some(7u32)), Ok(false)).err().unwrap();
    assert_eq!((e.0, e.1.error.as_str()), (403, "forbidden"));
    assert_eq!(capture_checks(true, Ok(Some(7u32)), Ok(true)).ok(), Some(7));
}

#[test]
fn create_repo_checks_come_in_order() {
    let e = create_repo_checks(false, Err("bad".into()), false, 1, 2, None, "d".into(), Err(()), Err(())).err().unwrap();
    assert_eq!((e.0, e.1.error.as_str()), (500, "not_configured"));
    let e = create_repo_checks(true, Err("name too long".into()), false, 1, 2, None, "d".into(), Err(()), Err(()))
        .err()
        .unwrap();
    assert_eq!((e.0, e.1.error.as_str(), e.1.message.as_str()), (400, "invalid_name", "name too long"));
    let e = create_repo_checks(true, Ok(()), false, 1, 2, None, "d".into(), Ok(None), Ok(None)).err().unwrap();
    assert_eq!(e.1.message, "server.api.scm.cannot_create_for_other_user");
    assert_eq!(
        create_repo_checks(true, Ok(()), false, 2, 2, None, "Dee".into(), Err(()), Err(())).ok().as_deref(),
        Some("Dee")
    );
    let e = create_repo_checks(true, Ok(()), true, 9, 2, None, "d".into(), Ok(Some(OrgRole::Member)), Ok(None))
        .err()
        .unwrap();
    assert_eq!(e.1.message, "server.api.scm.org_admin_required");
    let e = create_repo_checks(true, Ok(()), true, 9, 2, None, "d".into(), Ok(Some(OrgRole::Admin)), Ok(None))
        .err()
        .unwrap();
    assert_eq!((e.0, e.1.message.as_str()), (404, "server.api.scm.org_not_found"));
    assert_eq!(
        create_repo_checks(true, Ok(()), true, 9, 2, None, "d".into(), Ok(Some(OrgRole::Owner)), Ok(Some("acme".into())))
            .ok()
            .as_deref(),
        Some("acme")
    );
}

#[test]
fn evaluation_checks_come_in_order() {
    let e = evaluation_checks::<u8>(Ok(1), Ok(false), Err(()), Err(()), Err(())).err().unwrap();
    assert_eq!((e.0, e.1.message.as_str()), (404, "server.api.org.not_a_member"));
    let e = evaluation_checks::<u8>(Ok(1), Ok(true), Ok(false), Err(()), Err(())).err().unwrap();
    assert_eq!((e.0, e.1.error.as_str()), (400, "invalid_environment"));
    assert_eq!(evaluation_checks(Ok(1), Ok(true), Ok(true), Ok(Some(5u8)), Err(())).ok(), Some((1, 5)));
    assert_eq!(evaluation_checks(Ok(1), Ok(true), Ok(true), Ok(None), Ok(Some(6u8))).ok(), Some((1, 6)));
    let e = evaluation_checks::<u8>(Ok(1), Ok(true), Ok(true), Ok(None), Ok(None)).err().unwrap();
    assert_eq!((e.0, e.1.message.as_str()), (404, "server.api.flags.flag_not_found"));
}

#[test]
fn flag_config_checks_come_in_order() {
    let cfg = FlagConfigState { enabled: true, strategy_id: None };
    let e = flag_config_checks(Ok(1), false, false, Err(()), Err(()), Err(()), Err(())).err().unwrap();
    assert_eq!((e.0, e.1.error.as_str(), e.1.message.as_str()), (400, "invalid_id", "server.api.flags.flag_not_found"));
    let e = flag_config_checks(Ok(1), true, false, Err(()), Err(()), Err(()), Err(())).err().unwrap();
    assert_eq!(e.1.message, "server.api.flags.environment_not_found");
    let e = flag_config_checks(Ok(1), true, true, Ok(true), Ok(Some(Some(2))), Ok(Some(1)), Ok(Some(cfg)))
        .err()
        .unwrap();
    assert_eq!((e.0, e.1.message.as_str()), (404, "server.api.flags.flag_not_found"));
    let e = flag_config_checks(Ok(1), true, true, Ok(true), Ok(Some(Some(1))), Ok(Some(3)), Ok(Some(cfg)))
        .err()
        .unwrap();
    assert_eq!((e.0, e.1.message.as_str()), (404, "server.api.flags.environment_not_found"));
    let e = flag_config_checks(Ok(1), true, true, Ok(true), Ok(Some(Some(1))), Ok(Some(1)), Ok(None)).err().unwrap();
    assert_eq!(e.1.message, "Flag config not found for this environment");
    assert_eq!(
        flag_config_checks(Ok(1), true, true, Ok(true), Ok(Some(Some(1))), Ok(Some(1)), Ok(Some(cfg))).ok(),
        Some(cfg)
    );
}
