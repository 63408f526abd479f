use fusequery::errors::ErrorCode;
use fusequery::interpreters::{GrantPrivilegeInterpreter, Interpreter, InterpreterFactory};
use fusequery::plans::{GrantPrivilegePlan, PlanNode};
use fusequery::sessions::{Context, SessionManager};
use fusequery::settings::Settings;
use fusequery::users::{PrivilegeType, UserManager, UserPrivilege};

fn grant_plan(name: &str, host: &str, privileges: UserPrivilege) -> GrantPrivilegePlan {
    GrantPrivilegePlan {
        name: String::from(name),
        hostname: String::from(host),
        priv_types: privileges,
    }
}

#[test]
fn interpreter_name_nonempty_and_stable() {
    let plan = PlanNode::GrantPrivilege(grant_plan("test", "localhost", UserPrivilege::empty()));
    let interpreter = InterpreterFactory::get(plan).unwrap();
    let first = interpreter.name();
    let second = interpreter.name();
    assert!(!first.is_empty());
    assert_eq!(first, second);
    assert_eq!(first, "GrantPrivilegeInterpreter");

    match &interpreter {
        Interpreter::GrantPrivilege(grant) => {
            assert_eq!(grant.name(), "GrantPrivilegeInterpreter");
        }
    }
}

#[test]
fn grant_privilege_records_exactly_the_set() {
    let mut ctx = Context::try_create(1).unwrap();
    let name = String::from("test");
    let host = String::from("localhost");
    ctx.sessions.user_manager.add_user(&name, &host).unwrap();

    let privileges = UserPrivilege::empty().with_privilege(PrivilegeType::Create).with_privilege(
        PrivilegeType::Select,
    );
    let interpreter =
        GrantPrivilegeInterpreter::try_create(grant_plan("test", "localhost", privileges)).unwrap();
    let mut stream = interpreter.execute(&mut ctx, None).unwrap();

    // The side effect is fully applied before the stream is handed back.
    let stored = ctx.sessions.user_manager.get_user_privileges(&name, &host).unwrap();
    assert_eq!(stored, privileges);
    assert!(stored.has_privilege(PrivilegeType::Create));
    assert!(stored.has_privilege(PrivilegeType::Select));
    assert!(!stored.has_privilege(PrivilegeType::Insert));

    // Re-granting the identical set is idempotent.
    let again =
        GrantPrivilegeInterpreter::try_create(grant_plan("test", "localhost", privileges)).unwrap();
    again.execute(&mut ctx, None).unwrap();
    assert_eq!(ctx.sessions.user_manager.get_user_privileges(&name, &host).unwrap(), privileges);
    assert_eq!(ctx.sessions.user_manager.users.len(), 1);

    let collected = stream.try_collect().unwrap();
    assert!(collected.is_empty());
}

#[test]
fn grant_privilege_stream_is_empty_with_plan_schema() {
    let mut ctx = Context::try_create(2).unwrap();
    let name = String::from("test");
    let host = String::from("%");
    ctx.sessions.user_manager.add_user(&name, &host).unwrap();

    let plan = grant_plan("test", "%", UserPrivilege::empty());
    let declared_fields = plan.schema().num_fields();
    let interpreter = GrantPrivilegeInterpreter::try_create(plan).unwrap();
    let mut stream = interpreter.execute(&mut ctx, None).unwrap();

    // The stream carries the plan's declared schema.
    assert_eq!(stream.schema.num_fields(), declared_fields);
    // It yields zero blocks and completes immediately.
    assert!(stream.next().unwrap().is_none());
    let collected = stream.try_collect().unwrap();
    assert_eq!(collected.len(), 0);
}

#[test]
fn concurrent_grants_for_distinct_keys_are_independent() {
    let mut ctx = Context::try_create(3).unwrap();
    let name1 = String::from("alice");
    let host1 = String::from("%");
    let name2 = String::from("bob");
    let host2 = String::from("10.0.0.1");
    ctx.sessions.user_manager.add_user(&name1, &host1).unwrap();
    ctx.sessions.user_manager.add_user(&name2, &host2).unwrap();

    let privileges1 = UserPrivilege::empty().with_privilege(PrivilegeType::Create);
    let privileges2 = UserPrivilege::empty().with_privilege(PrivilegeType::Update);

    let first = GrantPrivilegeInterpreter::try_create(grant_plan("alice", "%", privileges1))
        .unwrap();
    let second = GrantPrivilegeInterpreter::try_create(grant_plan("bob", "10.0.0.1", privileges2))
        .unwrap();
    first.execute(&mut ctx, None).unwrap();
    second.execute(&mut ctx, None).unwrap();

    // Both grants succeeded and are independently observable.
    assert_eq!(ctx.sessions.user_manager.get_user_privileges(&name1, &host1).unwrap(), privileges1);
    assert_eq!(ctx.sessions.user_manager.get_user_privileges(&name2, &host2).unwrap(), privileges2);
}

#[test]
fn unreachable_user_manager_fails_without_partial_state() {
    let settings = Settings::create();
    let sessions = SessionManager::create(UserManager::create_unreachable());
    let mut ctx = Context::create(4, settings, sessions);

    let privileges = UserPrivilege::empty().with_privilege(PrivilegeType::Select);
    let interpreter = GrantPrivilegeInterpreter::try_create(grant_plan("test", "%", privileges))
        .unwrap();
    let outcome = interpreter.execute(&mut ctx, None);

    // The failure is surfaced unchanged.
    assert!(matches!(outcome, Err(ErrorCode::StoreUnreachable)));
    // No partial privilege state was recorded for the targeted principal.
    assert_eq!(ctx.sessions.user_manager.users.len(), 0);
}

#[test]
fn grant_for_unknown_principal_fails() {
    let mut ctx = Context::try_create(5).unwrap();
    let interpreter = GrantPrivilegeInterpreter::try_create(
        grant_plan("nobody", "%", UserPrivilege::empty()),
    )
    .unwrap();
    let outcome = interpreter.execute(&mut ctx, None);
    assert!(matches!(outcome, Err(ErrorCode::UnknownUser)));
    assert_eq!(ctx.sessions.user_manager.users.len(), 0);
}

#[test]
fn regrant_replaces_rather_than_merges() {
    let mut ctx = Context::try_create(6).unwrap();
    let name = String::from("test");
    let host = String::from("%");
    ctx.sessions.user_manager.add_user(&name, &host).unwrap();

    let first_set = UserPrivilege::empty().with_privilege(PrivilegeType::Create);
    let second_set = UserPrivilege::empty().with_privilege(PrivilegeType::Select);
    GrantPrivilegeInterpreter::try_create(grant_plan("test", "%", first_set))
        .unwrap()
        .execute(&mut ctx, None)
        .unwrap();
    GrantPrivilegeInterpreter::try_create(grant_plan("test", "%", second_set))
        .unwrap()
        .execute(&mut ctx, None)
        .unwrap();

    let stored = ctx.sessions.user_manager.get_user_privileges(&name, &host).unwrap();
    assert_eq!(stored, second_set);
    assert!(!stored.has_privilege(PrivilegeType::Create));
}

#[test]
fn same_name_under_different_hosts_are_distinct_principals() {
    let mut ctx = Context::try_create(8).unwrap();
    let name = String::from("test");
    let host_any = String::from("%");
    let host_local = String::from("localhost");
    ctx.sessions.user_manager.add_user(&name, &host_any).unwrap();
    ctx.sessions.user_manager.add_user(&name, &host_local).unwrap();

    let privileges = UserPrivilege::empty().with_privilege(PrivilegeType::Insert);
    GrantPrivilegeInterpreter::try_create(grant_plan("test", "localhost", privileges))
        .unwrap()
        .execute(&mut ctx, None)
        .unwrap();

    assert_eq!(
        ctx.sessions.user_manager.get_user_privileges(&name, &host_local).unwrap(),
        privileges
    );
    assert_eq!(
        ctx.sessions.user_manager.get_user_privileges(&name, &host_any).unwrap(),
        UserPrivilege::empty()
    );
}

#[test]
fn add_user_rejects_duplicate_key() {
    let mut manager = UserManager::create();
    let name = String::from("test");
    let host = String::from("%");
    manager.add_user(&name, &host).unwrap();
    let outcome = manager.add_user(&name, &host);
    assert!(matches!(outcome, Err(ErrorCode::UserAlreadyExists)));
    assert_eq!(manager.users.len(), 1);
}
