use pg_tenant_bootstrap::config::{DBConnection, DatabaseConfig};
use pg_tenant_bootstrap::password::is_password_shaped;
use pg_tenant_bootstrap::reconcile::{
    catalog_event, decide, failure_of, lookup_event, Action, Event, Failure, Reconciler,
    StoreReply, NOT_FOUND,
};
use pg_tenant_bootstrap::record::CredentialRecord;

struct World {
    records: Vec<CredentialRecord>,
    roles: Vec<(String, String)>,
    databases: Vec<String>,
    statements: Vec<String>,
    fail_at: Option<Action>,
}

fn empty_world() -> World {
    World {
        records: Vec::new(),
        roles: Vec::new(),
        databases: Vec::new(),
        statements: Vec::new(),
        fail_at: None,
    }
}

fn connection() -> DBConnection {
    DBConnection {
        host: "pg".to_string(),
        port: "5432".to_string(),
        username: "admin".to_string(),
        password: "root".to_string(),
    }
}

fn tenant(username: &str, databases: &[&str], namespace: &str) -> DatabaseConfig {
    DatabaseConfig {
        username: username.to_string(),
        databases: databases.iter().map(|d| d.to_string()).collect(),
        namespace: namespace.to_string(),
    }
}

fn perform(world: &mut World, r: &Reconciler, t: &DatabaseConfig, action: Action) -> Event {
    if world.fail_at == Some(action) {
        return Event::Failed;
    }
    if let Some(sql) = r.statement(action) {
        world.statements.push(sql);
    }
    match action {
        Action::GetSecret => {
            let name = r.record_name();
            let namespace = r.namespace();
            let found =
                world.records.iter().any(|s| s.name == name && s.namespace == namespace);
            lookup_event(if found { StoreReply::Found } else { StoreReply::Refused(NOT_FOUND) })
        }
        Action::CheckRole => {
            catalog_event(world.roles.iter().filter(|(n, _)| *n == t.username).count())
        }
        Action::CreateRole => {
            world.roles.push((t.username.clone(), r.current_password()));
            Event::Completed
        }
        Action::AlterRole => {
            for role in world.roles.iter_mut() {
                if role.0 == t.username {
                    role.1 = r.current_password();
                }
            }
            Event::Completed
        }
        Action::CheckDatabase(i) => {
            catalog_event(world.databases.iter().filter(|d| **d == t.databases[i]).count())
        }
        Action::CreateDatabase(i) => {
            world.databases.push(t.databases[i].clone());
            Event::Completed
        }
        Action::Grant(_) => Event::Completed,
        Action::CreateSecret => {
            world.records.push(r.record());
            Event::Completed
        }
        Action::Finish | Action::Abort => unreachable!(),
    }
}

fn run(world: &mut World, t: &DatabaseConfig) -> (Vec<Action>, Reconciler) {
    let mut r = Reconciler::new(t.clone(), connection());
    let mut actions = vec![r.pending_action()];
    while !r.is_over() {
        let action = r.pending_action();
        let event = perform(world, &r, t, action);
        let next = r.step(event);
        assert_eq!(next, r.pending_action());
        actions.push(next);
        assert!(actions.len() < 1000);
    }
    (actions, r)
}

#[test]
fn fresh_tenant_is_provisioned_end_to_end() {
    let mut world = empty_world();
    let t = tenant("svc", &["app"], "ns1");
    let (actions, r) = run(&mut world, &t);
    assert_eq!(
        actions,
        vec![
            Action::GetSecret,
            Action::CheckRole,
            Action::CreateRole,
            Action::CheckDatabase(0),
            Action::CreateDatabase(0),
            Action::Grant(0),
            Action::CreateSecret,
            Action::Finish,
        ]
    );
    let pw = r.current_password();
    assert_eq!(pw.chars().count(), 20);
    assert!(is_password_shaped(&pw));
    assert_eq!(
        world.statements,
        vec![
            "SELECT 1 FROM pg_user WHERE usename='svc';".to_string(),
            format!("CREATE USER svc WITH PASSWORD '{}';", pw),
            "SELECT 1 FROM pg_database WHERE datname='app';".to_string(),
            "CREATE DATABASE app".to_string(),
            "GRANT ALL ON DATABASE app TO svc".to_string(),
        ]
    );
    assert_eq!(world.roles, vec![("svc".to_string(), pw.clone())]);
    assert_eq!(world.databases, vec!["app".to_string()]);
    assert_eq!(world.records.len(), 1);
    let record = &world.records[0];
    assert_eq!(record.name, "svc-db-credentials");
    assert_eq!(record.namespace, "ns1");
    assert_eq!(record.get("database_host"), Some("pg".to_string()));
    assert_eq!(record.get("database_port"), Some("5432".to_string()));
    assert_eq!(record.get("username"), Some("svc".to_string()));
    assert_eq!(record.get("password"), Some(pw.clone()));
    assert_eq!(record.get("database.0"), Some("app".to_string()));
    assert_eq!(
        record.get("database_url.0"),
        Some(format!("host=pg port=5432 user=svc password='{}' dbname=app sslmode=disable", pw))
    );
    assert_eq!(record.fields.len(), 6);
}

#[test]
fn second_run_with_record_present_does_nothing() {
    let mut world = empty_world();
    let t = tenant("svc", &["app"], "ns1");
    run(&mut world, &t);
    let statements_before = world.statements.len();
    let role_before = world.roles.clone();
    let (actions, r) = run(&mut world, &t);
    assert_eq!(actions, vec![Action::GetSecret, Action::Finish]);
    assert_eq!(world.statements.len(), statements_before);
    assert_eq!(world.records.len(), 1);
    assert_eq!(world.roles, role_before);
    assert_eq!(r.current_password(), "");
}

#[test]
fn record_in_another_namespace_does_not_count() {
    let mut world = empty_world();
    run(&mut world, &tenant("svc", &[], "ns1"));
    let (actions, _) = run(&mut world, &tenant("svc", &[], "ns2"));
    assert_eq!(
        actions,
        vec![
            Action::GetSecret,
            Action::CheckRole,
            Action::AlterRole,
            Action::CreateSecret,
            Action::Finish,
        ]
    );
    assert_eq!(world.records.len(), 2);
}

#[test]
fn missing_role_is_created_and_never_altered() {
    let mut world = empty_world();
    let (actions, _) = run(&mut world, &tenant("svc", &["a", "b"], "ns1"));
    assert_eq!(actions[2], Action::CreateRole);
    assert!(!actions.contains(&Action::AlterRole));
    assert!(world.statements.iter().all(|s| !s.starts_with("ALTER USER")));
}

#[test]
fn present_role_gets_the_password_of_the_new_record() {
    let mut world = empty_world();
    world.roles.push(("svc".to_string(), "old-password".to_string()));
    let (actions, r) = run(&mut world, &tenant("svc", &["a"], "ns1"));
    assert_eq!(actions[2], Action::AlterRole);
    assert!(!actions.contains(&Action::CreateRole));
    let pw = r.current_password();
    assert_eq!(world.statements[1], format!("ALTER USER svc WITH PASSWORD '{}';", pw));
    assert_eq!(world.roles, vec![("svc".to_string(), pw.clone())]);
    assert_eq!(world.records[0].get("password"), Some(pw.clone()));
    assert_ne!(pw, "old-password");
    assert!(world.statements.iter().all(|s| !s.starts_with("CREATE USER")));
}

#[test]
fn present_database_is_granted_but_not_created() {
    let mut world = empty_world();
    world.databases.push("b".to_string());
    let (actions, _) = run(&mut world, &tenant("svc", &["a", "b", "c"], "ns1"));
    assert_eq!(
        actions,
        vec![
            Action::GetSecret,
            Action::CheckRole,
            Action::CreateRole,
            Action::CheckDatabase(0),
            Action::CreateDatabase(0),
            Action::Grant(0),
            Action::CheckDatabase(1),
            Action::Grant(1),
            Action::CheckDatabase(2),
            Action::CreateDatabase(2),
            Action::Grant(2),
            Action::CreateSecret,
            Action::Finish,
        ]
    );
    assert!(!world.statements.contains(&"CREATE DATABASE b".to_string()));
    assert!(world.statements.contains(&"GRANT ALL ON DATABASE b TO svc".to_string()));
    assert!(world.statements.contains(&"CREATE DATABASE a".to_string()));
    assert!(world.statements.contains(&"CREATE DATABASE c".to_string()));
}

#[test]
fn repeated_database_is_processed_each_time() {
    let mut world = empty_world();
    let (actions, _) = run(&mut world, &tenant("svc", &["a", "a"], "ns1"));
    assert_eq!(
        actions[3..],
        [
            Action::CheckDatabase(0),
            Action::CreateDatabase(0),
            Action::Grant(0),
            Action::CheckDatabase(1),
            Action::Grant(1),
            Action::CreateSecret,
            Action::Finish,
        ]
    );
    assert_eq!(world.records[0].get("database.0"), Some("a".to_string()));
    assert_eq!(world.records[0].get("database.1"), Some("a".to_string()));
}

#[test]
fn failure_aborts_the_pass_without_a_record() {
    let mut world = empty_world();
    world.fail_at = Some(Action::CreateDatabase(0));
    let (actions, r) = run(&mut world, &tenant("svc", &["a"], "ns1"));
    assert_eq!(*actions.last().unwrap(), Action::Abort);
    assert!(!actions.contains(&Action::CreateSecret));
    assert!(world.records.is_empty());
    assert!(r.is_over());
}

#[test]
fn failed_lookup_of_the_record_touches_nothing() {
    let mut world = empty_world();
    world.fail_at = Some(Action::GetSecret);
    let (actions, _) = run(&mut world, &tenant("svc", &["a"], "ns1"));
    assert_eq!(actions, vec![Action::GetSecret, Action::Abort]);
    assert!(world.statements.is_empty());
}

#[test]
fn store_replies_map_to_outcomes() {
    assert_eq!(NOT_FOUND, 404);
    assert_eq!(lookup_event(StoreReply::Found), Event::SecretFound);
    assert_eq!(lookup_event(StoreReply::Refused(404)), Event::SecretMissing);
    assert_eq!(lookup_event(StoreReply::Refused(403)), Event::Failed);
    assert_eq!(lookup_event(StoreReply::Refused(500)), Event::Failed);
    assert_eq!(lookup_event(StoreReply::Refused(0)), Event::Failed);
    assert_eq!(lookup_event(StoreReply::Broken), Event::Failed);
}

#[test]
fn catalog_answers_by_row_count() {
    assert_eq!(catalog_event(0), Event::Exists(false));
    assert_eq!(catalog_event(1), Event::Exists(true));
    assert_eq!(catalog_event(3), Event::Exists(true));
}

#[test]
fn failures_are_named_after_the_system_called() {
    assert_eq!(failure_of(Action::GetSecret), Some(Failure::Store));
    assert_eq!(failure_of(Action::CreateSecret), Some(Failure::Store));
    assert_eq!(failure_of(Action::CheckRole), Some(Failure::Catalog));
    assert_eq!(failure_of(Action::CreateRole), Some(Failure::Catalog));
    assert_eq!(failure_of(Action::AlterRole), Some(Failure::Catalog));
    assert_eq!(failure_of(Action::CheckDatabase(1)), Some(Failure::Catalog));
    assert_eq!(failure_of(Action::CreateDatabase(1)), Some(Failure::Catalog));
    assert_eq!(failure_of(Action::Grant(1)), Some(Failure::Catalog));
    assert_eq!(failure_of(Action::Finish), None);
    assert_eq!(failure_of(Action::Abort), None);
}

#[test]
fn decide_follows_the_order_of_a_pass() {
    assert_eq!(decide(Action::GetSecret, Event::SecretFound, 2), Action::Finish);
    assert_eq!(decide(Action::GetSecret, Event::SecretMissing, 2), Action::CheckRole);
    assert_eq!(decide(Action::CheckRole, Event::Exists(false), 2), Action::CreateRole);
    assert_eq!(decide(Action::CheckRole, Event::Exists(true), 2), Action::AlterRole);
    assert_eq!(decide(Action::CreateRole, Event::Completed, 2), Action::CheckDatabase(0));
    assert_eq!(decide(Action::AlterRole, Event::Completed, 2), Action::CheckDatabase(0));
    assert_eq!(decide(Action::CreateRole, Event::Completed, 0), Action::CreateSecret);
    assert_eq!(decide(Action::AlterRole, Event::Completed, 0), Action::CreateSecret);
    assert_eq!(decide(Action::CheckDatabase(0), Event::Exists(false), 2), Action::CreateDatabase(0));
    assert_eq!(decide(Action::CheckDatabase(0), Event::Exists(true), 2), Action::Grant(0));
    assert_eq!(decide(Action::CreateDatabase(0), Event::Completed, 2), Action::Grant(0));
    assert_eq!(decide(Action::Grant(0), Event::Completed, 2), Action::CheckDatabase(1));
    assert_eq!(decide(Action::Grant(1), Event::Completed, 2), Action::CreateSecret);
    assert_eq!(decide(Action::CreateSecret, Event::Completed, 2), Action::Finish);
}

#[test]
fn decide_aborts_on_failures_and_on_outcomes_that_do_not_fit() {
    assert_eq!(decide(Action::GetSecret, Event::Failed, 1), Action::Abort);
    assert_eq!(decide(Action::GetSecret, Event::Completed, 1), Action::Abort);
    assert_eq!(decide(Action::CheckRole, Event::Completed, 1), Action::Abort);
    assert_eq!(decide(Action::CheckRole, Event::SecretMissing, 1), Action::Abort);
    assert_eq!(decide(Action::CreateRole, Event::Exists(true), 1), Action::Abort);
    assert_eq!(decide(Action::CreateRole, Event::Failed, 1), Action::Abort);
    assert_eq!(decide(Action::CheckDatabase(0), Event::Failed, 1), Action::Abort);
    assert_eq!(decide(Action::Grant(0), Event::Failed, 1), Action::Abort);
    assert_eq!(decide(Action::CreateSecret, Event::Failed, 1), Action::Abort);
    assert_eq!(decide(Action::CreateSecret, Event::SecretFound, 1), Action::Abort);
}

#[test]
fn a_pass_that_is_over_stays_over() {
    assert_eq!(decide(Action::Finish, Event::Completed, 1), Action::Finish);
    assert_eq!(decide(Action::Finish, Event::Failed, 1), Action::Finish);
    assert_eq!(decide(Action::Abort, Event::Completed, 1), Action::Abort);
    assert_eq!(decide(Action::Abort, Event::SecretFound, 1), Action::Abort);
}

#[test]
fn step_with_takes_the_given_password_only_when_the_record_is_missing() {
    let t = tenant("svc", &["a"], "ns1");
    let mut r = Reconciler::new(t.clone(), connection());
    assert_eq!(r.pending_action(), Action::GetSecret);
    assert_eq!(r.current_password(), "");
    assert_eq!(r.statement(Action::GetSecret), None);
    assert_eq!(r.step_with(Event::SecretMissing, "first".to_string()), Action::CheckRole);
    assert_eq!(r.current_password(), "first");
    assert_eq!(r.step_with(Event::Exists(true), "second".to_string()), Action::AlterRole);
    assert_eq!(r.current_password(), "first");
    assert_eq!(
        r.statement(Action::AlterRole),
        Some("ALTER USER svc WITH PASSWORD 'first';".to_string())
    );
    assert_eq!(r.record().get("password"), Some("first".to_string()));

    let mut found = Reconciler::new(t, connection());
    assert_eq!(found.step_with(Event::SecretFound, "unused".to_string()), Action::Finish);
    assert_eq!(found.current_password(), "");
}

#[test]
fn statement_is_none_for_store_calls_and_unknown_databases() {
    let r = Reconciler::new(tenant("svc", &["a"], "ns1"), connection());
    assert_eq!(r.statement(Action::GetSecret), None);
    assert_eq!(r.statement(Action::CreateSecret), None);
    assert_eq!(r.statement(Action::Finish), None);
    assert_eq!(r.statement(Action::Abort), None);
    assert_eq!(r.statement(Action::CheckDatabase(1)), None);
    assert_eq!(r.statement(Action::CreateDatabase(7)), None);
    assert_eq!(r.statement(Action::Grant(1)), None);
    assert_eq!(
        r.statement(Action::CheckDatabase(0)),
        Some("SELECT 1 FROM pg_database WHERE datname='a';".to_string())
    );
    assert_eq!(r.statement(Action::Grant(0)), Some("GRANT ALL ON DATABASE a TO svc".to_string()));
}

#[test]
fn a_pass_takes_at_most_three_outcomes_per_database_and_four_more() {
    for n in 0..6usize {
        let names: Vec<String> = (0..n).map(|i| format!("db_{}", i)).collect();
        let refs: Vec<&str> = names.iter().map(|s| s.as_str()).collect();
        let mut world = empty_world();
        let (actions, _) = run(&mut world, &tenant("svc", &refs, "ns1"));
        assert_eq!(actions.len(), 3 * n + 5);
        assert_eq!(*actions.last().unwrap(), Action::Finish);
        assert_eq!(world.records[0].fields.len(), 4 + 2 * n);
        let (again, _) = run(&mut world, &tenant("svc", &refs, "ns1"));
        assert_eq!(again, vec![Action::GetSecret, Action::Finish]);
    }
}

#[test]
fn record_is_published_only_after_every_grant() {
    let mut world = empty_world();
    world.fail_at = Some(Action::Grant(1));
    let (actions, _) = run(&mut world, &tenant("svc", &["a", "b"], "ns1"));
    assert_eq!(
        actions,
        vec![
            Action::GetSecret,
            Action::CheckRole,
            Action::CreateRole,
            Action::CheckDatabase(0),
            Action::CreateDatabase(0),
            Action::Grant(0),
            Action::CheckDatabase(1),
            Action::CreateDatabase(1),
            Action::Grant(1),
            Action::Abort,
        ]
    );
    assert!(world.records.is_empty());
    world.fail_at = None;
    let (retry, r) = run(&mut world, &tenant("svc", &["a", "b"], "ns1"));
    assert_eq!(
        retry,
        vec![
            Action::GetSecret,
            Action::CheckRole,
            Action::AlterRole,
            Action::CheckDatabase(0),
            Action::Grant(0),
            Action::CheckDatabase(1),
            Action::Grant(1),
            Action::CreateSecret,
            Action::Finish,
        ]
    );
    assert_eq!(world.records.len(), 1);
    assert_eq!(world.records[0].get("password"), Some(r.current_password()));
}
