use catalog_access::host::{greet, probe_outcome, probe_query, reveal_program, Platform, ProbeStep};
use catalog_access::query::AccessError;
use catalog_access::records::DatabaseConfig;

#[test]
fn greets_by_name() {
    assert_eq!(greet("Ada".to_string()), "Hello, Ada!");
    assert_eq!(greet(String::new()), "Hello, !");
}

#[test]
fn reveal_programs_per_platform() {
    assert_eq!(reveal_program(Platform::Windows), "explorer.exe");
    assert_eq!(reveal_program(Platform::MacOs), "open");
    assert_eq!(reveal_program(Platform::Linux), "xdg-open");
}

#[test]
fn probe_runs_a_constant_selection() {
    let q = probe_query();
    assert_eq!(q.statement, "SELECT 1");
    assert!(q.params.is_empty());
}

#[test]
fn probe_outcomes() {
    assert!(matches!(probe_outcome(ProbeStep::QuerySucceeded), Ok(true)));
    match probe_outcome(ProbeStep::ConnectFailed("refused".to_string())) {
        Err(AccessError::Connection(m)) => assert_eq!(m, "refused"),
        other => panic!("unexpected {:?}", other),
    }
    match probe_outcome(ProbeStep::QueryFailed("bad".to_string())) {
        Err(AccessError::Query(m)) => assert_eq!(m, "bad"),
        other => panic!("unexpected {:?}", other),
    }
}

fn profile(port: u16) -> DatabaseConfig {
    DatabaseConfig {
        host: "h".to_string(),
        port,
        user: "u".to_string(),
        password: "p".to_string(),
        database: "d".to_string(),
    }
}

#[test]
fn ports_in_decimal() {
    assert_eq!(profile(0).connection_string(), "host=h port=0 user=u password=p dbname=d");
    assert_eq!(profile(9).connection_string(), "host=h port=9 user=u password=p dbname=d");
    assert_eq!(profile(10).connection_string(), "host=h port=10 user=u password=p dbname=d");
    assert_eq!(profile(65535).connection_string(), "host=h port=65535 user=u password=p dbname=d");
}
