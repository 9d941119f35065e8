use std::path::Path;

use loth::engine::{EngineSettings, LothEngine};
use loth::spicedb::client::connect_failed;
use loth::spicedb::schema::SchemaMode;
use loth::startup::{Startup, StartupAction, StartupPhase};
use loth::types::{AuthError, LothConfig, TextSource};

const DEFAULT: &str = "definition user {}\n";

fn apply() -> EngineSettings {
    EngineSettings { schema_mode: SchemaMode::ApplyIfDifferent, ..EngineSettings::default() }
}

fn config() -> LothConfig<'static> {
    LothConfig::new("http://127.0.0.1:50051", "token")
}

fn ready(action: StartupAction) -> LothEngine {
    match action {
        StartupAction::Ready(engine) => engine,
        _ => panic!("not ready"),
    }
}

#[test]
fn default_schema_is_verified() {
    let mut s = Startup::new(config(), EngineSettings::default(), DEFAULT);
    assert_eq!(s.phase(), StartupPhase::Connecting);
    assert_eq!(s.endpoint(), "http://127.0.0.1:50051");
    assert_eq!(s.token(), "token");
    assert!(matches!(s.on_connected(Ok(())), Ok(StartupAction::ReadSchema(_))));
    assert_eq!(s.phase(), StartupPhase::ReadingSchema);
    let engine = ready(s.on_schema_read(Ok("definition user {} \n\n".to_string())).unwrap());
    assert_eq!(engine.zed_schema(), DEFAULT);
    assert_eq!(s.phase(), StartupPhase::Finished);
}

#[test]
fn failed_connection_ends_the_start() {
    let mut s = Startup::new(config(), EngineSettings::default(), DEFAULT);
    let e = s.on_connected(Err(connect_failed("http://x", "refused".to_string()))).err().unwrap();
    assert!(matches!(e, AuthError::SpiceDbTransport { .. }));
    assert_eq!(s.phase(), StartupPhase::Finished);
}

#[test]
fn different_schema_ends_a_verifying_start() {
    let mut s = Startup::new(config(), EngineSettings::default(), DEFAULT);
    s.on_connected(Ok(())).unwrap();
    let e = s.on_schema_read(Ok("definition doc {}".to_string())).err().unwrap();
    assert_eq!(
        e.to_text(),
        "SpiceDB protocol/validation error while ensure_schema: spicedb schema mismatch (VerifyOnly)"
    );
    assert_eq!(s.phase(), StartupPhase::Finished);
}

#[test]
fn different_schema_is_written() {
    let cfg = config().with_zed_schema(TextSource::from_inline("definition doc {}"));
    let mut s = Startup::new(cfg, apply(), DEFAULT);
    s.on_connected(Ok(())).unwrap();
    match s.on_schema_read(Err(AuthError::spicedb_status("read_schema", "none".to_string()))) {
        Ok(StartupAction::WriteSchema(request)) => assert_eq!(request.schema, "definition doc {}"),
        _ => panic!("write expected"),
    }
    assert_eq!(s.phase(), StartupPhase::WritingSchema);
    let engine = ready(s.on_schema_written(Ok(())).unwrap());
    assert_eq!(engine.zed_schema(), "definition doc {}");
}

#[test]
fn failed_schema_write_ends_the_start() {
    let mut s = Startup::new(config(), apply(), DEFAULT);
    s.on_connected(Ok(())).unwrap();
    s.on_schema_read(Ok(String::new())).unwrap();
    let failed = AuthError::spicedb_status("write_schema", "down".to_string());
    let e = s.on_schema_written(Err(failed)).err().unwrap();
    assert_eq!(e.to_text(), "SpiceDB gRPC status while write_schema: down");
    assert_eq!(s.phase(), StartupPhase::Finished);
}

#[test]
fn files_are_asked_for() {
    let cfg = config()
        .with_zed_schema(TextSource::from_path("schema.zed"))
        .with_cedar_policies(TextSource::from_path("intel.cedar"));
    let mut s = Startup::new(cfg, EngineSettings::default(), DEFAULT);
    match s.on_connected(Ok(())).unwrap() {
        StartupAction::LoadFile(path) => assert_eq!(path.as_path(), Path::new("schema.zed")),
        _ => panic!("file expected"),
    }
    assert_eq!(s.phase(), StartupPhase::LoadingSchema);
    let action = s.on_schema_loaded("schema.zed", Ok("definition doc {}".to_string())).unwrap();
    assert!(matches!(action, StartupAction::ReadSchema(_)));
    match s.on_schema_read(Ok("definition doc {}".to_string())).unwrap() {
        StartupAction::LoadFile(path) => assert_eq!(path.as_path(), Path::new("intel.cedar")),
        _ => panic!("file expected"),
    }
    assert_eq!(s.phase(), StartupPhase::LoadingPolicies);
    let policies = "forbid(principal, action, resource);".to_string();
    let engine = ready(s.on_policies_loaded("intel.cedar", Ok(policies)).unwrap());
    let unit = ();
    let r = engine.check_permission_with_context(Ok(2), "u", "a", "t", "i", Some(&unit));
    assert!(!r.unwrap());
}

#[test]
fn unread_files_end_the_start() {
    let cfg = config().with_zed_schema(TextSource::from_path("schema.zed"));
    let mut s = Startup::new(cfg, EngineSettings::default(), DEFAULT);
    s.on_connected(Ok(())).unwrap();
    let e = s.on_schema_loaded("schema.zed", Err("gone".to_string())).err().unwrap();
    assert_eq!(e.to_text(), "I/O error while read_to_string (schema.zed): gone");

    let cfg = config().with_cedar_policies(TextSource::from_path("intel.cedar"));
    let mut s = Startup::new(cfg, EngineSettings::default(), DEFAULT);
    s.on_connected(Ok(())).unwrap();
    s.on_schema_read(Ok(DEFAULT.to_string())).unwrap();
    let e = s.on_policies_loaded("intel.cedar", Err("gone".to_string())).err().unwrap();
    assert_eq!(e.to_text(), "I/O error while read_to_string (intel.cedar): gone");
    assert_eq!(s.phase(), StartupPhase::Finished);
}

#[test]
fn bad_policies_end_the_start() {
    let cfg = config().with_cedar_policies(TextSource::from_inline("permit("));
    let mut s = Startup::new(cfg, EngineSettings::default(), DEFAULT);
    s.on_connected(Ok(())).unwrap();
    let r = s.on_schema_read(Ok(DEFAULT.to_string()));
    assert!(matches!(r, Err(AuthError::CedarValidation { .. })));
}

#[test]
fn settings_reach_the_engine() {
    let settings = EngineSettings { enable_replication_fail_closed: false, ..apply() };
    let owned = LothConfig::new(String::from("http://x"), String::from("y"));
    let start = Startup::new(owned, settings, DEFAULT);
    assert_eq!((start.endpoint(), start.token()), ("http://x", "y"));
    let mut s = Startup::new(config(), settings, DEFAULT);
    s.on_connected(Ok(())).unwrap();
    let engine = ready(s.on_schema_read(Ok(DEFAULT.to_string())).unwrap());
    let fatal = AuthError::validation("x".to_string());
    assert!(engine.fail_closed_if_replication_broken(Some(&fatal)).is_ok());
}
