use loth::engine::{is_structurally_allowed, EngineSettings, LothEngine};
use loth::spicedb::rebac::RebacDecision;
use loth::spicedb::schema::SchemaMode;
use loth::types::{AuthError, CedarContext, CedarContextBuilder};

const POLICIES: &str = r#"
    permit(principal, action == Action::"read", resource)
    when {
        context.is_structural_allowed &&
        context.clearance == "secret" &&
        context.is_onsite &&
        context.level >= 3
    };
"#;

struct IntelContext<'a> {
    clearance: &'a str,
    is_onsite: bool,
    level: i64,
}

impl<'a> CedarContext<'a> for IntelContext<'a> {
    fn write_to(&self, out: &mut CedarContextBuilder<'a>) -> Result<(), AuthError> {
        out.insert_str("clearance", self.clearance);
        out.insert_bool("is_onsite", self.is_onsite);
        out.insert_i64("level", self.level);
        Ok(())
    }
}

struct BrokenContext;

impl<'a> CedarContext<'a> for BrokenContext {
    fn write_to(&self, out: &mut CedarContextBuilder<'a>) -> Result<(), AuthError> {
        out.insert_bool("half", true);
        Err(AuthError::validation("no context".to_string()))
    }
}

fn engine(policies: Option<&str>) -> LothEngine {
    LothEngine::new("definition user {}".to_string(), policies, EngineSettings::default())
        .expect("engine")
}

fn fatal() -> AuthError {
    AuthError::spicedb_status("write_relationships", "down".to_string())
}

fn ask(engine: &LothEngine, reply: i32, context: &IntelContext<'_>) -> bool {
    engine
        .check_permission_with_context(Ok(reply), "alice", "read", "doc", "d1", Some(context))
        .expect("decision")
}

#[test]
fn default_settings_verify_and_fail_closed() {
    let s = EngineSettings::default();
    assert_eq!(s.schema_mode, SchemaMode::VerifyOnly);
    assert!(s.enable_replication_fail_closed);
}

#[test]
fn rebac_and_abac_are_fused() {
    let e = engine(Some(POLICIES));
    let valid = IntelContext { clearance: "secret", is_onsite: true, level: 3 };
    let invalid = IntelContext { is_onsite: false, ..valid };
    assert!(ask(&e, 2, &valid));
    assert!(!ask(&e, 2, &invalid));
    assert!(!ask(&e, 1, &valid));
    assert!(!ask(&e, 2, &IntelContext { clearance: "secret", is_onsite: true, level: 2 }));
    assert!(!ask(&e, 2, &IntelContext { clearance: "public", is_onsite: true, level: 3 }));
}

#[test]
fn cedar_cannot_grant_what_rebac_denies() {
    let e = engine(Some("permit(principal, action, resource);"));
    let any = IntelContext { clearance: "", is_onsite: false, level: 0 };
    assert!(!ask(&e, 1, &any));
    assert!(ask(&e, 2, &any));
    assert!(ask(&e, 3, &any));
    let unless = "permit(principal, action, resource) unless { context.is_structural_allowed };";
    assert!(!ask(&engine(Some(unless)), 1, &any));
    assert!(!ask(&engine(Some(unless)), 2, &any));
    let attributes = CedarContextBuilder::with_capacity(0);
    let decide = |d| e.decide(d, "u", "a", "t", "i", Some(&attributes)).unwrap();
    assert!(!decide(RebacDecision::Denied));
    assert!(decide(RebacDecision::Allowed));
    assert!(e.decide(RebacDecision::Denied, "a\"b", "a", "t", "i", Some(&attributes)).is_err());
}

#[test]
fn conditional_counts_as_allowed() {
    let valid = IntelContext { clearance: "secret", is_onsite: true, level: 3 };
    assert!(ask(&engine(Some(POLICIES)), 3, &valid));
    assert!(is_structurally_allowed(RebacDecision::Conditional));
    assert!(is_structurally_allowed(RebacDecision::Allowed));
    assert!(!is_structurally_allowed(RebacDecision::Denied));
}

#[test]
fn without_policies_the_context_is_ignored() {
    let e = engine(None);
    let any = IntelContext { clearance: "", is_onsite: false, level: 0 };
    assert!(ask(&e, 2, &any));
    assert!(!ask(&e, 1, &any));
    let r = e.check_permission_with_context(Ok(2), "a\"b", "read", "doc", "d1", Some(&BrokenContext));
    assert!(r.expect("ignored"));
}

#[test]
fn without_a_context_rebac_decides() {
    let e = engine(Some("forbid(principal, action, resource);"));
    assert!(e.check_permission_reply(Ok(2)).unwrap());
    assert!(e.check_permission_reply(Ok(3)).unwrap());
    assert!(!e.check_permission_reply(Ok(1)).unwrap());
    let r = e.check_permission_with_context::<()>(Ok(2), "a\"b", "read", "doc", "d1", None);
    assert!(r.unwrap());
}

#[test]
fn empty_context_reaches_the_policies() {
    let e = engine(Some("permit(principal, action, resource) when { context.is_structural_allowed };"));
    let unit = ();
    let ask = |reply| e.check_permission_with_context(Ok(reply), "u", "a", "t", "i", Some(&unit));
    assert!(ask(2).unwrap());
    assert!(!ask(1).unwrap());
}

#[test]
fn error_of_the_context_comes_through() {
    let e = engine(Some(POLICIES));
    let r = e.check_permission_with_context(Ok(2), "u", "read", "doc", "d1", Some(&BrokenContext));
    assert_eq!(r.unwrap_err().to_text(), "Invalid input: no context");
}

#[test]
fn failed_check_is_an_error() {
    let e = engine(Some(POLICIES));
    let valid = IntelContext { clearance: "secret", is_onsite: true, level: 3 };
    let r = e.check_permission_with_context(
        Err("down".to_string()), "u", "read", "doc", "d1", Some(&valid),
    );
    assert_eq!(r.unwrap_err().to_text(), "SpiceDB gRPC status while check_permission: down");
    let r = e.check_permission_with_context(Ok(0), "u", "read", "doc", "d1", Some(&valid));
    assert!(matches!(r, Err(AuthError::SpiceDbProtocol { .. })));
    assert!(e.check_permission_reply(Err("down".to_string())).is_err());
}

#[test]
fn bad_user_is_an_error_with_policies() {
    let e = engine(Some(POLICIES));
    let valid = IntelContext { clearance: "secret", is_onsite: true, level: 3 };
    let r = e.check_permission_with_context(Ok(2), "a\"b", "read", "doc", "d1", Some(&valid));
    assert!(matches!(r, Err(AuthError::ValidationError { .. })));
}

#[test]
fn broken_replication_refuses_everything() {
    let e = engine(None);
    let f = fatal();
    let message = "SpiceDB protocol/validation error while check_permission: replication is in \
                   fatal state: SpiceDB gRPC status while write_relationships: down";
    let errors = [
        e.fail_closed_if_replication_broken(Some(&f)).unwrap_err(),
        e.check_permission(Some(&f), "u", "a", "t", "i").unwrap_err(),
        e.register_relation(Some(&f), "t", "i", "r", "s", "j").unwrap_err(),
        e.revoke_relation(Some(&f), "t", "i", "r", "s", "j").unwrap_err(),
        e.revoke_by_filter(Some(&f), "t", "i", "r", None, None).unwrap_err(),
        e.lookup_resources(Some(&f), "u", "a", "t").unwrap_err(),
    ];
    for error in errors {
        assert_eq!(error.to_text(), message);
    }
}

#[test]
fn broken_replication_may_be_ignored() {
    let settings = EngineSettings { enable_replication_fail_closed: false, ..EngineSettings::default() };
    let e = LothEngine::new(String::new(), None, settings).unwrap();
    assert!(e.fail_closed_if_replication_broken(Some(&fatal())).is_ok());
    assert!(e.check_permission(Some(&fatal()), "u", "a", "t", "i").is_ok());
    assert!(engine(None).fail_closed_if_replication_broken(None).is_ok());
}

#[test]
fn check_request() {
    let request = engine(None).check_permission(None, "alice", "read", "doc", "d1").unwrap();
    assert_eq!(request.permission, "read");
    assert_eq!(request.resource.object_type, "doc");
    assert_eq!(request.resource.object_id, "d1");
    assert_eq!(request.subject.object.object_type, "user");
    assert_eq!(request.subject.object.object_id, "alice");
}

#[test]
fn revocation_names_what_was_registered() {
    let e = engine(None);
    let touch = e.register_relation(None, "project", "p_42", "member", "user", "u_1").unwrap();
    let delete = e.revoke_relation(None, "project", "p_42", "member", "user", "u_1").unwrap();
    assert_eq!(touch.updates.len(), 1);
    assert_eq!(delete.updates.len(), 1);
    assert_eq!(touch.updates[0].operation, 2);
    assert_eq!(delete.updates[0].operation, 3);
    assert_eq!(
        format!("{:?}", touch.updates[0].relationship),
        format!("{:?}", delete.updates[0].relationship)
    );
    assert_eq!(touch.updates[0].relationship.resource.object_id, "p_42");
}

#[test]
fn revocation_filters() {
    let e = engine(None);
    let all = e.revoke_by_filter(None, "doc", "d1", "reader", None, Some("ignored")).unwrap();
    assert_eq!(all.resource_type, "doc");
    assert_eq!(all.optional_resource_id, "d1");
    assert_eq!(all.optional_relation, "reader");
    assert!(all.optional_subject_filter.is_none());
    let users = e.revoke_by_filter(None, "doc", "d1", "reader", Some("user"), None).unwrap();
    let filter = users.optional_subject_filter.expect("filter");
    assert_eq!(filter.subject_type, "user");
    assert_eq!(filter.optional_subject_id, "");
    assert!(filter.optional_relation.is_none());
    let one = e.revoke_by_filter(None, "doc", "d1", "reader", Some("user"), Some("u1")).unwrap();
    assert_eq!(one.optional_subject_filter.expect("filter").optional_subject_id, "u1");
}

#[test]
fn lookup_request() {
    let request = engine(None).lookup_resources(None, "alice", "read", "doc").unwrap();
    assert_eq!(request.resource_object_type, "doc");
    assert_eq!(request.permission, "read");
    assert_eq!(request.subject.object.object_id, "alice");
}

#[test]
fn policies_are_replaced() {
    let e = engine(None);
    assert_eq!(e.zed_schema(), "definition user {}");
    let valid = IntelContext { clearance: "secret", is_onsite: true, level: 3 };
    let strict = e.update_cedar_policies(Some("forbid(principal, action, resource);")).unwrap();
    assert!(!ask(&strict, 2, &valid));
    assert_eq!(strict.zed_schema(), "definition user {}");
    assert!(strict.fail_closed_if_replication_broken(Some(&fatal())).is_err());
    let open = strict.update_cedar_policies(None).unwrap();
    assert!(ask(&open, 2, &valid));
    assert!(matches!(
        open.update_cedar_policies(Some("permit(")),
        Err(AuthError::CedarValidation { .. })
    ));
}

#[test]
fn bad_policies_make_no_engine() {
    let r = LothEngine::new(String::new(), Some("permit("), EngineSettings::default());
    assert!(matches!(r, Err(AuthError::CedarValidation { .. })));
}
