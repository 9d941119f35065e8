use cedar_policy::PolicySet;
use chrono::TimeZone;
use loth::cedar::abac::{
    allows, entity_text, policies_or_error, request_attributes, AbacEngine, STRUCTURAL_KEY,
};
use loth::cedar::authorizer::CedarDecision;
use loth::types::{AuthError, CedarContextBuilder, CedarValueRef, EvaluationContext, Timestamp};

fn context(device_compliant: bool) -> EvaluationContext {
    let noon = chrono::Utc.with_ymd_and_hms(2026, 5, 24, 12, 0, 0).unwrap();
    EvaluationContext {
        ip_address: "203.0.113.10".to_string(),
        timestamp: Timestamp::from_unix(noon.timestamp(), 0).unwrap(),
        device_compliant,
    }
}

fn evaluate(policies: &str, structural: bool, attributes: &CedarContextBuilder<'_>) -> bool {
    AbacEngine::new(policies)
        .expect("engine")
        .evaluate(structural, "u1", "read", "entity", "e1", attributes)
        .expect("cedar")
}

#[test]
fn abac_denies_when_policy_requires_structural_true() {
    let policies = r#"
      permit(principal, action, resource)
      when { context.is_structural_allowed == true };
    "#;

    let engine = AbacEngine::new(policies).expect("engine");

    let ctx = EvaluationContext {
        ip_address: "203.0.113.10".to_string(),
        timestamp: Timestamp::from_unix(
            chrono::Utc.with_ymd_and_hms(2026, 5, 24, 12, 0, 0).unwrap().timestamp(),
            0,
        )
        .expect("timestamp"),
        device_compliant: true,
    };

    let ok = engine
        .is_allowed(false, "u1", "read", "entity", "e1", &ctx)
        .expect("cedar");
    assert!(!ok);
}

#[test]
fn abac_allows_when_structural_is_true() {
    let policies = "permit(principal, action, resource) when { context.is_structural_allowed };";
    let engine = AbacEngine::new(policies).expect("engine");
    assert!(engine.is_allowed(true, "u1", "read", "entity", "e1", &context(true)).unwrap());
}

#[test]
fn clearance_scenario() {
    let policies = r#"
        permit(
            principal == User::"u_1",
            action == Action::"read",
            resource
        )
        when {
            context.is_structural_allowed == true &&
            context.device_compliant == true
        };
    "#;
    let engine = AbacEngine::new(policies).expect("engine");
    let ask = |structural: bool, user: &str, action: &str, compliant: bool| {
        engine
            .is_allowed(structural, user, action, "entity", "ent_7", &context(compliant))
            .unwrap()
    };
    assert!(ask(true, "u_1", "read", true));
    assert!(!ask(true, "u_1", "read", false));
    assert!(!ask(false, "u_1", "read", true));
    assert!(!ask(true, "u_2", "read", true));
    assert!(!ask(true, "u_1", "write", true));
}

#[test]
fn all_context_attributes_reach_the_policy() {
    let policies = r#"
        permit(principal, action, resource == entity::"e1")
        when {
            context.device_compliant == true &&
            context.ip_address == "203.0.113.10" &&
            context.timestamp_rfc3339 == "2026-05-24T12:00:00+00:00" &&
            context.is_structural_allowed == false
        };
    "#;
    let engine = AbacEngine::new(policies).expect("engine");
    assert!(engine.is_allowed(false, "u1", "read", "entity", "e1", &context(true)).unwrap());
    assert!(!engine.is_allowed(false, "u1", "read", "entity", "e2", &context(true)).unwrap());
    assert!(!engine.is_allowed(true, "u1", "read", "entity", "e1", &context(true)).unwrap());
}

#[test]
fn invalid_policies_are_refused() {
    let e = AbacEngine::new("permit(").err().expect("error");
    match &e {
        AuthError::CedarValidation { message } => {
            let errors = "permit(".parse::<PolicySet>().unwrap_err();
            assert_eq!(message, &errors.to_string());
        }
        other => panic!("{other:?}"),
    }
    assert!(e.to_text().starts_with("Cedar validation/parsing error: "));
    let parsed = policies_or_error("permit(".parse());
    assert!(matches!(parsed, Err(AuthError::CedarValidation { .. })));
    let none = policies_or_error("".parse()).expect("no policies");
    assert_eq!(none.policies().count(), 0);
    let two = "permit(principal, action, resource); forbid(principal, action, resource);";
    assert_eq!(policies_or_error(two.parse()).unwrap().policies().count(), 2);
}

#[test]
fn updated_policies_decide() {
    let mut engine = AbacEngine::new("permit(principal, action, resource);").unwrap();
    let ask = |e: &AbacEngine| e.is_allowed(true, "u", "a", "t", "i", &context(true)).unwrap();
    assert!(ask(&engine));
    engine.update_policies("forbid(principal, action, resource);").unwrap();
    assert!(!ask(&engine));
    engine.update_policies("").unwrap();
    assert!(!ask(&engine));
    engine.update_policies("permit(principal, action, resource);").unwrap();
    let refused = engine.update_policies("permit(");
    assert!(matches!(refused, Err(AuthError::CedarValidation { .. })));
    assert!(ask(&engine));
}

#[test]
fn entity_text_quotes_without_escaping() {
    assert_eq!(entity_text("User", "u1"), "User::\"u1\"");
    assert_eq!(entity_text("a::B", ""), "a::B::\"\"");
    assert_eq!(entity_text("T", "a\"b"), "T::\"a\"b\"");
}

#[test]
fn bad_entities_are_refused() {
    let engine = AbacEngine::new("permit(principal, action, resource);").unwrap();
    let ctx = context(true);
    let bad = [
        engine.is_allowed(true, "a\"b", "read", "entity", "e1", &ctx),
        engine.is_allowed(true, "u", "a\"b", "entity", "e1", &ctx),
        engine.is_allowed(true, "u", "read", "no type", "e1", &ctx),
        engine.is_allowed(true, "u", "read", "", "e1", &ctx),
    ];
    for r in bad {
        assert!(matches!(r, Err(AuthError::ValidationError { .. })));
    }
    assert!(engine.is_allowed(true, "", "", "ns::entity", "", &ctx).unwrap());
}

#[test]
fn structural_answer_cannot_be_replaced() {
    let policies = "permit(principal, action, resource) when { context.is_structural_allowed };";
    let mut attributes = CedarContextBuilder::with_capacity(2);
    attributes.insert_bool(STRUCTURAL_KEY, true);
    attributes.insert_bool("is_structural_allowed", true);
    assert!(!evaluate(policies, false, &attributes));
    assert!(evaluate(policies, true, &attributes));
}

#[test]
fn last_attribute_counts() {
    let policies = "permit(principal, action, resource) when { context.hour == 9 };";
    let mut attributes = CedarContextBuilder::with_capacity(2);
    attributes.insert_i64("hour", 1);
    attributes.insert_i64("hour", 9);
    assert!(evaluate(policies, false, &attributes));
    attributes.insert_i64("hour", 2);
    assert!(!evaluate(policies, false, &attributes));
}

#[test]
fn attribute_order_does_not_matter() {
    let policies = r#"permit(principal, action, resource) when { context.a == 1 && context.b == "x" };"#;
    let mut one = CedarContextBuilder::with_capacity(2);
    one.insert_i64("a", 1);
    one.insert_str("b", "x");
    let mut other = CedarContextBuilder::with_capacity(2);
    other.insert_str("b", "x");
    other.insert_i64("a", 1);
    assert!(evaluate(policies, false, &one));
    assert!(evaluate(policies, false, &other));
}

#[test]
fn missing_attribute_denies() {
    let policies = "permit(principal, action, resource) when { context.unknown };";
    assert!(!evaluate(policies, true, &CedarContextBuilder::with_capacity(0)));
    let none = "permit(principal, action, resource) unless { context has ip_address };";
    assert!(evaluate(none, true, &CedarContextBuilder::with_capacity(0)));
}

#[test]
fn request_attributes_hold_each_key_once() {
    let mut attributes = CedarContextBuilder::with_capacity(4);
    attributes.insert_i64("k", 1);
    attributes.insert_str("s", "x");
    attributes.insert_i64("k", 2);
    attributes.insert_bool(STRUCTURAL_KEY, true);
    let pairs = request_attributes(false, &attributes);
    assert_eq!(pairs.len(), 3);
    let value = |key: &str| pairs.iter().find(|p| p.0 == key).map(|p| p.1);
    assert!(matches!(value("k"), Some(CedarValueRef::I64(2))));
    assert!(matches!(value("s"), Some(CedarValueRef::Str("x"))));
    assert!(matches!(value(STRUCTURAL_KEY), Some(CedarValueRef::Bool(false))));
}

#[test]
fn only_allow_allows() {
    assert!(allows(CedarDecision::Allow));
    assert!(!allows(CedarDecision::Deny));
}
