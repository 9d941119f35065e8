use loth::spicedb::client::{bearer_token, connect_failed, endpoint};
use loth::spicedb::rebac::{
    relationship_update, Rebac, RebacDecision, RelationshipOp, ResourceLookup, SubjectFilter,
};
use loth::types::AuthError;

#[test]
fn endpoint_is_parsed() {
    let e = endpoint("http://127.0.0.1:50051").expect("endpoint");
    assert_eq!(e.uri().to_string(), "http://127.0.0.1:50051/");
}

#[test]
fn invalid_endpoint_is_refused() {
    let e = endpoint("not a uri").err().expect("error");
    assert!(matches!(e, AuthError::ValidationError { .. }));
    assert_eq!(e.to_text(), "Invalid input: invalid URI");
}

#[test]
fn failed_connection_names_the_endpoint() {
    let e = connect_failed("http://x", "refused".to_string());
    match e {
        AuthError::SpiceDbTransport { operation, endpoint, source } => {
            assert_eq!(operation, "connect");
            assert_eq!(endpoint, "http://x");
            assert_eq!(source, "refused");
        }
        other => panic!("{other:?}"),
    }
}

#[test]
fn bearer_header_has_the_token() {
    let header = bearer_token("foobar").expect("header");
    assert_eq!(header.header_key, "authorization");
    assert_eq!(header.header_value, b"Bearer foobar".to_vec());
    let tab = bearer_token("a\tb").expect("header");
    assert_eq!(tab.header_value, b"Bearer a\tb".to_vec());
    let accent = bearer_token("\u{e9}").expect("header");
    assert_eq!(accent.header_value, b"Bearer \xc3\xa9".to_vec());
    assert_eq!(bearer_token("").unwrap().header_value, b"Bearer ".to_vec());
}

#[test]
fn bearer_header_refuses_control_characters() {
    for bad in ["a\nb", "\r", "\0", "\u{7f}", "\u{1f}"] {
        let e = bearer_token(bad).unwrap_err();
        assert_eq!(e.to_text(), "Invalid input: failed to parse metadata value");
    }
}

#[test]
fn operations_have_protocol_numbers() {
    assert_eq!(RelationshipOp::Create.to_proto_i32(), 1);
    assert_eq!(RelationshipOp::Touch.to_proto_i32(), 2);
    assert_eq!(RelationshipOp::Delete.to_proto_i32(), 3);
}

#[test]
fn write_request_names_the_edge() {
    let request =
        Rebac::write_relationship(RelationshipOp::Create, "tenant", "t1", "member", "user", "u1");
    assert_eq!(request.updates.len(), 1);
    let update = &request.updates[0];
    assert_eq!(update.operation, 1);
    assert_eq!(update.relationship.resource.object_type, "tenant");
    assert_eq!(update.relationship.resource.object_id, "t1");
    assert_eq!(update.relationship.relation, "member");
    assert_eq!(update.relationship.subject.object.object_type, "user");
    assert_eq!(update.relationship.subject.object.object_id, "u1");
    assert_eq!(update.relationship.subject.optional_relation, "");
}

#[test]
fn empty_batch_needs_no_request() {
    assert!(Rebac::write_relationships_batch(Vec::new()).is_none());
    let updates = vec![
        relationship_update(RelationshipOp::Touch, "a", "b", "c", "d", "e"),
        relationship_update(RelationshipOp::Delete, "f", "g", "h", "i", "j"),
    ];
    let request = Rebac::write_relationships_batch(updates).expect("request");
    assert_eq!(request.updates.len(), 2);
    assert_eq!(request.updates[0].operation, 2);
    assert_eq!(request.updates[1].relationship.resource.object_type, "f");
}

#[test]
fn write_reply() {
    assert!(Rebac::write_relationships_reply(Ok(())).is_ok());
    let e = Rebac::write_relationships_reply(Err("down".to_string())).unwrap_err();
    assert_eq!(e.to_text(), "SpiceDB gRPC status while write_relationships: down");
}

#[test]
fn check_request_asks_about_a_user() {
    let request = Rebac::check_permission("alice", "read", "entity_state", "file-742");
    assert_eq!(request.resource.object_type, "entity_state");
    assert_eq!(request.resource.object_id, "file-742");
    assert_eq!(request.permission, "read");
    assert_eq!(request.subject.object.object_type, "user");
    assert_eq!(request.subject.object.object_id, "alice");
    assert_eq!(request.subject.optional_relation, "");
    assert!(!request.with_tracing);
}

#[test]
fn check_reply() {
    assert_eq!(Rebac::check_permission_reply(Ok(1)).unwrap(), RebacDecision::Denied);
    assert_eq!(Rebac::check_permission_reply(Ok(2)).unwrap(), RebacDecision::Allowed);
    assert_eq!(Rebac::check_permission_reply(Ok(3)).unwrap(), RebacDecision::Conditional);
    for unknown in [0, 4, -1, i32::MAX] {
        let e = Rebac::check_permission_reply(Ok(unknown)).unwrap_err();
        assert_eq!(
            e.to_text(),
            "SpiceDB protocol/validation error while check_permission: unknown permissionship returned by server"
        );
    }
    let e = Rebac::check_permission_reply(Err("down".to_string())).unwrap_err();
    assert_eq!(e.to_text(), "SpiceDB gRPC status while check_permission: down");
}

#[test]
fn delete_request_with_filter() {
    let filter = SubjectFilter { subject_type: "user", subject_id: None, relation: Some("member") };
    let request = Rebac::delete_relationships("project", "p_42", "viewer", Some(filter));
    assert_eq!(request.resource_type, "project");
    assert_eq!(request.optional_resource_id, "p_42");
    assert_eq!(request.optional_resource_id_prefix, "");
    assert_eq!(request.optional_relation, "viewer");
    let message = request.optional_subject_filter.expect("filter");
    assert_eq!(message.subject_type, "user");
    assert_eq!(message.optional_subject_id, "");
    assert_eq!(message.optional_relation.as_deref(), Some("member"));
    assert!(Rebac::delete_relationships("a", "b", "c", None).optional_subject_filter.is_none());
}

#[test]
fn delete_reply() {
    assert_eq!(Rebac::delete_relationships_reply(Ok(u64::MAX)).unwrap(), u64::MAX);
    let e = Rebac::delete_relationships_reply(Err("down".to_string())).unwrap_err();
    assert_eq!(e.to_text(), "SpiceDB gRPC status while delete_relationships: down");
}

#[test]
fn lookup_collects_in_order() {
    let request = Rebac::lookup_resources("alice", "read", "entity_state");
    assert_eq!(request.resource_object_type, "entity_state");
    assert_eq!(request.permission, "read");
    assert_eq!(request.subject.object.object_id, "alice");
    let mut lookup = ResourceLookup::start(Ok(())).expect("stream");
    lookup.item(Ok("b".to_string())).expect("item");
    lookup.item(Ok("a".to_string())).expect("item");
    lookup.item(Ok("b".to_string())).expect("item");
    assert_eq!(lookup.finish(), vec!["b", "a", "b"]);
}

#[test]
fn lookup_fails_with_the_stream() {
    let e = ResourceLookup::start(Err("down".to_string())).unwrap_err();
    assert_eq!(e.to_text(), "SpiceDB gRPC status while lookup_resources: down");
    let mut lookup = ResourceLookup::start(Ok(())).expect("stream");
    lookup.item(Ok("a".to_string())).expect("item");
    let e = lookup.item(Err("cut".to_string())).unwrap_err();
    assert_eq!(e.to_text(), "SpiceDB gRPC status while lookup_resources(stream): cut");
    assert_eq!(lookup.ids, vec!["a"]);
}
