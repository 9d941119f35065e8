//! ReBAC over SpiceDB: which request each operation sends, and what the reply
//! to it means. Sending is the caller's part.
//!
//! A reply is the plain content of the protocol's reply, or the text of the
//! gRPC status with which the call failed.

use vstd::prelude::*;

use crate::spicedb::messages::{
    updates_view, CheckPermissionRequest, CheckPermissionRequestView, DeleteRelationshipsRequest,
    DeleteRelationshipsRequestView, LookupResourcesRequest, LookupResourcesRequestView,
    ObjectReference, ObjectReferenceView, Relationship, RelationshipUpdate, RelationshipUpdateView,
    RelationshipView, SubjectFilterMessage, SubjectFilterMessageView, SubjectReference,
    SubjectReferenceView, WriteRelationshipsRequest,
};
use crate::types::{outcome, AuthError, AuthErrorView};

verus! {

/// The structural answer to a permission check.
#[derive(Debug, Clone, Copy, PartialEq, Eq)]
pub enum RebacDecision {
    /// Granted.
    Allowed,
    /// Denied.
    Denied,
    /// Depends on a context that SpiceDB was not given.
    Conditional,
}

/// What a write does to a relationship.
#[derive(Debug, Clone, Copy)]
pub enum RelationshipOp {
    /// Creates it; fails if it exists.
    Create,
    /// Creates it, or leaves it if it exists.
    Touch,
    /// Deletes it.
    Delete,
}

impl RelationshipOp {
    /// The protocol's number for the operation.
    pub open spec fn code(self) -> i32 {
        match self {
            RelationshipOp::Create => 1,
            RelationshipOp::Touch => 2,
            RelationshipOp::Delete => 3,
        }
    }

    /// The protocol's number for the operation.
    pub fn to_proto_i32(self) -> (code: i32)
        ensures
            code == self.code(),
    {
        match self {
            RelationshipOp::Create => 1,
            RelationshipOp::Touch => 2,
            RelationshipOp::Delete => 3,
        }
    }
}

/// The subjects to which a deletion is limited.
#[derive(Debug, Clone, Copy)]
pub struct SubjectFilter<'a> {
    /// The namespace of the subject.
    pub subject_type: &'a str,
    /// The identifier of the subject, if it matters.
    pub subject_id: Option<&'a str>,
    /// The relation on the subject, if it matters.
    pub relation: Option<&'a str>,
}

/// The object with a type and an identifier.
pub open spec fn object_view(object_type: Seq<char>, object_id: Seq<char>) -> ObjectReferenceView {
    ObjectReferenceView { object_type, object_id }
}

/// The subject that is an object itself.
pub open spec fn subject_view(object_type: Seq<char>, object_id: Seq<char>) -> SubjectReferenceView {
    SubjectReferenceView {
        object: object_view(object_type, object_id),
        optional_relation: Seq::empty(),
    }
}

/// The edge between a resource and a subject.
pub open spec fn relationship_view(
    resource_type: Seq<char>,
    resource_id: Seq<char>,
    relation: Seq<char>,
    subject_type: Seq<char>,
    subject_id: Seq<char>,
) -> RelationshipView {
    RelationshipView {
        resource: object_view(resource_type, resource_id),
        relation,
        subject: subject_view(subject_type, subject_id),
    }
}

/// The update that does `op` to the edge between a resource and a subject.
pub open spec fn update_view(
    op: RelationshipOp,
    resource_type: Seq<char>,
    resource_id: Seq<char>,
    relation: Seq<char>,
    subject_type: Seq<char>,
    subject_id: Seq<char>,
) -> RelationshipUpdateView {
    RelationshipUpdateView {
        operation: op.code(),
        relationship: relationship_view(
            resource_type,
            resource_id,
            relation,
            subject_type,
            subject_id,
        ),
    }
}

/// The write that does `op` to the edge between a resource and a subject, and
/// nothing else.
pub open spec fn write_relationship_view(
    op: RelationshipOp,
    resource_type: Seq<char>,
    resource_id: Seq<char>,
    relation: Seq<char>,
    subject_type: Seq<char>,
    subject_id: Seq<char>,
) -> Seq<RelationshipUpdateView> {
    seq![update_view(op, resource_type, resource_id, relation, subject_type, subject_id)]
}

/// The message for a filter: what does not matter is left empty.
pub open spec fn subject_filter_view(filter: Option<SubjectFilter>) -> Option<
    SubjectFilterMessageView,
> {
    match filter {
        Some(f) => Some(
            SubjectFilterMessageView {
                subject_type: f.subject_type@,
                optional_subject_id: match f.subject_id {
                    Some(id) => id@,
                    None => Seq::empty(),
                },
                optional_relation: match f.relation {
                    Some(relation) => Some(relation@),
                    None => None,
                },
            },
        ),
        None => None,
    }
}

/// A failed call, by its operation and its gRPC status.
pub open spec fn status_error(operation: Seq<char>, status: Seq<char>) -> AuthErrorView {
    AuthErrorView::SpiceDbStatus { operation, status }
}

fn object(object_type: &str, object_id: &str) -> (r: ObjectReference)
    ensures
        r@ == object_view(object_type@, object_id@),
{
    ObjectReference { object_type: object_type.to_owned(), object_id: object_id.to_owned() }
}

fn subject(object_type: &str, object_id: &str) -> (r: SubjectReference)
    ensures
        r@ == subject_view(object_type@, object_id@),
{
    SubjectReference { object: object(object_type, object_id), optional_relation: String::new() }
}

/// The update that does `op` to the edge between a resource and a subject.
pub fn relationship_update(
    op: RelationshipOp,
    resource_type: &str,
    resource_id: &str,
    relation: &str,
    subject_type: &str,
    subject_id: &str,
) -> (update: RelationshipUpdate)
    ensures
        update@ == update_view(
            op,
            resource_type@,
            resource_id@,
            relation@,
            subject_type@,
            subject_id@,
        ),
{
    RelationshipUpdate {
        operation: op.to_proto_i32(),
        relationship: Relationship {
            resource: object(resource_type, resource_id),
            relation: relation.to_owned(),
            subject: subject(subject_type, subject_id),
        },
    }
}

/// The question whether a user has a permission on a resource.
pub open spec fn check_permission_view(
    user_id: Seq<char>,
    permission: Seq<char>,
    resource_type: Seq<char>,
    resource_id: Seq<char>,
) -> CheckPermissionRequestView {
    CheckPermissionRequestView {
        resource: object_view(resource_type, resource_id),
        permission,
        subject: subject_view("user"@, user_id),
        with_tracing: false,
    }
}

/// What the protocol's number for a permissionship means: 1 is no permission,
/// 2 is permission, 3 is a conditional permission, and any other number is
/// unspecified.
pub open spec fn permissionship(number: i32) -> Option<RebacDecision> {
    if number == 1 {
        Some(RebacDecision::Denied)
    } else if number == 2 {
        Some(RebacDecision::Allowed)
    } else if number == 3 {
        Some(RebacDecision::Conditional)
    } else {
        None
    }
}

/// The answer that a reply to a permission check gives.
pub open spec fn check_permission_answer(reply: Result<i32, String>) -> Result<
    RebacDecision,
    AuthErrorView,
> {
    match reply {
        Ok(number) => match permissionship(number) {
            Some(decision) => Ok(decision),
            None => Err(
                AuthErrorView::SpiceDbProtocol {
                    operation: "check_permission"@,
                    message: "unknown permissionship returned by server"@,
                },
            ),
        },
        Err(status) => Err(status_error("check_permission"@, status@)),
    }
}

/// The deletion of the relationships of a resource with a relation.
pub open spec fn delete_relationships_view(
    resource_type: Seq<char>,
    resource_id: Seq<char>,
    relation: Seq<char>,
    filter: Option<SubjectFilterMessageView>,
) -> DeleteRelationshipsRequestView {
    DeleteRelationshipsRequestView {
        resource_type,
        optional_resource_id: resource_id,
        optional_resource_id_prefix: Seq::empty(),
        optional_relation: relation,
        optional_subject_filter: filter,
    }
}

/// The question on which resources of a type a user has a permission.
pub open spec fn lookup_resources_view(
    user_id: Seq<char>,
    permission: Seq<char>,
    resource_type: Seq<char>,
) -> LookupResourcesRequestView {
    LookupResourcesRequestView {
        resource_object_type: resource_type,
        permission,
        subject: subject_view("user"@, user_id),
    }
}

/// The operations of ReBAC: the request that each sends, and what the reply
/// to it means.
pub struct Rebac {}

impl Rebac {
    /// The request that applies a batch of updates in one transaction; an empty
    /// batch needs none.
    pub fn write_relationships_batch(updates: Vec<RelationshipUpdate>) -> (request: Option<
        WriteRelationshipsRequest,
    >)
        ensures
            request is None <==> updates@.len() == 0,
            request matches Some(req) ==> req.updates == updates && req@ == updates_view(updates@),
    {
        if updates.len() == 0 {
            None
        } else {
            Some(WriteRelationshipsRequest { updates })
        }
    }

    /// What the reply to a [`WriteRelationshipsRequest`] means.
    pub fn write_relationships_reply(reply: Result<(), String>) -> (r: Result<(), AuthError>)
        ensures
            match reply {
                Ok(_) => r is Ok,
                Err(status) => outcome(r) == Err::<(), AuthErrorView>(
                    status_error("write_relationships"@, status@),
                ),
            },
    {
        match reply {
            Ok(_) => Ok(()),
            Err(status) => Err(AuthError::spicedb_status("write_relationships", status)),
        }
    }

    /// The request that asks whether a user has a permission on a resource.
    pub fn check_permission(
        user_id: &str,
        permission: &str,
        resource_type: &str,
        resource_id: &str,
    ) -> (request: CheckPermissionRequest)
        ensures
            request@ == check_permission_view(user_id@, permission@, resource_type@, resource_id@),
    {
        CheckPermissionRequest {
            resource: object(resource_type, resource_id),
            permission: permission.to_owned(),
            subject: subject("user", user_id),
            with_tracing: false,
        }
    }

    /// What the reply to a [`CheckPermissionRequest`] means. `reply` is the number
    /// of the permissionship.
    ///
    /// # Errors
    ///
    /// A failed call, and a permissionship that is unspecified or unknown.
    pub fn check_permission_reply(reply: Result<i32, String>) -> (r: Result<RebacDecision, AuthError>)
        ensures
            outcome(r) == check_permission_answer(reply),
    {
        match reply {
            Ok(number) => {
                if number == 1 {
                    Ok(RebacDecision::Denied)
                } else if number == 2 {
                    Ok(RebacDecision::Allowed)
                } else if number == 3 {
                    Ok(RebacDecision::Conditional)
                } else {
                    Err(
                        AuthError::spicedb_protocol(
                            "check_permission",
                            "unknown permissionship returned by server".to_owned(),
                        ),
                    )
                }
            },
            Err(status) => Err(AuthError::spicedb_status("check_permission", status)),
        }
    }

    /// The request that does `op` to one relationship.
    pub fn write_relationship(
        op: RelationshipOp,
        resource_type: &str,
        resource_id: &str,
        relation: &str,
        subject_type: &str,
        subject_id: &str,
    ) -> (request: WriteRelationshipsRequest)
        ensures
            request@ == write_relationship_view(
                op,
                resource_type@,
                resource_id@,
                relation@,
                subject_type@,
                subject_id@,
            ),
    {
        let mut updates: Vec<RelationshipUpdate> = Vec::new();
        updates.push(
            relationship_update(op, resource_type, resource_id, relation, subject_type, subject_id),
        );
        WriteRelationshipsRequest { updates }
    }

    /// The request that deletes the relationships of a resource with a relation,
    /// limited to some subjects or not.
    pub fn delete_relationships(
        resource_type: &str,
        resource_id: &str,
        relation: &str,
        subject_filter: Option<SubjectFilter<'_>>,
    ) -> (request: DeleteRelationshipsRequest)
        ensures
            request@ == delete_relationships_view(
                resource_type@,
                resource_id@,
                relation@,
                subject_filter_view(subject_filter),
            ),
    {
        let filter = match subject_filter {
            Some(f) => Some(
                SubjectFilterMessage {
                    subject_type: f.subject_type.to_owned(),
                    optional_subject_id: match f.subject_id {
                        Some(id) => id.to_owned(),
                        None => String::new(),
                    },
                    optional_relation: match f.relation {
                        Some(r) => Some(r.to_owned()),
                        None => None,
                    },
                },
            ),
            None => None,
        };
        DeleteRelationshipsRequest {
            resource_type: resource_type.to_owned(),
            optional_resource_id: resource_id.to_owned(),
            optional_resource_id_prefix: String::new(),
            optional_relation: relation.to_owned(),
            optional_subject_filter: filter,
        }
    }

    /// What the reply to a [`DeleteRelationshipsRequest`] means: the number of
    /// relationships deleted.
    pub fn delete_relationships_reply(reply: Result<u64, String>) -> (r: Result<u64, AuthError>)
        ensures
            match reply {
                Ok(count) => r == Ok::<u64, AuthError>(count),
                Err(status) => outcome(r) == Err::<u64, AuthErrorView>(
                    status_error("delete_relationships"@, status@),
                ),
            },
    {
        match reply {
            Ok(count) => Ok(count),
            Err(status) => Err(AuthError::spicedb_status("delete_relationships", status)),
        }
    }

    /// The request that asks on which resources of a type a user has a permission.
    pub fn lookup_resources(user_id: &str, permission: &str, resource_type: &str) -> (request:
        LookupResourcesRequest)
        ensures
            request@ == lookup_resources_view(user_id@, permission@, resource_type@),
    {
        LookupResourcesRequest {
            resource_object_type: resource_type.to_owned(),
            permission: permission.to_owned(),
            subject: subject("user", user_id),
        }
    }
}

/// The identifiers that a lookup has given so far.
///
/// The reply to a [`LookupResourcesRequest`] is a stream: each item goes to
/// [`ResourceLookup::item`], and the end of the stream is
/// [`ResourceLookup::finish`].
#[derive(Debug)]
pub struct ResourceLookup {
    /// The identifiers, in the order of the stream.
    pub ids: Vec<String>,
}

impl ResourceLookup {
    /// Begins with the reply to the call itself.
    ///
    /// # Errors
    ///
    /// A failed call.
    pub fn start(reply: Result<(), String>) -> (r: Result<ResourceLookup, AuthError>)
        ensures
            match reply {
                Ok(_) => r is Ok && r->Ok_0.ids@ == Seq::<String>::empty(),
                Err(status) => r is Err && r->Err_0@ == status_error("lookup_resources"@, status@),
            },
    {
        match reply {
            Ok(_) => Ok(ResourceLookup { ids: Vec::new() }),
            Err(status) => Err(AuthError::spicedb_status("lookup_resources", status)),
        }
    }

    /// Takes the next item of the stream: an identifier, or the status with
    /// which the stream broke.
    ///
    /// # Errors
    ///
    /// A broken stream; what was collected stays as it was.
    pub fn item(&mut self, item: Result<String, String>) -> (r: Result<(), AuthError>)
        ensures
            match item {
                Ok(id) => r is Ok && final(self).ids@ == old(self).ids@.push(id),
                Err(status) => {
                    &&& r is Err
                    &&& r->Err_0@ == status_error("lookup_resources(stream)"@, status@)
                    &&& *final(self) == *old(self)
                },
            },
    {
        match item {
            Ok(id) => {
                self.ids.push(id);
                Ok(())
            },
            Err(status) => Err(AuthError::spicedb_status("lookup_resources(stream)", status)),
        }
    }

    /// Ends the lookup with all identifiers that the stream gave.
    pub fn finish(self) -> (ids: Vec<String>)
        ensures
            ids == self.ids,
    {
        self.ids
    }
}

/// Two updates are the same only if they do the same to the same edge: an edge
/// is known by its five parts, and an operation by its number.
pub proof fn law_updates_are_told_apart(
    op1: RelationshipOp,
    edge1: (Seq<char>, Seq<char>, Seq<char>, Seq<char>, Seq<char>),
    op2: RelationshipOp,
    edge2: (Seq<char>, Seq<char>, Seq<char>, Seq<char>, Seq<char>),
)
    ensures
        update_view(op1, edge1.0, edge1.1, edge1.2, edge1.3, edge1.4) == update_view(
            op2,
            edge2.0,
            edge2.1,
            edge2.2,
            edge2.3,
            edge2.4,
        ) <==> op1 == op2 && edge1 == edge2,
{
    let r1 = relationship_view(edge1.0, edge1.1, edge1.2, edge1.3, edge1.4);
    let r2 = relationship_view(edge2.0, edge2.1, edge2.2, edge2.3, edge2.4);
    if r1 == r2 {
        assert(r1.resource.object_type == r2.resource.object_type);
        assert(r1.subject.object.object_type == r2.subject.object.object_type);
    }
}

/// An update names the resource, the relation and the subject that it was given,
/// whatever they are. The subject is the object itself, not a relation on it.
pub proof fn law_update_names_its_edge(
    op: RelationshipOp,
    resource_type: &str,
    resource_id: &str,
    relation: &str,
    subject_type: &str,
    subject_id: &str,
    update: RelationshipUpdate,
)
    requires
        call_ensures(
            relationship_update,
            (op, resource_type, resource_id, relation, subject_type, subject_id),
            update,
        ),
    ensures
        update.relationship.resource.object_type@ == resource_type@,
        update.relationship.resource.object_id@ == resource_id@,
        update.relationship.relation@ == relation@,
        update.relationship.subject.object.object_type@ == subject_type@,
        update.relationship.subject.object.object_id@ == subject_id@,
        update.relationship.subject.optional_relation@.len() == 0,
        op is Create ==> update.operation == 1,
        op is Touch ==> update.operation == 2,
        op is Delete ==> update.operation == 3,
{
    assert(update@.relationship == update.relationship@);
}

/// A write of one relationship holds one update, which names the resource, the
/// relation and the subject that it was given, whatever they are. The subject is
/// the object itself, not a relation on it.
pub proof fn law_write_names_its_edge(
    op: RelationshipOp,
    resource_type: &str,
    resource_id: &str,
    relation: &str,
    subject_type: &str,
    subject_id: &str,
    request: WriteRelationshipsRequest,
)
    requires
        call_ensures(
            Rebac::write_relationship,
            (op, resource_type, resource_id, relation, subject_type, subject_id),
            request,
        ),
    ensures
        request.updates@.len() == 1,
        request.updates@[0].relationship.resource.object_type@ == resource_type@,
        request.updates@[0].relationship.resource.object_id@ == resource_id@,
        request.updates@[0].relationship.relation@ == relation@,
        request.updates@[0].relationship.subject.object.object_type@ == subject_type@,
        request.updates@[0].relationship.subject.object.object_id@ == subject_id@,
        request.updates@[0].relationship.subject.optional_relation@.len() == 0,
        op is Create ==> request.updates@[0].operation == 1,
        op is Touch ==> request.updates@[0].operation == 2,
        op is Delete ==> request.updates@[0].operation == 3,
{
    assert(request@.len() == 1);
    assert(request@[0] == request.updates@[0]@);
}

/// A batch is sent as it is, and only an empty one is not sent.
pub proof fn law_batch_is_sent_whole(
    updates: Vec<RelationshipUpdate>,
    request: Option<WriteRelationshipsRequest>,
)
    requires
        call_ensures(Rebac::write_relationships_batch, (updates,), request),
    ensures
        request is None <==> updates@.len() == 0,
        request matches Some(req) ==> req.updates@ == updates@,
{
}

/// A permission check asks about the permission of a user on a resource: the
/// subject is the user itself, and the resource and the permission are those given.
pub proof fn law_check_asks_what_it_was_given(
    user_id: &str,
    permission: &str,
    resource_type: &str,
    resource_id: &str,
    request: CheckPermissionRequest,
)
    requires
        call_ensures(
            Rebac::check_permission,
            (user_id, permission, resource_type, resource_id),
            request,
        ),
    ensures
        request.resource.object_type@ == resource_type@,
        request.resource.object_id@ == resource_id@,
        request.permission@ == permission@,
        request.subject.object.object_type@ == "user"@,
        request.subject.object.object_id@ == user_id@,
        request.subject.optional_relation@.len() == 0,
        !request.with_tracing,
{
    assert(request@.resource == request.resource@);
    assert(request@.subject == request.subject@);
}

/// A lookup asks for the resources of a type on which a user has a permission:
/// the subject is the user itself, and the type and the permission are those given.
pub proof fn law_lookup_asks_what_it_was_given(
    user_id: &str,
    permission: &str,
    resource_type: &str,
    request: LookupResourcesRequest,
)
    requires
        call_ensures(Rebac::lookup_resources, (user_id, permission, resource_type), request),
    ensures
        request.resource_object_type@ == resource_type@,
        request.permission@ == permission@,
        request.subject.object.object_type@ == "user"@,
        request.subject.object.object_id@ == user_id@,
        request.subject.optional_relation@.len() == 0,
{
    assert(request@.subject == request.subject@);
}

/// A lookup and a check by one user ask about one subject, whatever the
/// permission, the type and the resource are.
pub proof fn law_lookup_and_check_ask_about_one_subject(
    user_id: &str,
    looked_up: (&str, &str),
    checked: (&str, &str, &str),
    lookup: LookupResourcesRequest,
    check: CheckPermissionRequest,
)
    requires
        call_ensures(Rebac::lookup_resources, (user_id, looked_up.0, looked_up.1), lookup),
        call_ensures(
            Rebac::check_permission,
            (user_id, checked.0, checked.1, checked.2),
            check,
        ),
    ensures
        lookup.subject.object.object_type@ == check.subject.object.object_type@,
        lookup.subject.object.object_id@ == check.subject.object.object_id@,
        lookup.subject.optional_relation@ == check.subject.optional_relation@,
{
    assert(lookup@.subject == lookup.subject@);
    assert(check@.subject == check.subject@);
}

/// A deletion is limited to the resource, the relation and the subjects that it
/// was given. The subject's identifier is left open only where none was given,
/// whatever the type of the subject is, and so is the relation on the subject.
pub proof fn law_deletion_is_limited_as_asked(
    resource_type: &str,
    resource_id: &str,
    relation: &str,
    subject_filter: Option<SubjectFilter<'_>>,
    request: DeleteRelationshipsRequest,
)
    requires
        call_ensures(
            Rebac::delete_relationships,
            (resource_type, resource_id, relation, subject_filter),
            request,
        ),
    ensures
        request.resource_type@ == resource_type@,
        request.optional_resource_id@ == resource_id@,
        request.optional_resource_id_prefix@.len() == 0,
        request.optional_relation@ == relation@,
        request.optional_subject_filter is Some <==> subject_filter is Some,
        subject_filter matches Some(asked) ==> {
            let sent = request.optional_subject_filter->0;
            &&& sent.subject_type@ == asked.subject_type@
            &&& asked.subject_id matches Some(id) ==> sent.optional_subject_id@ == id@
            &&& asked.subject_id is None ==> sent.optional_subject_id@.len() == 0
            &&& asked.relation matches Some(r) ==> sent.optional_relation is Some
                && sent.optional_relation->0@ == r@
            &&& asked.relation is None ==> sent.optional_relation is None
        },
{
    if request.optional_subject_filter is Some {
        let sent = request.optional_subject_filter->0;
        assert(request@.optional_subject_filter == Some(sent@));
    }
}

/// Deletions for two identifiers differ, whatever the type of the subject is:
/// one subject's relationships are not deleted in place of another's.
pub proof fn law_deletions_of_different_subjects_differ(
    resource_type: &str,
    resource_id: &str,
    relation: &str,
    one: SubjectFilter<'_>,
    other: SubjectFilter<'_>,
    first: DeleteRelationshipsRequest,
    second: DeleteRelationshipsRequest,
)
    requires
        one.subject_id is Some && other.subject_id is Some,
        one.subject_id->0@ != other.subject_id->0@,
        call_ensures(
            Rebac::delete_relationships,
            (resource_type, resource_id, relation, Some(one)),
            first,
        ),
        call_ensures(
            Rebac::delete_relationships,
            (resource_type, resource_id, relation, Some(other)),
            second,
        ),
    ensures
        first.optional_subject_filter->0.optional_subject_id@
            != second.optional_subject_filter->0.optional_subject_id@,
{
    law_deletion_is_limited_as_asked(resource_type, resource_id, relation, Some(one), first);
    law_deletion_is_limited_as_asked(resource_type, resource_id, relation, Some(other), second);
}

/// A reply to a permission check grants, denies or leaves open by its number
/// alone; any other number, and a failed call, decide nothing.
pub proof fn law_check_reply_means_its_number(
    reply: Result<i32, String>,
    r: Result<RebacDecision, AuthError>,
)
    requires
        call_ensures(Rebac::check_permission_reply, (reply,), r),
    ensures
        r matches Ok(decision) && decision is Denied <==> reply == Ok::<i32, String>(1),
        r matches Ok(decision) && decision is Allowed <==> reply == Ok::<i32, String>(2),
        r matches Ok(decision) && decision is Conditional <==> reply == Ok::<i32, String>(3),
        reply matches Ok(_) ==> (r matches Err(e) ==> {
            &&& e matches AuthError::SpiceDbProtocol { operation, message }
            &&& operation@ == "check_permission"@
            &&& message@ == "unknown permissionship returned by server"@
        }),
        reply matches Err(sent) ==> {
            &&& r matches Err(AuthError::SpiceDbStatus { operation, status })
            &&& operation@ == "check_permission"@
            &&& status@ == sent@
        },
{
}

/// A write succeeds with its call, and a failed call is reported with its status.
pub proof fn law_write_reply_is_that_of_the_call(
    reply: Result<(), String>,
    r: Result<(), AuthError>,
)
    requires
        call_ensures(Rebac::write_relationships_reply, (reply,), r),
    ensures
        r is Ok <==> reply is Ok,
        reply matches Err(sent) ==> {
            &&& r matches Err(AuthError::SpiceDbStatus { operation, status })
            &&& operation@ == "write_relationships"@
            &&& status@ == sent@
        },
{
}

/// A deletion reports the number that SpiceDB gave, or the status of the failed call.
pub proof fn law_delete_reply_is_the_number_deleted(
    reply: Result<u64, String>,
    r: Result<u64, AuthError>,
)
    requires
        call_ensures(Rebac::delete_relationships_reply, (reply,), r),
    ensures
        reply matches Ok(count) ==> r == Ok::<u64, AuthError>(count),
        reply matches Err(sent) ==> {
            &&& r matches Err(AuthError::SpiceDbStatus { operation, status })
            &&& operation@ == "delete_relationships"@
            &&& status@ == sent@
        },
{
}

/// A lookup begins with nothing, adds each item of the stream at the end, and
/// gives all of them: none is lost, doubled or reordered. A broken stream adds
/// nothing and is reported with its status.
pub proof fn law_lookup_gives_what_the_stream_gave(
    reply: Result<(), String>,
    started: Result<ResourceLookup, AuthError>,
    item: Result<String, String>,
    lookup: ResourceLookup,
    ids: Vec<String>,
)
    requires
        call_ensures(ResourceLookup::start, (reply,), started),
        call_ensures(ResourceLookup::finish, (lookup,), ids),
    ensures
        started is Ok <==> reply is Ok,
        started matches Ok(l) ==> l.ids@.len() == 0,
        reply matches Err(sent) ==> {
            &&& started matches Err(AuthError::SpiceDbStatus { operation, status })
            &&& operation@ == "lookup_resources"@
            &&& status@ == sent@
        },
        forall|l: &mut ResourceLookup, r: Result<(), AuthError>| #[trigger]
            call_ensures(ResourceLookup::item, (l, item), r) ==> match item {
                Ok(id) => r is Ok && final(l).ids@ == l.ids@.push(id),
                Err(sent) => {
                    &&& final(l).ids@ == l.ids@
                    &&& r matches Err(AuthError::SpiceDbStatus { operation, status })
                    &&& operation@ == "lookup_resources(stream)"@
                    &&& status@ == sent@
                },
            },
        ids@ == lookup.ids@,
{
}

} // verus!
