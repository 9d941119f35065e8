//! The messages of the Authzed API that the crate sends, in plain values.
//!
//! Each struct holds the fields that a request sets; every other field of the
//! protocol message has its default value. Most have a view: the same message
//! over sequences of characters.

use vstd::prelude::*;

verus! {

/// An object, by its type and its identifier.
#[derive(Debug)]
pub struct ObjectReference {
    /// The namespace of the object.
    pub object_type: String,
    /// The identifier of the object in its namespace.
    pub object_id: String,
}

/// The content of an [`ObjectReference`].
pub struct ObjectReferenceView {
    pub object_type: Seq<char>,
    pub object_id: Seq<char>,
}

impl View for ObjectReference {
    type V = ObjectReferenceView;

    open spec fn view(&self) -> ObjectReferenceView {
        ObjectReferenceView { object_type: self.object_type@, object_id: self.object_id@ }
    }
}

/// A subject: an object, or a relation on one.
#[derive(Debug)]
pub struct SubjectReference {
    /// The object.
    pub object: ObjectReference,
    /// The relation on the object; empty for the object itself.
    pub optional_relation: String,
}

/// The content of a [`SubjectReference`].
pub struct SubjectReferenceView {
    pub object: ObjectReferenceView,
    pub optional_relation: Seq<char>,
}

impl View for SubjectReference {
    type V = SubjectReferenceView;

    open spec fn view(&self) -> SubjectReferenceView {
        SubjectReferenceView { object: self.object@, optional_relation: self.optional_relation@ }
    }
}

/// An edge of the relationship graph.
#[derive(Debug)]
pub struct Relationship {
    /// The resource.
    pub resource: ObjectReference,
    /// The relation that connects the resource and the subject.
    pub relation: String,
    /// The subject.
    pub subject: SubjectReference,
}

/// The content of a [`Relationship`].
pub struct RelationshipView {
    pub resource: ObjectReferenceView,
    pub relation: Seq<char>,
    pub subject: SubjectReferenceView,
}

impl View for Relationship {
    type V = RelationshipView;

    open spec fn view(&self) -> RelationshipView {
        RelationshipView {
            resource: self.resource@,
            relation: self.relation@,
            subject: self.subject@,
        }
    }
}

/// A change of one relationship.
#[derive(Debug)]
pub struct RelationshipUpdate {
    /// The protocol's number for the kind of change.
    pub operation: i32,
    /// The relationship that is changed.
    pub relationship: Relationship,
}

/// The content of a [`RelationshipUpdate`].
pub struct RelationshipUpdateView {
    pub operation: i32,
    pub relationship: RelationshipView,
}

impl View for RelationshipUpdate {
    type V = RelationshipUpdateView;

    open spec fn view(&self) -> RelationshipUpdateView {
        RelationshipUpdateView { operation: self.operation, relationship: self.relationship@ }
    }
}

/// The contents of a sequence of updates.
pub open spec fn updates_view(updates: Seq<RelationshipUpdate>) -> Seq<RelationshipUpdateView> {
    updates.map_values(|update: RelationshipUpdate| update@)
}

/// A request to apply updates in one transaction, without preconditions.
#[derive(Debug)]
pub struct WriteRelationshipsRequest {
    /// The updates.
    pub updates: Vec<RelationshipUpdate>,
}

impl View for WriteRelationshipsRequest {
    type V = Seq<RelationshipUpdateView>;

    open spec fn view(&self) -> Seq<RelationshipUpdateView> {
        updates_view(self.updates@)
    }
}

/// A question: does the subject have the permission on the resource?
#[derive(Debug)]
pub struct CheckPermissionRequest {
    /// The resource.
    pub resource: ObjectReference,
    /// The permission.
    pub permission: String,
    /// The subject.
    pub subject: SubjectReference,
    /// Whether the reply should explain itself.
    pub with_tracing: bool,
}

/// The content of a [`CheckPermissionRequest`].
pub struct CheckPermissionRequestView {
    pub resource: ObjectReferenceView,
    pub permission: Seq<char>,
    pub subject: SubjectReferenceView,
    pub with_tracing: bool,
}

impl View for CheckPermissionRequest {
    type V = CheckPermissionRequestView;

    open spec fn view(&self) -> CheckPermissionRequestView {
        CheckPermissionRequestView {
            resource: self.resource@,
            permission: self.permission@,
            subject: self.subject@,
            with_tracing: self.with_tracing,
        }
    }
}

/// The subjects to which a deletion is limited.
#[derive(Debug)]
pub struct SubjectFilterMessage {
    /// The namespace of the subject.
    pub subject_type: String,
    /// The identifier of the subject; empty for any.
    pub optional_subject_id: String,
    /// The relation on the subject; `None` for any.
    pub optional_relation: Option<String>,
}

/// The content of a [`SubjectFilterMessage`].
pub struct SubjectFilterMessageView {
    pub subject_type: Seq<char>,
    pub optional_subject_id: Seq<char>,
    pub optional_relation: Option<Seq<char>>,
}

impl View for SubjectFilterMessage {
    type V = SubjectFilterMessageView;

    open spec fn view(&self) -> SubjectFilterMessageView {
        SubjectFilterMessageView {
            subject_type: self.subject_type@,
            optional_subject_id: self.optional_subject_id@,
            optional_relation: match self.optional_relation {
                Some(relation) => Some(relation@),
                None => None,
            },
        }
    }
}

/// A request to delete the relationships that match, without preconditions.
#[derive(Debug)]
pub struct DeleteRelationshipsRequest {
    /// The namespace of the resource.
    pub resource_type: String,
    /// The identifier of the resource; empty for any.
    pub optional_resource_id: String,
    /// A prefix of the identifier of the resource; empty for any.
    pub optional_resource_id_prefix: String,
    /// The relation; empty for any.
    pub optional_relation: String,
    /// The subjects; `None` for any.
    pub optional_subject_filter: Option<SubjectFilterMessage>,
}

/// The content of a [`DeleteRelationshipsRequest`].
pub struct DeleteRelationshipsRequestView {
    pub resource_type: Seq<char>,
    pub optional_resource_id: Seq<char>,
    pub optional_resource_id_prefix: Seq<char>,
    pub optional_relation: Seq<char>,
    pub optional_subject_filter: Option<SubjectFilterMessageView>,
}

impl View for DeleteRelationshipsRequest {
    type V = DeleteRelationshipsRequestView;

    open spec fn view(&self) -> DeleteRelationshipsRequestView {
        DeleteRelationshipsRequestView {
            resource_type: self.resource_type@,
            optional_resource_id: self.optional_resource_id@,
            optional_resource_id_prefix: self.optional_resource_id_prefix@,
            optional_relation: self.optional_relation@,
            optional_subject_filter: match self.optional_subject_filter {
                Some(filter) => Some(filter@),
                None => None,
            },
        }
    }
}

/// A question: on which resources does the subject have the permission?
#[derive(Debug)]
pub struct LookupResourcesRequest {
    /// The namespace of the resources.
    pub resource_object_type: String,
    /// The permission.
    pub permission: String,
    /// The subject.
    pub subject: SubjectReference,
}

/// The content of a [`LookupResourcesRequest`].
pub struct LookupResourcesRequestView {
    pub resource_object_type: Seq<char>,
    pub permission: Seq<char>,
    pub subject: SubjectReferenceView,
}

impl View for LookupResourcesRequest {
    type V = LookupResourcesRequestView;

    open spec fn view(&self) -> LookupResourcesRequestView {
        LookupResourcesRequestView {
            resource_object_type: self.resource_object_type@,
            permission: self.permission@,
            subject: self.subject@,
        }
    }
}

/// A request for the active schema.
#[derive(Debug)]
pub struct ReadSchemaRequest {}

/// A request to overwrite the schema.
#[derive(Debug)]
pub struct WriteSchemaRequest {
    /// The text of the new schema.
    pub schema: String,
}

} // verus!
