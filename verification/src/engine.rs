//! Fuses SpiceDB ReBAC and Cedar ABAC into one decision.

use cedar_policy::PolicySet;
use vstd::prelude::*;

use crate::cedar::abac::{policies_parse_outcome, request_record, verdict, AbacEngine};
use crate::cedar::authorizer::{parse_errors_text, parsed_policy_set};
use crate::spicedb::messages::{
    CheckPermissionRequest, DeleteRelationshipsRequest, LookupResourcesRequest,
    SubjectFilterMessageView, WriteRelationshipsRequest,
};
use crate::spicedb::rebac::{
    check_permission_answer, check_permission_view, delete_relationships_view,
    law_updates_are_told_apart, lookup_resources_view, write_relationship_view, Rebac,
    RebacDecision, RelationshipOp, SubjectFilter,
};
use crate::spicedb::schema::SchemaMode;
use crate::types::{
    outcome, AuthError, AuthErrorView, CedarContext, CedarContextBuilder, CedarValueView,
};

verus! {

/// How the engine starts and how it treats a broken replication.
#[derive(Debug, Clone, Copy)]
pub struct EngineSettings {
    /// How a difference between the schemas is handled at the start.
    pub schema_mode: SchemaMode,
    /// Whether every operation is refused once the replication is broken.
    pub enable_replication_fail_closed: bool,
}

impl Default for EngineSettings {
    /// Verify the schema, and fail closed.
    fn default() -> (settings: Self)
        ensures
            settings == (EngineSettings {
                schema_mode: SchemaMode::VerifyOnly,
                enable_replication_fail_closed: true,
            }),
    {
        EngineSettings {
            schema_mode: SchemaMode::VerifyOnly,
            enable_replication_fail_closed: true,
        }
    }
}

/// Whether an operation may go on: not if failing closed is enabled and the
/// replication has reported a fatal error.
pub open spec fn replication_gate(enabled: bool, fatal: Option<AuthErrorView>) -> Result<
    (),
    AuthErrorView,
> {
    match fatal {
        Some(error) if enabled => Err(
            AuthErrorView::SpiceDbProtocol {
                operation: "check_permission"@,
                message: "replication is in fatal state: "@ + error.text(),
            },
        ),
        _ => Ok(()),
    }
}

/// The content of an observed error.
pub open spec fn observed(fatal: Option<&AuthError>) -> Option<AuthErrorView> {
    match fatal {
        Some(error) => Some(error@),
        None => None,
    }
}

/// Whether ReBAC lets a request pass: a conditional permission does, for it is
/// left to the policies.
pub open spec fn structurally_allowed(decision: RebacDecision) -> bool {
    decision is Allowed || decision is Conditional
}

/// Whether ReBAC lets a request pass.
pub fn is_structurally_allowed(decision: RebacDecision) -> (r: bool)
    ensures
        r == structurally_allowed(decision),
{
    match decision {
        RebacDecision::Allowed => true,
        RebacDecision::Conditional => true,
        RebacDecision::Denied => false,
    }
}

/// The decision of the engine about a request that ReBAC has answered.
///
/// Where there are policies and a context, Cedar filters what ReBAC allows: the
/// policies know what ReBAC answered, and a request passes only if both let it
/// pass. Without policies the context is ignored, and without a context ReBAC
/// alone decides.
pub open spec fn fused_decision(
    policies: Option<PolicySet>,
    decision: RebacDecision,
    user_id: Seq<char>,
    action: Seq<char>,
    resource_type: Seq<char>,
    resource_id: Seq<char>,
    attributes: Option<Seq<(Seq<char>, CedarValueView)>>,
) -> Result<bool, AuthErrorView> {
    match (policies, attributes) {
        (Some(p), Some(attrs)) => match verdict(
            p,
            user_id,
            action,
            resource_type,
            resource_id,
            request_record(structurally_allowed(decision), attrs),
        ) {
            Ok(allowed) => Ok(allowed && structurally_allowed(decision)),
            Err(e) => Err(e),
        },
        _ => Ok(structurally_allowed(decision)),
    }
}

/// The attributes of an optional builder.
pub open spec fn attributes_of(builder: Option<&CedarContextBuilder>) -> Option<
    Seq<(Seq<char>, CedarValueView)>,
> {
    match builder {
        Some(b) => Some(b@),
        None => None,
    }
}

/// The filter of a deletion: none without a subject type, in which case the
/// identifier does not matter either.
pub open spec fn revocation_filter(
    subject_type: Option<&str>,
    subject_id: Option<&str>,
) -> Option<SubjectFilterMessageView> {
    match subject_type {
        Some(st) => Some(
            SubjectFilterMessageView {
                subject_type: st@,
                optional_subject_id: match subject_id {
                    Some(id) => id@,
                    None => Seq::empty(),
                },
                optional_relation: None,
            },
        ),
        None => None,
    }
}

/// The content of an optional text.
pub open spec fn text_of(text: Option<&str>) -> Option<Seq<char>> {
    match text {
        Some(t) => Some(t@),
        None => None,
    }
}

/// What a policy text makes of the policies: none without a text.
pub open spec fn policies_outcome(dsl: Option<Seq<char>>) -> Result<
    Option<PolicySet>,
    AuthErrorView,
> {
    match dsl {
        None => Ok(None),
        Some(text) => match policies_parse_outcome(parsed_policy_set(text)) {
            Ok(policies) => Ok(Some(policies)),
            Err(e) => Err(e),
        },
    }
}

/// The authorization engine ("Loth").
///
/// It combines ReBAC (SpiceDB) with ABAC (Cedar). An operation first gives the
/// request to send to SpiceDB, or refuses; what the reply means is a second
/// step, here for permission checks and in [`crate::spicedb::rebac`] for the rest.
///
/// `fatal` is, throughout, the fatal error that the replication has reported,
/// if one is watched and has.
pub struct LothEngine {
    abac: Option<AbacEngine>,
    zed_schema: String,
    fail_closed: bool,
}

impl LothEngine {
    /// The Cedar policies, if ABAC is enabled.
    pub closed spec fn policies(&self) -> Option<PolicySet> {
        match self.abac {
            Some(abac) => Some(abac.policies()),
            None => None,
        }
    }

    /// The Zed schema.
    pub closed spec fn schema(&self) -> Seq<char> {
        self.zed_schema@
    }

    /// Whether every operation is refused once the replication is broken.
    pub closed spec fn fails_closed(&self) -> bool {
        self.fail_closed
    }

    /// An engine with a schema, with or without policies.
    ///
    /// # Errors
    ///
    /// A text that is no policy set.
    pub fn new(zed_schema: String, cedar_policies: Option<&str>, settings: EngineSettings) -> (r:
        Result<LothEngine, AuthError>)
        ensures
            match policies_outcome(text_of(cedar_policies)) {
                Ok(policies) => {
                    &&& r is Ok
                    &&& r->Ok_0.policies() == policies
                    &&& r->Ok_0.schema() == zed_schema@
                    &&& r->Ok_0.fails_closed() == settings.enable_replication_fail_closed
                },
                Err(e) => r is Err && r->Err_0@ == e,
            },
    {
        let abac = match cedar_policies {
            Some(dsl) => match AbacEngine::new(dsl) {
                Ok(engine) => Some(engine),
                Err(e) => {
                    return Err(e);
                },
            },
            None => None,
        };
        Ok(LothEngine { abac, zed_schema, fail_closed: settings.enable_replication_fail_closed })
    }

    /// The same engine with other policies, or with none, which disables ABAC.
    ///
    /// # Errors
    ///
    /// A text that is no policy set.
    pub fn update_cedar_policies(&self, new_policies_dsl: Option<&str>) -> (r: Result<
        LothEngine,
        AuthError,
    >)
        ensures
            match policies_outcome(text_of(new_policies_dsl)) {
                Ok(policies) => {
                    &&& r is Ok
                    &&& r->Ok_0.policies() == policies
                    &&& r->Ok_0.schema() == self.schema()
                    &&& r->Ok_0.fails_closed() == self.fails_closed()
                },
                Err(e) => r is Err && r->Err_0@ == e,
            },
    {
        LothEngine::new(
            self.zed_schema.clone(),
            new_policies_dsl,
            EngineSettings {
                schema_mode: SchemaMode::VerifyOnly,
                enable_replication_fail_closed: self.fail_closed,
            },
        )
    }

    /// The active Zed schema.
    pub fn zed_schema(&self) -> (text: &str)
        ensures
            text@ == self.schema(),
    {
        self.zed_schema.as_str()
    }

    /// Refuses if the replication is broken.
    ///
    /// # Errors
    ///
    /// A fatal error of the replication, if the engine fails closed.
    pub fn fail_closed_if_replication_broken(&self, fatal: Option<&AuthError>) -> (r: Result<
        (),
        AuthError,
    >)
        ensures
            outcome(r) == replication_gate(self.fails_closed(), observed(fatal)),
    {
        match fatal {
            Some(error) => {
                if self.fail_closed {
                    let message = "replication is in fatal state: ".to_owned().concat(
                        error.to_text().as_str(),
                    );
                    Err(AuthError::spicedb_protocol("check_permission", message))
                } else {
                    Ok(())
                }
            },
            None => Ok(()),
        }
    }

    /// The request with which a permission check begins.
    ///
    /// # Errors
    ///
    /// A broken replication.
    pub fn check_permission(
        &self,
        fatal: Option<&AuthError>,
        user_id: &str,
        action: &str,
        resource_type: &str,
        resource_id: &str,
    ) -> (r: Result<CheckPermissionRequest, AuthError>)
        ensures
            match replication_gate(self.fails_closed(), observed(fatal)) {
                Ok(_) => r is Ok && r->Ok_0@ == check_permission_view(
                    user_id@,
                    action@,
                    resource_type@,
                    resource_id@,
                ),
                Err(e) => r is Err && r->Err_0@ == e,
            },
    {
        match self.fail_closed_if_replication_broken(fatal) {
            Ok(_) => Ok(Rebac::check_permission(user_id, action, resource_type, resource_id)),
            Err(e) => Err(e),
        }
    }

    /// Ends a permission check by ReBAC only.
    ///
    /// # Errors
    ///
    /// A failed call, or a reply of an unknown kind.
    pub fn check_permission_reply(&self, reply: Result<i32, String>) -> (r: Result<bool, AuthError>)
        ensures
            outcome(r) == match check_permission_answer(reply) {
                Ok(decision) => Ok::<bool, AuthErrorView>(structurally_allowed(decision)),
                Err(e) => Err(e),
            },
    {
        match Rebac::check_permission_reply(reply) {
            Ok(decision) => Ok(is_structurally_allowed(decision)),
            Err(e) => Err(e),
        }
    }

    /// Ends a permission check with a context that the application defines.
    ///
    /// The context is asked for its attributes only if there are policies. What
    /// it writes is its own affair: whatever that is, the result is what
    /// [`LothEngine::decide`] makes of it, or the error that the context gave.
    ///
    /// # Errors
    ///
    /// A failed call, a reply of an unknown kind, an error of the context, and
    /// what Cedar cannot evaluate.
    pub fn check_permission_with_context<'a, C: CedarContext<'a>>(
        &self,
        reply: Result<i32, String>,
        user_id: &str,
        action: &str,
        resource_type: &str,
        resource_id: &str,
        context: Option<&'a C>,
    ) -> (r: Result<bool, AuthError>)
        ensures
            match check_permission_answer(reply) {
                Ok(decision) => if context is None || self.policies() is None {
                    outcome(r) == Ok::<bool, AuthErrorView>(structurally_allowed(decision))
                } else {
                    exists|out: &mut CedarContextBuilder<'a>, wrote: Result<(), AuthError>|
                        {
                            &&& out@ == Seq::<(Seq<char>, CedarValueView)>::empty()
                            &&& #[trigger] call_ensures(C::write_to, (context->0, out), wrote)
                            &&& match wrote {
                                Ok(_) => outcome(r) == fused_decision(
                                    self.policies(),
                                    decision,
                                    user_id@,
                                    action@,
                                    resource_type@,
                                    resource_id@,
                                    Some(final(out)@),
                                ),
                                Err(e) => r == Err::<bool, AuthError>(e),
                            }
                        }
                },
                Err(e) => r is Err && r->Err_0@ == e,
            },
    {
        let decision = match Rebac::check_permission_reply(reply) {
            Ok(decision) => decision,
            Err(e) => {
                return Err(e);
            },
        };
        match context {
            Some(ctx) => {
                if self.abac.is_none() {
                    return self.decide(decision, user_id, action, resource_type, resource_id, None);
                }
                let mut attributes = CedarContextBuilder::with_capacity(8);
                match ctx.write_to(&mut attributes) {
                    Ok(_) => self.decide(
                        decision,
                        user_id,
                        action,
                        resource_type,
                        resource_id,
                        Some(&attributes),
                    ),
                    Err(e) => Err(e),
                }
            },
            None => self.decide(decision, user_id, action, resource_type, resource_id, None),
        }
    }

    /// Decides about a request that ReBAC has answered, with the attributes
    /// that the context of the request has written, if it has one.
    ///
    /// # Errors
    ///
    /// What Cedar cannot evaluate.
    pub fn decide(
        &self,
        decision: RebacDecision,
        user_id: &str,
        action: &str,
        resource_type: &str,
        resource_id: &str,
        attributes: Option<&CedarContextBuilder<'_>>,
    ) -> (r: Result<bool, AuthError>)
        ensures
            outcome(r) == fused_decision(
                self.policies(),
                decision,
                user_id@,
                action@,
                resource_type@,
                resource_id@,
                attributes_of(attributes),
            ),
    {
        let is_structural_allowed = is_structurally_allowed(decision);
        match (&self.abac, attributes) {
            (Some(abac), Some(attrs)) => {
                let filtered = abac.evaluate(
                    is_structural_allowed,
                    user_id,
                    action,
                    resource_type,
                    resource_id,
                    attrs,
                );
                match filtered {
                    Ok(allowed) => Ok(allowed && is_structural_allowed),
                    Err(e) => Err(e),
                }
            },
            _ => Ok(is_structural_allowed),
        }
    }

    /// The request that registers a relationship tuple.
    ///
    /// # Errors
    ///
    /// A broken replication.
    pub fn register_relation(
        &self,
        fatal: Option<&AuthError>,
        resource_type: &str,
        resource_id: &str,
        relation: &str,
        subject_type: &str,
        subject_id: &str,
    ) -> (r: Result<WriteRelationshipsRequest, AuthError>)
        ensures
            match replication_gate(self.fails_closed(), observed(fatal)) {
                Ok(_) => r is Ok && r->Ok_0@ == write_relationship_view(
                    RelationshipOp::Touch,
                    resource_type@,
                    resource_id@,
                    relation@,
                    subject_type@,
                    subject_id@,
                ),
                Err(e) => r is Err && r->Err_0@ == e,
            },
    {
        match self.fail_closed_if_replication_broken(fatal) {
            Ok(_) => Ok(
                Rebac::write_relationship(
                    RelationshipOp::Touch,
                    resource_type,
                    resource_id,
                    relation,
                    subject_type,
                    subject_id,
                ),
            ),
            Err(e) => Err(e),
        }
    }

    /// The request that revokes a relationship tuple.
    ///
    /// # Errors
    ///
    /// A broken replication.
    pub fn revoke_relation(
        &self,
        fatal: Option<&AuthError>,
        resource_type: &str,
        resource_id: &str,
        relation: &str,
        subject_type: &str,
        subject_id: &str,
    ) -> (r: Result<WriteRelationshipsRequest, AuthError>)
        ensures
            match replication_gate(self.fails_closed(), observed(fatal)) {
                Ok(_) => r is Ok && r->Ok_0@ == write_relationship_view(
                    RelationshipOp::Delete,
                    resource_type@,
                    resource_id@,
                    relation@,
                    subject_type@,
                    subject_id@,
                ),
                Err(e) => r is Err && r->Err_0@ == e,
            },
    {
        match self.fail_closed_if_replication_broken(fatal) {
            Ok(_) => Ok(
                Rebac::write_relationship(
                    RelationshipOp::Delete,
                    resource_type,
                    resource_id,
                    relation,
                    subject_type,
                    subject_id,
                ),
            ),
            Err(e) => Err(e),
        }
    }

    /// The request that deletes the relationships of a resource with a
    /// relation, of all subjects or of those of a type, or of one subject.
    ///
    /// # Errors
    ///
    /// A broken replication.
    pub fn revoke_by_filter(
        &self,
        fatal: Option<&AuthError>,
        resource_type: &str,
        resource_id: &str,
        relation: &str,
        subject_type: Option<&str>,
        subject_id: Option<&str>,
    ) -> (r: Result<DeleteRelationshipsRequest, AuthError>)
        ensures
            match replication_gate(self.fails_closed(), observed(fatal)) {
                Ok(_) => r is Ok && r->Ok_0@ == delete_relationships_view(
                    resource_type@,
                    resource_id@,
                    relation@,
                    revocation_filter(subject_type, subject_id),
                ),
                Err(e) => r is Err && r->Err_0@ == e,
            },
    {
        match self.fail_closed_if_replication_broken(fatal) {
            Ok(_) => {
                let filter = match subject_type {
                    Some(st) => Some(SubjectFilter { subject_type: st, subject_id, relation: None }),
                    None => None,
                };
                Ok(Rebac::delete_relationships(resource_type, resource_id, relation, filter))
            },
            Err(e) => Err(e),
        }
    }

    /// The request for all resources of a type on which a user may act.
    ///
    /// # Errors
    ///
    /// A broken replication.
    pub fn lookup_resources(
        &self,
        fatal: Option<&AuthError>,
        user_id: &str,
        action: &str,
        resource_type: &str,
    ) -> (r: Result<LookupResourcesRequest, AuthError>)
        ensures
            match replication_gate(self.fails_closed(), observed(fatal)) {
                Ok(_) => r is Ok && r->Ok_0@ == lookup_resources_view(
                    user_id@,
                    action@,
                    resource_type@,
                ),
                Err(e) => r is Err && r->Err_0@ == e,
            },
    {
        match self.fail_closed_if_replication_broken(fatal) {
            Ok(_) => Ok(Rebac::lookup_resources(user_id, action, resource_type)),
            Err(e) => Err(e),
        }
    }
}

/// Failing closed: once the replication has reported a fatal error, an engine
/// that fails closed lets no operation go on, and says why.
pub proof fn law_fails_closed(fatal: AuthErrorView)
    ensures
        replication_gate(true, Some(fatal)) == Err::<(), AuthErrorView>(
            AuthErrorView::SpiceDbProtocol {
                operation: "check_permission"@,
                message: "replication is in fatal state: "@ + fatal.text(),
            },
        ),
{
}

/// A healthy replication, one that is not watched, and one whose failure is
/// not to matter stop nothing.
pub proof fn law_healthy_replication_stops_nothing(enabled: bool, fatal: Option<AuthErrorView>)
    requires
        !enabled || fatal is None,
    ensures
        replication_gate(enabled, fatal) == Ok::<(), AuthErrorView>(()),
{
}

/// Without policies the context is ignored, and without a context the policies
/// are: ReBAC alone decides, and there is no error.
pub proof fn law_rebac_alone_decides(
    policies: Option<PolicySet>,
    decision: RebacDecision,
    user_id: Seq<char>,
    action: Seq<char>,
    resource_type: Seq<char>,
    resource_id: Seq<char>,
    attributes: Option<Seq<(Seq<char>, CedarValueView)>>,
)
    requires
        policies is None || attributes is None,
    ensures
        fused_decision(
            policies,
            decision,
            user_id,
            action,
            resource_type,
            resource_id,
            attributes,
        ) == Ok::<bool, AuthErrorView>(decision is Allowed || decision is Conditional),
{
}

/// Cedar is a filter: no policy and no context grants what ReBAC denies.
pub proof fn law_cedar_cannot_grant_what_rebac_denies(
    policies: Option<PolicySet>,
    decision: RebacDecision,
    user_id: Seq<char>,
    action: Seq<char>,
    resource_type: Seq<char>,
    resource_id: Seq<char>,
    attributes: Option<Seq<(Seq<char>, CedarValueView)>>,
)
    ensures
        fused_decision(
            policies,
            decision,
            user_id,
            action,
            resource_type,
            resource_id,
            attributes,
        ) == Ok::<bool, AuthErrorView>(true) ==> decision is Allowed || decision is Conditional,
{
}

/// What ReBAC allows is left to the policies: with policies and a context,
/// their verdict is the decision.
pub proof fn law_policies_decide_what_rebac_allows(
    policies: PolicySet,
    decision: RebacDecision,
    user_id: Seq<char>,
    action: Seq<char>,
    resource_type: Seq<char>,
    resource_id: Seq<char>,
    attributes: Seq<(Seq<char>, CedarValueView)>,
)
    requires
        decision is Allowed || decision is Conditional,
    ensures
        fused_decision(
            Some(policies),
            decision,
            user_id,
            action,
            resource_type,
            resource_id,
            Some(attributes),
        ) == verdict(
            policies,
            user_id,
            action,
            resource_type,
            resource_id,
            request_record(true, attributes),
        ),
{
}

/// To the policies, a conditional permission is a permission.
pub proof fn law_conditional_counts_as_allowed(
    policies: Option<PolicySet>,
    user_id: Seq<char>,
    action: Seq<char>,
    resource_type: Seq<char>,
    resource_id: Seq<char>,
    attributes: Option<Seq<(Seq<char>, CedarValueView)>>,
)
    ensures
        fused_decision(
            policies,
            RebacDecision::Conditional,
            user_id,
            action,
            resource_type,
            resource_id,
            attributes,
        ) == fused_decision(
            policies,
            RebacDecision::Allowed,
            user_id,
            action,
            resource_type,
            resource_id,
            attributes,
        ),
{
}

/// A revocation names the relationship that a registration with the same parts
/// has written, and no other: it differs from it in the operation alone.
pub proof fn law_revocation_names_what_was_registered(
    registered: (Seq<char>, Seq<char>, Seq<char>, Seq<char>, Seq<char>),
    revoked: (Seq<char>, Seq<char>, Seq<char>, Seq<char>, Seq<char>),
)
    ensures
        ({
            let touch = write_relationship_view(
                RelationshipOp::Touch,
                registered.0,
                registered.1,
                registered.2,
                registered.3,
                registered.4,
            );
            let delete = write_relationship_view(
                RelationshipOp::Delete,
                revoked.0,
                revoked.1,
                revoked.2,
                revoked.3,
                revoked.4,
            );
            &&& touch.len() == 1 && delete.len() == 1
            &&& touch[0].operation != delete[0].operation
            &&& touch[0].relationship == delete[0].relationship <==> registered == revoked
        }),
{
    law_updates_are_told_apart(
        RelationshipOp::Touch,
        registered,
        RelationshipOp::Touch,
        revoked,
    );
}

/// An engine that fails closed refuses once the replication has reported a fatal
/// error, and says which; one that does not, and one whose replication has
/// reported none, refuses nothing.
pub proof fn law_refusal_says_why(
    engine: LothEngine,
    fatal: AuthError,
    text: String,
    broken: Result<(), AuthError>,
    healthy: Result<(), AuthError>,
)
    requires
        call_ensures(AuthError::to_text, (&fatal,), text),
        call_ensures(
            LothEngine::fail_closed_if_replication_broken,
            (&engine, Some(&fatal)),
            broken,
        ),
        call_ensures(
            LothEngine::fail_closed_if_replication_broken,
            (&engine, None::<&AuthError>),
            healthy,
        ),
    ensures
        healthy is Ok,
        broken is Err <==> engine.fails_closed(),
        broken matches Err(e) ==> {
            &&& e matches AuthError::SpiceDbProtocol { operation, message }
            &&& operation@ == "check_permission"@
            &&& message@ == "replication is in fatal state: "@ + text@
        },
{
}

/// Every operation is refused exactly when the engine refuses, and with the same
/// words, whatever it is asked to do.
pub proof fn law_every_operation_is_refused_alike(
    engine: LothEngine,
    fatal: Option<&AuthError>,
    gate: Result<(), AuthError>,
    user_id: &str,
    action: &str,
    resource_type: &str,
    resource_id: &str,
    relation: &str,
    subject_type: &str,
    subject_id: &str,
    filter: (Option<&str>, Option<&str>),
    check: Result<CheckPermissionRequest, AuthError>,
    register: Result<WriteRelationshipsRequest, AuthError>,
    revoke: Result<WriteRelationshipsRequest, AuthError>,
    prune: Result<DeleteRelationshipsRequest, AuthError>,
    lookup: Result<LookupResourcesRequest, AuthError>,
)
    requires
        call_ensures(LothEngine::fail_closed_if_replication_broken, (&engine, fatal), gate),
        call_ensures(
            LothEngine::check_permission,
            (&engine, fatal, user_id, action, resource_type, resource_id),
            check,
        ),
        call_ensures(
            LothEngine::register_relation,
            (&engine, fatal, resource_type, resource_id, relation, subject_type, subject_id),
            register,
        ),
        call_ensures(
            LothEngine::revoke_relation,
            (&engine, fatal, resource_type, resource_id, relation, subject_type, subject_id),
            revoke,
        ),
        call_ensures(
            LothEngine::revoke_by_filter,
            (&engine, fatal, resource_type, resource_id, relation, filter.0, filter.1),
            prune,
        ),
        call_ensures(
            LothEngine::lookup_resources,
            (&engine, fatal, user_id, action, resource_type),
            lookup,
        ),
    ensures
        check is Err <==> gate is Err,
        check matches Err(AuthError::SpiceDbProtocol { operation: o1, message: m1 }) ==> (
        gate matches Err(AuthError::SpiceDbProtocol { operation: o2, message: m2 }) && o1@ == o2@
            && m1@ == m2@),
        check is Err ==> check->Err_0 is SpiceDbProtocol,
        register is Err <==> gate is Err,
        register matches Err(AuthError::SpiceDbProtocol { operation: o1, message: m1 }) ==> (
        gate matches Err(AuthError::SpiceDbProtocol { operation: o2, message: m2 }) && o1@ == o2@
            && m1@ == m2@),
        register is Err ==> register->Err_0 is SpiceDbProtocol,
        revoke is Err <==> gate is Err,
        revoke matches Err(AuthError::SpiceDbProtocol { operation: o1, message: m1 }) ==> (
        gate matches Err(AuthError::SpiceDbProtocol { operation: o2, message: m2 }) && o1@ == o2@
            && m1@ == m2@),
        revoke is Err ==> revoke->Err_0 is SpiceDbProtocol,
        prune is Err <==> gate is Err,
        prune matches Err(AuthError::SpiceDbProtocol { operation: o1, message: m1 }) ==> (
        gate matches Err(AuthError::SpiceDbProtocol { operation: o2, message: m2 }) && o1@ == o2@
            && m1@ == m2@),
        prune is Err ==> prune->Err_0 is SpiceDbProtocol,
        lookup is Err <==> gate is Err,
        lookup matches Err(AuthError::SpiceDbProtocol { operation: o1, message: m1 }) ==> (
        gate matches Err(AuthError::SpiceDbProtocol { operation: o2, message: m2 }) && o1@ == o2@
            && m1@ == m2@),
        lookup is Err ==> lookup->Err_0 is SpiceDbProtocol,
{
}

/// Registering a tuple touches one relationship, revoking it deletes one: the
/// one between the resource and the subject that were given, whatever they are.
/// The subject is the object itself, not a relation on it.
pub proof fn law_registration_and_revocation_name_the_tuple(
    engine: LothEngine,
    fatal: Option<&AuthError>,
    resource_type: &str,
    resource_id: &str,
    relation: &str,
    subject_type: &str,
    subject_id: &str,
    register: Result<WriteRelationshipsRequest, AuthError>,
    revoke: Result<WriteRelationshipsRequest, AuthError>,
)
    requires
        call_ensures(
            LothEngine::register_relation,
            (&engine, fatal, resource_type, resource_id, relation, subject_type, subject_id),
            register,
        ),
        call_ensures(
            LothEngine::revoke_relation,
            (&engine, fatal, resource_type, resource_id, relation, subject_type, subject_id),
            revoke,
        ),
    ensures
        register matches Ok(request) ==> {
            &&& request.updates@.len() == 1
            &&& request.updates@[0].operation == 2
            &&& request.updates@[0].relationship.resource.object_type@ == resource_type@
            &&& request.updates@[0].relationship.resource.object_id@ == resource_id@
            &&& request.updates@[0].relationship.relation@ == relation@
            &&& request.updates@[0].relationship.subject.object.object_type@ == subject_type@
            &&& request.updates@[0].relationship.subject.object.object_id@ == subject_id@
            &&& request.updates@[0].relationship.subject.optional_relation@.len() == 0
        },
        revoke matches Ok(request) ==> {
            &&& request.updates@.len() == 1
            &&& request.updates@[0].operation == 3
            &&& request.updates@[0].relationship.resource.object_type@ == resource_type@
            &&& request.updates@[0].relationship.resource.object_id@ == resource_id@
            &&& request.updates@[0].relationship.relation@ == relation@
            &&& request.updates@[0].relationship.subject.object.object_type@ == subject_type@
            &&& request.updates@[0].relationship.subject.object.object_id@ == subject_id@
            &&& request.updates@[0].relationship.subject.optional_relation@.len() == 0
        },
{
    if register is Ok {
        let request = register->Ok_0;
        assert(request@.len() == 1);
        assert(request@[0] == request.updates@[0]@);
    }
    if revoke is Ok {
        let request = revoke->Ok_0;
        assert(request@.len() == 1);
        assert(request@[0] == request.updates@[0]@);
    }
}

/// A permission check and a lookup ask about the user itself, the action and the
/// resources that were given, whatever they are, and so about one subject.
pub proof fn law_questions_are_about_the_user(
    engine: LothEngine,
    fatal: Option<&AuthError>,
    user_id: &str,
    action: &str,
    resource_type: &str,
    resource_id: &str,
    check: Result<CheckPermissionRequest, AuthError>,
    lookup: Result<LookupResourcesRequest, AuthError>,
)
    requires
        call_ensures(
            LothEngine::check_permission,
            (&engine, fatal, user_id, action, resource_type, resource_id),
            check,
        ),
        call_ensures(
            LothEngine::lookup_resources,
            (&engine, fatal, user_id, action, resource_type),
            lookup,
        ),
    ensures
        check matches Ok(request) ==> {
            &&& request.resource.object_type@ == resource_type@
            &&& request.resource.object_id@ == resource_id@
            &&& request.permission@ == action@
            &&& request.subject.object.object_type@ == "user"@
            &&& request.subject.object.object_id@ == user_id@
            &&& request.subject.optional_relation@.len() == 0
            &&& !request.with_tracing
        },
        lookup matches Ok(request) ==> {
            &&& request.resource_object_type@ == resource_type@
            &&& request.permission@ == action@
            &&& request.subject.object.object_type@ == "user"@
            &&& request.subject.object.object_id@ == user_id@
            &&& request.subject.optional_relation@.len() == 0
        },
{
}

/// A revocation by filter is limited to the resource and the relation, and to
/// the subject type and identifier, that were given: the identifier is left open
/// only where none was given, whatever the type, and the subjects are left open
/// only where no type was given.
pub proof fn law_revocation_is_limited_as_asked(
    engine: LothEngine,
    fatal: Option<&AuthError>,
    resource_type: &str,
    resource_id: &str,
    relation: &str,
    subject_type: Option<&str>,
    subject_id: Option<&str>,
    r: Result<DeleteRelationshipsRequest, AuthError>,
)
    requires
        call_ensures(
            LothEngine::revoke_by_filter,
            (&engine, fatal, resource_type, resource_id, relation, subject_type, subject_id),
            r,
        ),
    ensures
        r matches Ok(request) ==> {
            &&& request.resource_type@ == resource_type@
            &&& request.optional_resource_id@ == resource_id@
            &&& request.optional_resource_id_prefix@.len() == 0
            &&& request.optional_relation@ == relation@
            &&& request.optional_subject_filter is Some <==> subject_type is Some
            &&& request.optional_subject_filter matches Some(sent) ==> {
                &&& sent.subject_type@ == subject_type->0@
                &&& subject_id matches Some(id) ==> sent.optional_subject_id@ == id@
                &&& subject_id is None ==> sent.optional_subject_id@.len() == 0
                &&& sent.optional_relation is None
            }
        },
{
    if r is Ok {
        let request = r->Ok_0;
        if request.optional_subject_filter is Some {
            let sent = request.optional_subject_filter->0;
            assert(request@.optional_subject_filter == Some(sent@));
        }
    }
}

/// An engine has the schema, the policies and the settings that it was made
/// with. An update changes the policies and nothing else. Policies that Cedar
/// refuses make no engine, and are reported with Cedar's description.
pub proof fn law_engine_is_what_it_was_made_of(
    zed_schema: String,
    policies: Option<&str>,
    settings: EngineSettings,
    made: Result<LothEngine, AuthError>,
    engine: LothEngine,
    next: Option<&str>,
    updated: Result<LothEngine, AuthError>,
    text: &str,
)
    requires
        call_ensures(LothEngine::new, (zed_schema, policies, settings), made),
        call_ensures(LothEngine::update_cedar_policies, (&engine, next), updated),
        call_ensures(LothEngine::zed_schema, (&engine,), text),
    ensures
        text@ == engine.schema(),
        made matches Ok(m) ==> {
            &&& m.schema() == zed_schema@
            &&& m.fails_closed() == settings.enable_replication_fail_closed
        },
        updated matches Ok(u) ==> {
            &&& u.schema() == engine.schema()
            &&& u.fails_closed() == engine.fails_closed()
        },
        policies is None ==> made is Ok && made->Ok_0.policies() is None,
        next is None ==> updated is Ok && updated->Ok_0.policies() is None,
        policies matches Some(dsl) ==> match parsed_policy_set(dsl@) {
            Ok(set) => made is Ok && made->Ok_0.policies() == Some(set),
            Err(e) => {
                &&& made matches Err(AuthError::CedarValidation { message })
                &&& message@ == parse_errors_text(e)
            },
        },
        next matches Some(dsl) ==> match parsed_policy_set(dsl@) {
            Ok(set) => updated is Ok && updated->Ok_0.policies() == Some(set),
            Err(e) => {
                &&& updated matches Err(AuthError::CedarValidation { message })
                &&& message@ == parse_errors_text(e)
            },
        },
{
}

/// With policies and attributes, the decision is what the policies decide about
/// the same request and the same attributes, told what ReBAC answered, and only
/// of what ReBAC lets pass. An error of the policies is the error of the decision.
pub proof fn law_decision_is_that_of_both_layers<'a>(
    engine: LothEngine,
    abac: AbacEngine,
    decision: RebacDecision,
    structural: bool,
    user_id: &str,
    action: &str,
    resource_type: &str,
    resource_id: &str,
    attributes: CedarContextBuilder<'a>,
    by_policies: Result<bool, AuthError>,
    r: Result<bool, AuthError>,
)
    requires
        engine.policies() == Some(abac.policies()),
        structural == (decision is Allowed || decision is Conditional),
        call_ensures(
            AbacEngine::evaluate,
            (&abac, structural, user_id, action, resource_type, resource_id, &attributes),
            by_policies,
        ),
        call_ensures(
            LothEngine::decide,
            (
                &engine,
                decision,
                user_id,
                action,
                resource_type,
                resource_id,
                Some(&attributes),
            ),
            r,
        ),
    ensures
        by_policies matches Ok(allowed) ==> r == Ok::<bool, AuthError>(allowed && structural),
        by_policies matches Err(e) ==> r is Err && r->Err_0@ == e@,
{
}

/// Without policies, or without attributes, the decision is what ReBAC answered.
pub proof fn law_decision_without_policies_or_attributes<'a>(
    engine: LothEngine,
    decision: RebacDecision,
    user_id: &str,
    action: &str,
    resource_type: &str,
    resource_id: &str,
    attributes: Option<&CedarContextBuilder<'a>>,
    r: Result<bool, AuthError>,
)
    requires
        engine.policies() is None || attributes is None,
        call_ensures(
            LothEngine::decide,
            (&engine, decision, user_id, action, resource_type, resource_id, attributes),
            r,
        ),
    ensures
        r == Ok::<bool, AuthError>(decision is Allowed || decision is Conditional),
{
}

/// A check by ReBAC only is decided by the number of the reply: permission and
/// conditional permission pass, no permission does not, and nothing else decides.
pub proof fn law_reply_alone_decides(
    engine: LothEngine,
    reply: Result<i32, String>,
    r: Result<bool, AuthError>,
)
    requires
        call_ensures(LothEngine::check_permission_reply, (&engine, reply), r),
    ensures
        r == Ok::<bool, AuthError>(true) <==> reply == Ok::<i32, String>(2) || reply == Ok::<
            i32,
            String,
        >(3),
        r == Ok::<bool, AuthError>(false) <==> reply == Ok::<i32, String>(1),
        reply is Ok ==> (r matches Err(e) ==> {
            &&& e matches AuthError::SpiceDbProtocol { operation, message }
            &&& operation@ == "check_permission"@
            &&& message@ == "unknown permissionship returned by server"@
        }),
        reply matches Err(sent) ==> {
            &&& r matches Err(AuthError::SpiceDbStatus { operation, status })
            &&& operation@ == "check_permission"@
            &&& status@ == sent@
        },
{
}

/// A check with a context is decided by the reply and the attributes that the
/// context writes into an empty builder: it is what the engine decides about the
/// same request with these attributes, or the error that the context gave.
/// Without a context, or without policies, the reply alone decides. No context
/// lets pass what the reply does not.
pub proof fn law_check_with_context_is_decided_by_reply_and_attributes<'a, C: CedarContext<'a>>(
    engine: LothEngine,
    reply: Result<i32, String>,
    user_id: &str,
    action: &str,
    resource_type: &str,
    resource_id: &str,
    context: Option<&'a C>,
    r: Result<bool, AuthError>,
    decision: RebacDecision,
)
    requires
        call_ensures(
            LothEngine::check_permission_with_context::<C>,
            (&engine, reply, user_id, action, resource_type, resource_id, context),
            r,
        ),
    ensures
        r == Ok::<bool, AuthError>(true) ==> reply == Ok::<i32, String>(2) || reply == Ok::<
            i32,
            String,
        >(3),
        context is None || engine.policies() is None ==> {
            &&& reply == Ok::<i32, String>(1) ==> r == Ok::<bool, AuthError>(false)
            &&& reply == Ok::<i32, String>(2) || reply == Ok::<i32, String>(3) ==> r == Ok::<
                bool,
                AuthError,
            >(true)
        },
        reply matches Ok(number) ==> {
            number < 1 || number > 3 ==> {
                &&& r matches Err(AuthError::SpiceDbProtocol { operation, message })
                &&& operation@ == "check_permission"@
                &&& message@ == "unknown permissionship returned by server"@
            }
        },
        reply matches Err(sent) ==> {
            &&& r matches Err(AuthError::SpiceDbStatus { operation, status })
            &&& operation@ == "check_permission"@
            &&& status@ == sent@
        },
        context is Some && engine.policies() is Some && {
            ||| decision is Denied && reply == Ok::<i32, String>(1)
            ||| decision is Allowed && reply == Ok::<i32, String>(2)
            ||| decision is Conditional && reply == Ok::<i32, String>(3)
        } ==> exists|out: &mut CedarContextBuilder<'a>, wrote: Result<(), AuthError>|
            {
                &&& out.entries@.len() == 0
                &&& #[trigger] call_ensures(C::write_to, (context->0, out), wrote)
                &&& wrote matches Err(e) ==> r == Err::<bool, AuthError>(e)
                &&& wrote is Ok ==> forall|decided: Result<bool, AuthError>| #[trigger]
                    call_ensures(
                        LothEngine::decide,
                        (
                            &engine,
                            decision,
                            user_id,
                            action,
                            resource_type,
                            resource_id,
                            Some(&*final(out)),
                        ),
                        decided,
                    ) ==> match decided {
                        Ok(allowed) => r == Ok::<bool, AuthError>(allowed),
                        Err(e) => r is Err && r->Err_0@ == e@,
                    }
            },
{
    if context is Some && engine.policies() is Some && {
        ||| decision is Denied && reply == Ok::<i32, String>(1)
        ||| decision is Allowed && reply == Ok::<i32, String>(2)
        ||| decision is Conditional && reply == Ok::<i32, String>(3)
    } {
        let (out, wrote) = choose|
            out: &mut CedarContextBuilder<'a>,
            wrote: Result<(), AuthError>,
        |
            {
                &&& out@ == Seq::<(Seq<char>, CedarValueView)>::empty()
                &&& #[trigger] call_ensures(C::write_to, (context->0, out), wrote)
                &&& match wrote {
                    Ok(_) => outcome(r) == fused_decision(
                        engine.policies(),
                        decision,
                        user_id@,
                        action@,
                        resource_type@,
                        resource_id@,
                        Some(final(out)@),
                    ),
                    Err(e) => r == Err::<bool, AuthError>(e),
                }
            };
        assert(out@.len() == out.entries@.len());
        assert(call_ensures(C::write_to, (context->0, out), wrote));
    }
}

/// A structural answer lets a request pass unless it is a denial.
pub proof fn law_only_a_denial_stops(decision: RebacDecision, r: bool)
    requires
        call_ensures(is_structurally_allowed, (decision,), r),
    ensures
        !r <==> decision is Denied,
{
}

} // verus!
