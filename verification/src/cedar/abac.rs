//! Cedar ABAC policy engine wrapper.
//!
//! ABAC is used as the final contextual filter at the edge; ReBAC remains the
//! source of structural truth.

use cedar_policy::{Authorizer, EntityUid, ParseErrors, PolicySet, RestrictedExpression};
use vstd::prelude::*;

use crate::cedar::authorizer::{
    authorization, bool_expression, context_error_text, context_from_pairs, context_of,
    display_context_error, display_parse_errors, distinct_keys,
    is_authorized, long_expression, new_authorizer, new_bool, new_long, new_request, new_string,
    pairs_view, parse_entity_uid, parse_errors_text, parse_policy_set, parsed_entity_uid,
    parsed_policy_set, record_of, request_of, string_expression, CedarDecision,
};
use crate::types::{
    entries_view, outcome, AuthError, AuthErrorView, CedarContextBuilder, CedarValueRef,
    CedarValueView, EvaluationContext,
};

verus! {

/// The attribute that tells a policy what ReBAC answered.
pub const STRUCTURAL_KEY: &'static str = "is_structural_allowed";

/// The attributes that Cedar sees: those that the context lists, a later one
/// replacing an earlier one with the same key, and the structural answer, which
/// no context can replace.
pub open spec fn request_record(
    is_structural_allowed: bool,
    attributes: Seq<(Seq<char>, CedarValueView)>,
) -> Map<Seq<char>, CedarValueView> {
    record_of(attributes).insert(STRUCTURAL_KEY@, CedarValueView::Bool(is_structural_allowed))
}

/// The Cedar literal for a value.
pub open spec fn expression_of(value: CedarValueView) -> RestrictedExpression {
    match value {
        CedarValueView::Bool(b) => bool_expression(b),
        CedarValueView::I64(i) => long_expression(i),
        CedarValueView::Str(s) => string_expression(s),
    }
}

/// The Cedar literals for a record.
pub open spec fn expressions_of(record: Map<Seq<char>, CedarValueView>) -> Map<
    Seq<char>,
    RestrictedExpression,
> {
    record.map_values(|value: CedarValueView| expression_of(value))
}

/// The text of an entity: its type, and its identifier in quotes.
pub open spec fn uid_text(entity_type: Seq<char>, entity_id: Seq<char>) -> Seq<char> {
    entity_type + "::\""@ + entity_id + "\""@
}

/// The policies that were parsed, or the error for a text that Cedar refuses.
pub open spec fn policies_parse_outcome(parsed: Result<PolicySet, ParseErrors>) -> Result<
    PolicySet,
    AuthErrorView,
> {
    match parsed {
        Ok(policies) => Ok(policies),
        Err(e) => Err(AuthErrorView::CedarValidation { message: parse_errors_text(e) }),
    }
}

/// The entity that was parsed, or the error for an input that names none.
pub open spec fn uid_parse_outcome(parsed: Result<EntityUid, ParseErrors>) -> Result<
    EntityUid,
    AuthErrorView,
> {
    match parsed {
        Ok(uid) => Ok(uid),
        Err(e) => Err(AuthErrorView::ValidationError { message: parse_errors_text(e) }),
    }
}

/// What Cedar decides about three entities and a record, by a policy set.
pub open spec fn cedar_verdict(
    policies: PolicySet,
    principal: EntityUid,
    action: EntityUid,
    resource: EntityUid,
    record: Map<Seq<char>, CedarValueView>,
) -> Result<bool, AuthErrorView> {
    match context_of(expressions_of(record)) {
        Ok(context) => Ok(
            authorization(request_of(principal, action, resource, context), policies)
                == CedarDecision::Allow,
        ),
        Err(e) => Err(AuthErrorView::CedarEvaluation { message: context_error_text(e) }),
    }
}

/// What a policy set decides about a user, an action, a resource and a record.
pub open spec fn verdict(
    policies: PolicySet,
    user_id: Seq<char>,
    action: Seq<char>,
    resource_type: Seq<char>,
    resource_id: Seq<char>,
    record: Map<Seq<char>, CedarValueView>,
) -> Result<bool, AuthErrorView> {
    match uid_parse_outcome(parsed_entity_uid(uid_text("User"@, user_id))) {
        Err(e) => Err(e),
        Ok(principal) => match uid_parse_outcome(parsed_entity_uid(uid_text("Action"@, action))) {
            Err(e) => Err(e),
            Ok(action_uid) => match uid_parse_outcome(
                parsed_entity_uid(uid_text(resource_type, resource_id)),
            ) {
                Err(e) => Err(e),
                Ok(resource) => cedar_verdict(policies, principal, action_uid, resource, record),
            },
        },
    }
}

/// Replacing the value of a key in a record without duplicates.
proof fn lemma_record_update<V>(pairs: Seq<(Seq<char>, V)>, i: int, value: V)
    requires
        distinct_keys(pairs),
        0 <= i < pairs.len(),
    ensures
        distinct_keys(pairs.update(i, (pairs[i].0, value))),
        record_of(pairs.update(i, (pairs[i].0, value))) == record_of(pairs).insert(
            pairs[i].0,
            value,
        ),
    decreases pairs.len(),
{
    let key = pairs[i].0;
    let updated = pairs.update(i, (key, value));
    let front = pairs.drop_last();
    assert(distinct_keys(front)) by {
        assert forall|j: int, k: int| 0 <= j < k < front.len() implies (#[trigger] front[j]).0 != (
        #[trigger] front[k]).0 by {
            assert(pairs[j].0 != pairs[k].0);
        }
    }
    assert(distinct_keys(updated)) by {
        assert forall|j: int, k: int| 0 <= j < k < updated.len() implies (#[trigger] updated[j]).0
            != (#[trigger] updated[k]).0 by {
            assert(pairs[j].0 != pairs[k].0);
        }
    }
    if i == pairs.len() - 1 {
        assert(updated.drop_last() =~= front);
        assert(record_of(updated) =~= record_of(pairs).insert(key, value));
    } else {
        lemma_record_update(front, i, value);
        assert(updated.drop_last() =~= front.update(i, (key, value)));
        assert(pairs[i].0 != pairs[pairs.len() - 1].0);
        assert(record_of(updated) =~= record_of(pairs).insert(key, value));
    }
}

/// Adding a key that the pairs do not have.
proof fn lemma_record_push<V>(pairs: Seq<(Seq<char>, V)>, key: Seq<char>, value: V)
    requires
        distinct_keys(pairs),
        forall|i: int| 0 <= i < pairs.len() ==> (#[trigger] pairs[i]).0 != key,
    ensures
        distinct_keys(pairs.push((key, value))),
        record_of(pairs.push((key, value))) == record_of(pairs).insert(key, value),
{
    assert(pairs.push((key, value)).drop_last() =~= pairs);
}

/// Whether two texts are the same.
fn same_text(a: &str, b: &str) -> (r: bool)
    ensures
        r == (a@ == b@),
{
    a.to_owned() == b.to_owned()
}

/// Sets the value of a key, in place if the key is there.
fn upsert<'a>(pairs: &mut Vec<(&'a str, CedarValueRef<'a>)>, key: &'a str, value: CedarValueRef<'a>)
    requires
        distinct_keys(entries_view(old(pairs)@)),
    ensures
        distinct_keys(entries_view(final(pairs)@)),
        record_of(entries_view(final(pairs)@)) == record_of(entries_view(old(pairs)@)).insert(
            key@,
            value@,
        ),
{
    let n: usize = pairs.len();
    let ghost before = entries_view(pairs@);
    for i in 0..n
        invariant
            n == pairs@.len(),
            pairs@ == old(pairs)@,
            before == entries_view(pairs@),
            distinct_keys(before),
            forall|j: int| 0 <= j < i ==> (#[trigger] before[j]).0 != key@,
    {
        if same_text(pairs[i].0, key) {
            proof {
                lemma_record_update(before, i as int, value@);
            }
            pairs[i] = (key, value);
            assert(entries_view(pairs@) =~= before.update(i as int, (before[i as int].0, value@)));
            return;
        }
    }
    proof {
        lemma_record_push(before, key@, value@);
    }
    pairs.push((key, value));
    assert(entries_view(pairs@) =~= before.push((key@, value@)));
}

/// The attributes that Cedar is to see, each key once.
pub fn request_attributes<'a>(
    is_structural_allowed: bool,
    attributes: &CedarContextBuilder<'a>,
) -> (pairs: Vec<(&'a str, CedarValueRef<'a>)>)
    ensures
        distinct_keys(entries_view(pairs@)),
        record_of(entries_view(pairs@)) == request_record(is_structural_allowed, attributes@),
{
    let mut pairs: Vec<(&'a str, CedarValueRef<'a>)> = Vec::new();
    let n: usize = attributes.entries.len();
    assert(entries_view(pairs@) =~= Seq::empty());
    assert(attributes@.take(0) =~= Seq::empty());
    for i in 0..n
        invariant
            n == attributes@.len(),
            n == attributes.entries@.len(),
            distinct_keys(entries_view(pairs@)),
            record_of(entries_view(pairs@)) == record_of(attributes@.take(i as int)),
    {
        let (key, value) = attributes.entries[i];
        upsert(&mut pairs, key, value);
        proof {
            let taken = attributes@.take(i + 1);
            assert(taken.drop_last() =~= attributes@.take(i as int));
            assert(taken.last() == (key@, value@));
        }
    }
    assert(attributes@.take(n as int) =~= attributes@);
    upsert(&mut pairs, STRUCTURAL_KEY, CedarValueRef::Bool(is_structural_allowed));
    pairs
}

/// The Cedar literal for a value.
fn expression(value: CedarValueRef<'_>) -> (r: RestrictedExpression)
    ensures
        r == expression_of(value@),
{
    match value {
        CedarValueRef::Bool(b) => new_bool(b),
        CedarValueRef::I64(i) => new_long(i),
        CedarValueRef::Str(s) => new_string(s),
    }
}

/// The Cedar literals of attributes, pair by pair.
fn expressions(attributes: &Vec<(&str, CedarValueRef<'_>)>) -> (pairs: Vec<
    (String, RestrictedExpression),
>)
    ensures
        distinct_keys(entries_view(attributes@)) ==> distinct_keys(pairs_view(pairs@)),
        record_of(pairs_view(pairs@)) == expressions_of(record_of(entries_view(attributes@))),
{
    let mut pairs: Vec<(String, RestrictedExpression)> = Vec::new();
    let n: usize = attributes.len();
    let ghost entries = entries_view(attributes@);
    assert(entries.take(0) =~= Seq::empty());
    assert(pairs_view(pairs@) =~= Seq::empty());
    assert(record_of(pairs_view(pairs@)) =~= expressions_of(record_of(entries.take(0))));
    for i in 0..n
        invariant
            n == attributes@.len(),
            entries == entries_view(attributes@),
            pairs@.len() == i,
            forall|j: int| 0 <= j < i ==> (#[trigger] pairs_view(pairs@)[j]).0 == entries[j].0,
            record_of(pairs_view(pairs@)) == expressions_of(record_of(entries.take(i as int))),
    {
        let (key, value) = attributes[i];
        let ghost before = pairs_view(pairs@);
        let ghost taken = entries.take(i as int);
        pairs.push((key.to_owned(), expression(value)));
        proof {
            let after = pairs_view(pairs@);
            assert(after =~= before.push((key@, expression_of(value@))));
            assert(after.drop_last() =~= before);
            assert(entries.take(i + 1).drop_last() =~= taken);
            assert(entries.take(i + 1).last() == (key@, value@));
            assert(record_of(after) =~= expressions_of(record_of(entries.take(i + 1))));
        }
    }
    proof {
        assert(entries.take(n as int) =~= entries);
        if distinct_keys(entries) {
            let view = pairs_view(pairs@);
            assert forall|j: int, k: int| 0 <= j < k < view.len() implies (#[trigger] view[j]).0
                != (#[trigger] view[k]).0 by {
                assert(entries[j].0 != entries[k].0);
            }
        }
    }
    pairs
}

/// Parses Cedar policies.
///
/// # Errors
///
/// A text that is no policy set.
fn parse_policies(dsl: &str) -> (r: Result<PolicySet, AuthError>)
    ensures
        outcome(r) == policies_parse_outcome(parsed_policy_set(dsl@)),
{
    policies_or_error(parse_policy_set(dsl))
}

/// The policies, or the error that describes why there are none.
pub fn policies_or_error(parsed: Result<PolicySet, ParseErrors>) -> (r: Result<
    PolicySet,
    AuthError,
>)
    ensures
        outcome(r) == policies_parse_outcome(parsed),
{
    match parsed {
        Ok(policies) => Ok(policies),
        Err(e) => Err(AuthError::cedar_validation(display_parse_errors(&e))),
    }
}

/// The text of an entity. The identifier stands in it as it is: a quote or a
/// backslash in it is not escaped.
pub fn entity_text(entity_type: &str, entity_id: &str) -> (text: String)
    ensures
        text@ == uid_text(entity_type@, entity_id@),
{
    entity_type.to_owned().concat("::\"").concat(entity_id).concat("\"")
}

/// Parses an entity.
///
/// # Errors
///
/// A type and an identifier whose text is no entity.
fn parse_uid(entity_type: &str, entity_id: &str) -> (r: Result<EntityUid, AuthError>)
    ensures
        outcome(r) == uid_parse_outcome(parsed_entity_uid(uid_text(entity_type@, entity_id@))),
{
    let text = entity_text(entity_type, entity_id);
    match parse_entity_uid(text.as_str()) {
        Ok(uid) => Ok(uid),
        Err(e) => Err(AuthError::validation(display_parse_errors(&e))),
    }
}

/// Whether a decision of Cedar lets a request pass.
pub fn allows(decision: CedarDecision) -> (r: bool)
    ensures
        r == (decision == CedarDecision::Allow),
{
    match decision {
        CedarDecision::Allow => true,
        CedarDecision::Deny => false,
    }
}

/// A set of Cedar policies, and the authorizer that evaluates them.
pub struct AbacEngine {
    policies: PolicySet,
    authorizer: Authorizer,
}

impl AbacEngine {
    /// The policies by which the engine decides.
    pub closed spec fn policies(&self) -> PolicySet {
        self.policies
    }

    /// An engine that decides by the policies of a text.
    ///
    /// # Errors
    ///
    /// A text that is no policy set.
    pub fn new(initial_policies_dsl: &str) -> (r: Result<Self, AuthError>)
        ensures
            match policies_parse_outcome(parsed_policy_set(initial_policies_dsl@)) {
                Ok(policies) => r is Ok && r->Ok_0.policies() == policies,
                Err(e) => r is Err && r->Err_0@ == e,
            },
    {
        match parse_policies(initial_policies_dsl) {
            Ok(policies) => Ok(AbacEngine { policies, authorizer: new_authorizer() }),
            Err(e) => Err(e),
        }
    }

    /// Decides by the policies of another text from now on.
    ///
    /// # Errors
    ///
    /// A text that is no policy set; the engine then stays as it is.
    pub fn update_policies(&mut self, new_policies_dsl: &str) -> (r: Result<(), AuthError>)
        ensures
            match policies_parse_outcome(parsed_policy_set(new_policies_dsl@)) {
                Ok(policies) => r is Ok && final(self).policies() == policies,
                Err(e) => r is Err && r->Err_0@ == e && *final(self) == *old(self),
            },
    {
        match parse_policies(new_policies_dsl) {
            Ok(next) => {
                self.policies = next;
                Ok(())
            },
            Err(e) => Err(e),
        }
    }

    /// Decides about a request, given what ReBAC answered and the attributes
    /// that an application context has written.
    ///
    /// # Errors
    ///
    /// A user, action or resource that is no Cedar entity, and attributes that
    /// are no Cedar context.
    pub fn evaluate(
        &self,
        is_structural_allowed: bool,
        user_id: &str,
        action: &str,
        resource_type: &str,
        resource_id: &str,
        attributes: &CedarContextBuilder<'_>,
    ) -> (r: Result<bool, AuthError>)
        ensures
            outcome(r) == verdict(
                self.policies(),
                user_id@,
                action@,
                resource_type@,
                resource_id@,
                request_record(is_structural_allowed, attributes@),
            ),
    {
        let principal = match parse_uid("User", user_id) {
            Ok(uid) => uid,
            Err(e) => {
                return Err(e);
            },
        };
        let action_uid = match parse_uid("Action", action) {
            Ok(uid) => uid,
            Err(e) => {
                return Err(e);
            },
        };
        let resource = match parse_uid(resource_type, resource_id) {
            Ok(uid) => uid,
            Err(e) => {
                return Err(e);
            },
        };
        let pairs = expressions(&request_attributes(is_structural_allowed, attributes));
        let context = match context_from_pairs(pairs) {
            Ok(context) => context,
            Err(e) => {
                return Err(AuthError::cedar_eval(display_context_error(&e)));
            },
        };
        let request = new_request(principal, action_uid, resource, context).unwrap();
        Ok(allows(is_authorized(&self.authorizer, &request, &self.policies)))
    }

    /// Decides about a request, given what ReBAC answered and where, when and
    /// from what device the request comes.
    ///
    /// # Errors
    ///
    /// A user, action or resource that is no Cedar entity, and attributes that
    /// are no Cedar context.
    pub fn is_allowed(
        &self,
        is_structural_allowed: bool,
        user_id: &str,
        action: &str,
        resource_type: &str,
        resource_id: &str,
        ctx: &EvaluationContext,
    ) -> (r: Result<bool, AuthError>)
        ensures
            outcome(r) == verdict(
                self.policies(),
                user_id@,
                action@,
                resource_type@,
                resource_id@,
                request_record(is_structural_allowed, ctx.attributes()),
            ),
    {
        let timestamp = ctx.timestamp.to_rfc3339();
        let mut attributes = CedarContextBuilder::with_capacity(3);
        attributes.insert_bool("device_compliant", ctx.device_compliant);
        attributes.insert_str("ip_address", ctx.ip_address.as_str());
        attributes.insert_str("timestamp_rfc3339", timestamp.as_str());
        assert(attributes@ =~= ctx.attributes());
        self.evaluate(
            is_structural_allowed,
            user_id,
            action,
            resource_type,
            resource_id,
            &attributes,
        )
    }
}

/// What ReBAC answered reaches the policies unchanged, whatever attributes the
/// context lists, one of the same name among them.
pub proof fn law_structural_answer_cannot_be_replaced(
    is_structural_allowed: bool,
    attributes: Seq<(Seq<char>, CedarValueView)>,
)
    ensures
        request_record(is_structural_allowed, attributes).contains_pair(
            STRUCTURAL_KEY@,
            CedarValueView::Bool(is_structural_allowed),
        ),
{
}

/// An attribute that a context lists last under its key reaches the policies,
/// unless the key is that of the structural answer.
pub proof fn law_last_attribute_counts(
    is_structural_allowed: bool,
    earlier: Seq<(Seq<char>, CedarValueView)>,
    key: Seq<char>,
    value: CedarValueView,
    later: Seq<(Seq<char>, CedarValueView)>,
)
    requires
        key != STRUCTURAL_KEY@,
        forall|i: int| 0 <= i < later.len() ==> (#[trigger] later[i]).0 != key,
    ensures
        request_record(is_structural_allowed, earlier.push((key, value)) + later).contains_pair(
            key,
            value,
        ),
    decreases later.len(),
{
    let all = earlier.push((key, value)) + later;
    if later.len() == 0 {
        assert(all =~= earlier.push((key, value)));
        assert(all.drop_last() =~= earlier);
    } else {
        law_last_attribute_counts(
            is_structural_allowed,
            earlier,
            key,
            value,
            later.drop_last(),
        );
        assert(all.drop_last() =~= earlier.push((key, value)) + later.drop_last());
        assert(all.last() == later[later.len() - 1]);
    }
}

/// Nothing reaches the policies but what the context lists and the structural answer.
pub proof fn law_no_other_attribute(
    is_structural_allowed: bool,
    attributes: Seq<(Seq<char>, CedarValueView)>,
    key: Seq<char>,
)
    requires
        key != STRUCTURAL_KEY@,
        forall|i: int| 0 <= i < attributes.len() ==> (#[trigger] attributes[i]).0 != key,
    ensures
        !request_record(is_structural_allowed, attributes).contains_key(key),
    decreases attributes.len(),
{
    if attributes.len() > 0 {
        law_no_other_attribute(is_structural_allowed, attributes.drop_last(), key);
        assert(attributes[attributes.len() - 1].0 != key);
    }
}

/// The order in which a context lists attributes with different keys does not
/// matter to the decision.
pub proof fn law_attribute_order_does_not_matter(
    policies: PolicySet,
    user_id: Seq<char>,
    action: Seq<char>,
    resource_type: Seq<char>,
    resource_id: Seq<char>,
    is_structural_allowed: bool,
    earlier: Seq<(Seq<char>, CedarValueView)>,
    a: (Seq<char>, CedarValueView),
    b: (Seq<char>, CedarValueView),
    later: Seq<(Seq<char>, CedarValueView)>,
)
    requires
        a.0 != b.0,
    ensures
        verdict(
            policies,
            user_id,
            action,
            resource_type,
            resource_id,
            request_record(is_structural_allowed, earlier.push(a).push(b) + later),
        ) == verdict(
            policies,
            user_id,
            action,
            resource_type,
            resource_id,
            request_record(is_structural_allowed, earlier.push(b).push(a) + later),
        ),
{
    lemma_swap(earlier, a, b, later);
}

/// Two neighbours with different keys may be swapped.
proof fn lemma_swap(
    earlier: Seq<(Seq<char>, CedarValueView)>,
    a: (Seq<char>, CedarValueView),
    b: (Seq<char>, CedarValueView),
    later: Seq<(Seq<char>, CedarValueView)>,
)
    requires
        a.0 != b.0,
    ensures
        record_of(earlier.push(a).push(b) + later) == record_of(earlier.push(b).push(a) + later),
    decreases later.len(),
{
    let ab = earlier.push(a).push(b) + later;
    let ba = earlier.push(b).push(a) + later;
    if later.len() == 0 {
        assert(ab =~= earlier.push(a).push(b));
        assert(ba =~= earlier.push(b).push(a));
        assert(ab.drop_last() =~= earlier.push(a));
        assert(ba.drop_last() =~= earlier.push(b));
        assert(ab.drop_last().drop_last() =~= earlier);
        assert(ba.drop_last().drop_last() =~= earlier);
        reveal_with_fuel(record_of, 3);
        assert(record_of(ab) =~= record_of(ba));
    } else {
        lemma_swap(earlier, a, b, later.drop_last());
        assert(ab.drop_last() =~= earlier.push(a).push(b) + later.drop_last());
        assert(ba.drop_last() =~= earlier.push(b).push(a) + later.drop_last());
    }
}

/// A value reaches Cedar as the literal of that value, whatever it is.
pub proof fn law_values_become_their_literals(flag: bool, number: i64, text: Seq<char>)
    ensures
        expression_of(CedarValueView::Bool(flag)) == bool_expression(flag),
        expression_of(CedarValueView::I64(number)) == long_expression(number),
        expression_of(CedarValueView::Str(text)) == string_expression(text),
{
}

/// The last pair with a key gives the key its value.
proof fn lemma_record_last<V>(pairs: Seq<(Seq<char>, V)>, i: int)
    requires
        0 <= i < pairs.len(),
        forall|j: int| i < j < pairs.len() ==> (#[trigger] pairs[j]).0 != pairs[i].0,
    ensures
        record_of(pairs).contains_pair(pairs[i].0, pairs[i].1),
    decreases pairs.len(),
{
    if i < pairs.len() - 1 {
        let front = pairs.drop_last();
        assert forall|j: int| i < j < front.len() implies (#[trigger] front[j]).0 != front[i].0 by {
            assert(front[j] == pairs[j]);
        }
        lemma_record_last(front, i);
        assert(pairs[pairs.len() - 1].0 != pairs[i].0);
    }
}

/// A key of the record is the key of a pair, and so of a last one.
proof fn lemma_record_key<V>(pairs: Seq<(Seq<char>, V)>, key: Seq<char>) -> (i: int)
    requires
        record_of(pairs).contains_key(key),
    ensures
        0 <= i < pairs.len(),
        pairs[i].0 == key,
        forall|j: int| i < j < pairs.len() ==> (#[trigger] pairs[j]).0 != key,
        record_of(pairs)[key] == pairs[i].1,
    decreases pairs.len(),
{
    if pairs.last().0 == key {
        pairs.len() - 1
    } else {
        let front = pairs.drop_last();
        let i = lemma_record_key(front, key);
        assert forall|j: int| i < j < pairs.len() implies (#[trigger] pairs[j]).0 != key by {
            if j < front.len() {
                assert(front[j] == pairs[j]);
            }
        }
        i
    }
}

/// The key of any pair is a key of the record.
proof fn lemma_record_has<V>(pairs: Seq<(Seq<char>, V)>, i: int)
    requires
        0 <= i < pairs.len(),
    ensures
        record_of(pairs).contains_key(pairs[i].0),
    decreases pairs.len(),
{
    if i < pairs.len() - 1 {
        assert(pairs.drop_last()[i] == pairs[i]);
        lemma_record_has(pairs.drop_last(), i);
    }
}

/// A Cedar record that has the structural answer, and under each other key the
/// literal of the value that was written last, is the record of the request.
proof fn lemma_record_of_request<'a>(
    is_structural_allowed: bool,
    attributes: CedarContextBuilder<'a>,
    record: Map<Seq<char>, RestrictedExpression>,
)
    requires
        forall|key: Seq<char>| #[trigger]
            record.contains_key(key) <==> key == "is_structural_allowed"@ || exists|i: int|
                0 <= i < attributes.entries@.len() && (#[trigger] attributes.entries@[i]).0@ == key,
        record["is_structural_allowed"@] == expression_of(
            CedarValueView::Bool(is_structural_allowed),
        ),
        forall|i: int|
            0 <= i < attributes.entries@.len() && (#[trigger] attributes.entries@[i]).0@
                != "is_structural_allowed"@ && (forall|j: int|
                i < j < attributes.entries@.len() ==> (#[trigger] attributes.entries@[j]).0@
                    != attributes.entries@[i].0@) ==> record[attributes.entries@[i].0@]
                == expression_of(attributes.entries@[i].1@),
    ensures
        record == expressions_of(request_record(is_structural_allowed, attributes@)),
{
    let entries = attributes.entries@;
    let pairs = attributes@;
    let expected = expressions_of(request_record(is_structural_allowed, pairs));
    assert forall|key: Seq<char>| #[trigger] record.contains_key(key) <==> expected.contains_key(
        key,
    ) by {
        if record.contains_key(key) && key != "is_structural_allowed"@ {
            let i = choose|i: int| 0 <= i < entries.len() && (#[trigger] entries[i]).0@ == key;
            assert(pairs[i].0 == key);
            lemma_record_has(pairs, i);
        }
        if expected.contains_key(key) && key != "is_structural_allowed"@ {
            let i = lemma_record_key(pairs, key);
            assert(entries[i].0@ == key);
        }
    }
    assert forall|key: Seq<char>| #[trigger] record.contains_key(key) implies record[key]
        == expected[key] by {
        if key != "is_structural_allowed"@ {
            assert(expected.contains_key(key));
            let i = lemma_record_key(pairs, key);
            assert(entries[i].0@ == key && entries[i].1@ == pairs[i].1);
            assert forall|j: int| i < j < entries.len() implies (#[trigger] entries[j]).0@
                != entries[i].0@ by {
                assert(pairs[j].0 == entries[j].0@);
            }
        }
    }
    assert(record =~= expected);
}

/// What the policies decide about a request. The principal is the `User` with
/// the user's identifier, the action the `Action` with the action's, the resource
/// the one of the given type and identifier. The context holds what ReBAC
/// answered as `is_structural_allowed`, and under every other key that was
/// written, and no more, the literal of the value that was written last: for an
/// integer the literal of that integer, for a boolean of that boolean, for a
/// string of that string. The request passes exactly if Cedar allows it.
pub proof fn law_policies_see_what_was_written<'a>(
    engine: AbacEngine,
    is_structural_allowed: bool,
    user_id: &str,
    action: &str,
    resource_type: &str,
    resource_id: &str,
    attributes: CedarContextBuilder<'a>,
    r: Result<bool, AuthError>,
    principal: EntityUid,
    action_uid: EntityUid,
    resource: EntityUid,
    record: Map<Seq<char>, RestrictedExpression>,
)
    requires
        call_ensures(
            AbacEngine::evaluate,
            (
                &engine,
                is_structural_allowed,
                user_id,
                action,
                resource_type,
                resource_id,
                &attributes,
            ),
            r,
        ),
    ensures
        ({
            &&& parsed_entity_uid("User"@ + "::\""@ + user_id@ + "\""@) == Ok::<EntityUid, ParseErrors>(
                principal,
            )
            &&& parsed_entity_uid("Action"@ + "::\""@ + action@ + "\""@) == Ok::<
                EntityUid,
                ParseErrors,
            >(action_uid)
            &&& parsed_entity_uid(resource_type@ + "::\""@ + resource_id@ + "\""@) == Ok::<
                EntityUid,
                ParseErrors,
            >(resource)
            &&& forall|key: Seq<char>| #[trigger]
                record.contains_key(key) <==> key == "is_structural_allowed"@ || exists|i: int|
                    0 <= i < attributes.entries@.len() && (#[trigger] attributes.entries@[i]).0@
                        == key
            &&& record["is_structural_allowed"@] == bool_expression(is_structural_allowed)
            &&& forall|i: int|
                0 <= i < attributes.entries@.len() && (#[trigger] attributes.entries@[i]).0@
                    != "is_structural_allowed"@ && (forall|j: int|
                    i < j < attributes.entries@.len() ==> (#[trigger] attributes.entries@[j]).0@
                        != attributes.entries@[i].0@) ==> record[attributes.entries@[i].0@]
                    == match attributes.entries@[i].1 {
                    CedarValueRef::Bool(flag) => bool_expression(flag),
                    CedarValueRef::I64(number) => long_expression(number),
                    CedarValueRef::Str(text) => string_expression(text@),
                }
        }) ==> match context_of(record) {
            Ok(context) => r == Ok::<bool, AuthError>(
                authorization(
                    request_of(principal, action_uid, resource, context),
                    engine.policies(),
                ) == CedarDecision::Allow,
            ),
            Err(e) => {
                &&& r matches Err(AuthError::CedarEvaluation { message })
                &&& message@ == context_error_text(e)
            },
        },
{
    if ({
        &&& forall|key: Seq<char>| #[trigger]
            record.contains_key(key) <==> key == "is_structural_allowed"@ || exists|i: int|
                0 <= i < attributes.entries@.len() && (#[trigger] attributes.entries@[i]).0@ == key
        &&& record["is_structural_allowed"@] == bool_expression(is_structural_allowed)
        &&& forall|i: int|
            0 <= i < attributes.entries@.len() && (#[trigger] attributes.entries@[i]).0@
                != "is_structural_allowed"@ && (forall|j: int|
                i < j < attributes.entries@.len() ==> (#[trigger] attributes.entries@[j]).0@
                    != attributes.entries@[i].0@) ==> record[attributes.entries@[i].0@]
                == match attributes.entries@[i].1 {
                CedarValueRef::Bool(flag) => bool_expression(flag),
                CedarValueRef::I64(number) => long_expression(number),
                CedarValueRef::Str(text) => string_expression(text@),
            }
    }) {
        lemma_record_of_request(is_structural_allowed, attributes, record);
    }
}

/// An identifier or a type that makes no Cedar entity is refused as an invalid
/// input, with Cedar's description: the user's first, then the action's, then
/// the resource's.
pub proof fn law_bad_entities_are_refused<'a>(
    engine: AbacEngine,
    is_structural_allowed: bool,
    user_id: &str,
    action: &str,
    resource_type: &str,
    resource_id: &str,
    attributes: CedarContextBuilder<'a>,
    r: Result<bool, AuthError>,
)
    requires
        call_ensures(
            AbacEngine::evaluate,
            (
                &engine,
                is_structural_allowed,
                user_id,
                action,
                resource_type,
                resource_id,
                &attributes,
            ),
            r,
        ),
    ensures
        ({
            let user = parsed_entity_uid("User"@ + "::\""@ + user_id@ + "\""@);
            let act = parsed_entity_uid("Action"@ + "::\""@ + action@ + "\""@);
            let resource = parsed_entity_uid(
                resource_type@ + "::\""@ + resource_id@ + "\""@,
            );
            &&& user is Err ==> {
                &&& r matches Err(AuthError::ValidationError { message })
                &&& message@ == parse_errors_text(user->Err_0)
            }
            &&& user is Ok && act is Err ==> {
                &&& r matches Err(AuthError::ValidationError { message })
                &&& message@ == parse_errors_text(act->Err_0)
            }
            &&& user is Ok && act is Ok && resource is Err ==> {
                &&& r matches Err(AuthError::ValidationError { message })
                &&& message@ == parse_errors_text(resource->Err_0)
            }
        }),
{
}

/// What the policies decide about a request whose place, time and device are
/// known. They see, beside what ReBAC answered, whether the device is compliant,
/// the text of the address and the text of the timestamp, and nothing more.
pub proof fn law_policies_see_place_time_and_device(
    engine: AbacEngine,
    is_structural_allowed: bool,
    user_id: &str,
    action: &str,
    resource_type: &str,
    resource_id: &str,
    ctx: EvaluationContext,
    r: Result<bool, AuthError>,
    principal: EntityUid,
    action_uid: EntityUid,
    resource: EntityUid,
    record: Map<Seq<char>, RestrictedExpression>,
)
    requires
        call_ensures(
            AbacEngine::is_allowed,
            (
                &engine,
                is_structural_allowed,
                user_id,
                action,
                resource_type,
                resource_id,
                &ctx,
            ),
            r,
        ),
    ensures
        ({
            &&& parsed_entity_uid("User"@ + "::\""@ + user_id@ + "\""@) == Ok::<EntityUid, ParseErrors>(
                principal,
            )
            &&& parsed_entity_uid("Action"@ + "::\""@ + action@ + "\""@) == Ok::<
                EntityUid,
                ParseErrors,
            >(action_uid)
            &&& parsed_entity_uid(resource_type@ + "::\""@ + resource_id@ + "\""@) == Ok::<
                EntityUid,
                ParseErrors,
            >(resource)
            &&& forall|key: Seq<char>| #[trigger]
                record.contains_key(key) <==> key == "is_structural_allowed"@ || key
                    == "device_compliant"@ || key == "ip_address"@ || key == "timestamp_rfc3339"@
            &&& record["is_structural_allowed"@] == bool_expression(is_structural_allowed)
            &&& record["device_compliant"@] == bool_expression(ctx.device_compliant)
            &&& record["ip_address"@] == string_expression(ctx.ip_address@)
            &&& record["timestamp_rfc3339"@] == string_expression(ctx.timestamp.text())
        }) ==> match context_of(record) {
            Ok(context) => r == Ok::<bool, AuthError>(
                authorization(
                    request_of(principal, action_uid, resource, context),
                    engine.policies(),
                ) == CedarDecision::Allow,
            ),
            Err(e) => {
                &&& r matches Err(AuthError::CedarEvaluation { message })
                &&& message@ == context_error_text(e)
            },
        },
{
    reveal_strlit("is_structural_allowed");
    reveal_strlit("device_compliant");
    reveal_strlit("ip_address");
    reveal_strlit("timestamp_rfc3339");
    let pairs = ctx.attributes();
    let expected = expressions_of(request_record(is_structural_allowed, pairs));
    assert(pairs.drop_last().drop_last().drop_last() =~= Seq::empty());
    reveal_with_fuel(record_of, 4);
    assert(pairs.last() == ("timestamp_rfc3339"@, CedarValueView::Str(ctx.timestamp.text())));
    assert(pairs.drop_last().last() == ("ip_address"@, CedarValueView::Str(ctx.ip_address@)));
    assert(pairs.drop_last().drop_last().last() == (
        "device_compliant"@,
        CedarValueView::Bool(ctx.device_compliant),
    ));
    if ({
        &&& forall|key: Seq<char>| #[trigger]
            record.contains_key(key) <==> key == "is_structural_allowed"@ || key
                == "device_compliant"@ || key == "ip_address"@ || key == "timestamp_rfc3339"@
        &&& record["is_structural_allowed"@] == bool_expression(is_structural_allowed)
        &&& record["device_compliant"@] == bool_expression(ctx.device_compliant)
        &&& record["ip_address"@] == string_expression(ctx.ip_address@)
        &&& record["timestamp_rfc3339"@] == string_expression(ctx.timestamp.text())
    }) {
        assert("is_structural_allowed"@.len() == 21);
        assert("device_compliant"@.len() == 16);
        assert("ip_address"@.len() == 10);
        assert("timestamp_rfc3339"@.len() == 17);
        assert(record =~= expected);
    }
}

/// An engine decides by the policies of its text, before and after an update. A
/// text that Cedar refuses makes no engine, changes none, and is reported with
/// Cedar's description.
pub proof fn law_engine_has_the_policies_of_its_text(
    dsl: &str,
    made: Result<AbacEngine, AuthError>,
    parsed: Result<PolicySet, ParseErrors>,
    policies: Result<PolicySet, AuthError>,
)
    requires
        call_ensures(AbacEngine::new, (dsl,), made),
        call_ensures(policies_or_error, (parsed,), policies),
    ensures
        match parsed_policy_set(dsl@) {
            Ok(set) => made is Ok && made->Ok_0.policies() == set,
            Err(e) => {
                &&& made matches Err(AuthError::CedarValidation { message })
                &&& message@ == parse_errors_text(e)
            },
        },
        match parsed {
            Ok(set) => policies == Ok::<PolicySet, AuthError>(set),
            Err(e) => {
                &&& policies matches Err(AuthError::CedarValidation { message })
                &&& message@ == parse_errors_text(e)
            },
        },
        forall|engine: &mut AbacEngine, updated: Result<(), AuthError>| #[trigger]
            call_ensures(AbacEngine::update_policies, (engine, dsl), updated)
                ==> match parsed_policy_set(dsl@) {
                Ok(set) => updated is Ok && final(engine).policies() == set,
                Err(e) => {
                    &&& updated matches Err(AuthError::CedarValidation { message })
                    &&& message@ == parse_errors_text(e)
                    &&& *final(engine) == *engine
                },
            },
{
}

/// The attributes that are handed to Cedar: no key twice, the structural answer
/// among them, for every key that was written the value that was written last,
/// and nothing else.
pub proof fn law_each_key_is_handed_over_once<'a>(
    is_structural_allowed: bool,
    attributes: CedarContextBuilder<'a>,
    pairs: Vec<(&'a str, CedarValueRef<'a>)>,
)
    requires
        call_ensures(
            request_attributes,
            (is_structural_allowed, &attributes),
            pairs,
        ),
    ensures
        forall|i: int, j: int|
            0 <= i < j < pairs@.len() ==> (#[trigger] pairs@[i]).0@ != (#[trigger] pairs@[j]).0@,
        exists|i: int|
            0 <= i < pairs@.len() && (#[trigger] pairs@[i]).0@ == "is_structural_allowed"@,
        forall|j: int|
            0 <= j < attributes.entries@.len() ==> exists|i: int|
                0 <= i < pairs@.len() && (#[trigger] pairs@[i]).0@ == (
                #[trigger] attributes.entries@[j]).0@,
        forall|i: int|
            0 <= i < pairs@.len() && (#[trigger] pairs@[i]).0@ == "is_structural_allowed"@ ==> (
            pairs@[i].1 matches CedarValueRef::Bool(flag) && flag == is_structural_allowed),
        forall|i: int|
            0 <= i < pairs@.len() && (#[trigger] pairs@[i]).0@ != "is_structural_allowed"@
                ==> exists|j: int|
                {
                    &&& 0 <= j < attributes.entries@.len()
                    &&& (#[trigger] attributes.entries@[j]).0@ == pairs@[i].0@
                    &&& forall|k: int|
                        j < k < attributes.entries@.len() ==> (#[trigger] attributes.entries@[k]).0@
                            != pairs@[i].0@
                    &&& match (attributes.entries@[j].1, pairs@[i].1) {
                        (CedarValueRef::Bool(a), CedarValueRef::Bool(b)) => a == b,
                        (CedarValueRef::I64(a), CedarValueRef::I64(b)) => a == b,
                        (CedarValueRef::Str(a), CedarValueRef::Str(b)) => a@ == b@,
                        _ => false,
                    }
                },
{
    let entries = attributes.entries@;
    let written = attributes@;
    let handed = entries_view(pairs@);
    let record = request_record(is_structural_allowed, written);
    assert forall|i: int, j: int| 0 <= i < j < pairs@.len() implies (#[trigger] pairs@[i]).0@ != (
    #[trigger] pairs@[j]).0@ by {
        assert(handed[i].0 != handed[j].0);
    }
    let s = lemma_record_key(handed, "is_structural_allowed"@);
    assert(pairs@[s].0@ == "is_structural_allowed"@);
    assert forall|j: int| 0 <= j < entries.len() implies exists|i: int|
        0 <= i < pairs@.len() && (#[trigger] pairs@[i]).0@ == (#[trigger] entries[j]).0@ by {
        assert(written[j].0 == entries[j].0@);
        lemma_record_has(written, j);
        let i = lemma_record_key(handed, entries[j].0@);
        assert(pairs@[i].0@ == entries[j].0@);
    }
    assert forall|i: int| 0 <= i < pairs@.len() implies record.contains_pair(
        (#[trigger] pairs@[i]).0@,
        pairs@[i].1@,
    ) by {
        assert(handed[i] == (pairs@[i].0@, pairs@[i].1@));
        lemma_record_last(handed, i);
    }
    assert forall|i: int|
        0 <= i < pairs@.len() && (#[trigger] pairs@[i]).0@
            != "is_structural_allowed"@ implies exists|j: int|
        {
            &&& 0 <= j < entries.len()
            &&& (#[trigger] entries[j]).0@ == pairs@[i].0@
            &&& forall|k: int| j < k < entries.len() ==> (#[trigger] entries[k]).0@ != pairs@[i].0@
            &&& match (entries[j].1, pairs@[i].1) {
                (CedarValueRef::Bool(a), CedarValueRef::Bool(b)) => a == b,
                (CedarValueRef::I64(a), CedarValueRef::I64(b)) => a == b,
                (CedarValueRef::Str(a), CedarValueRef::Str(b)) => a@ == b@,
                _ => false,
            }
        } by {
        let j = lemma_record_key(written, pairs@[i].0@);
        assert(written[j] == (entries[j].0@, entries[j].1@));
        assert forall|k: int| j < k < entries.len() implies (#[trigger] entries[k]).0@
            != pairs@[i].0@ by {
            assert(written[k].0 == entries[k].0@);
        }
        assert(entries[j].1@ == pairs@[i].1@);
        assert(entries[j].0@ == pairs@[i].0@);
    }
}

/// An entity is written as its type, two colons and its identifier between
/// quotes, with nothing changed in either; and a request passes only if Cedar
/// allows it.
pub proof fn law_entity_is_its_type_and_identifier(
    entity_type: &str,
    entity_id: &str,
    text: String,
    decision: CedarDecision,
    passes: bool,
)
    requires
        call_ensures(entity_text, (entity_type, entity_id), text),
        call_ensures(allows, (decision,), passes),
    ensures
        text@ == entity_type@ + seq![':', ':', '"'] + entity_id@ + seq!['"'],
        passes <==> decision is Allow,
{
    reveal_strlit("::\"");
    reveal_strlit("\"");
    assert("::\""@ =~= seq![':', ':', '"']);
    assert("\""@ =~= seq!['"']);
}

} // verus!
