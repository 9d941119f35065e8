//! The calls into the Cedar policy engine.
//!
//! Cedar's values are opaque here. What a call returns is a function of its
//! arguments and has a name; the contracts of the crate are stated over these
//! names.

use cedar_policy::{
    Authorizer, Context, ContextCreationError, Decision, Entities, EntityUid, ParseErrors,
    PolicySet, Request, RequestValidationError, RestrictedExpression,
};
use vstd::prelude::*;

verus! {

/// A parsed set of Cedar policies.
#[verifier::external_type_specification]
#[verifier::external_body]
pub struct ExPolicySet(PolicySet);

/// A Cedar entity: its type and its identifier.
#[verifier::external_type_specification]
#[verifier::external_body]
pub struct ExEntityUid(EntityUid);

/// Cedar's error for a text that it cannot parse.
#[verifier::external_type_specification]
#[verifier::external_body]
pub struct ExParseErrors(ParseErrors);

/// A value in a Cedar context.
#[verifier::external_type_specification]
#[verifier::external_body]
pub struct ExRestrictedExpression(RestrictedExpression);

/// The context of a Cedar request.
#[verifier::external_type_specification]
#[verifier::external_body]
pub struct ExContext(Context);

/// Cedar's error for pairs that make no context.
#[verifier::external_type_specification]
#[verifier::external_body]
pub struct ExContextCreationError(ContextCreationError);

/// A Cedar request.
#[verifier::external_type_specification]
#[verifier::external_body]
pub struct ExRequest(Request);

/// Cedar's error for a request that its schema does not allow.
#[verifier::external_type_specification]
#[verifier::external_body]
pub struct ExRequestValidationError(RequestValidationError);

/// Cedar's authorizer.
#[verifier::external_type_specification]
#[verifier::external_body]
pub struct ExAuthorizer(Authorizer);

/// What Cedar decides about a request.
#[derive(Debug, Clone, Copy, PartialEq, Eq, Structural)]
pub enum CedarDecision {
    /// The request is allowed.
    Allow,
    /// The request is denied.
    Deny,
}

/// What `PolicySet::from_str` returns for a text.
pub uninterp spec fn parsed_policy_set(text: Seq<char>) -> Result<PolicySet, ParseErrors>;

/// What `EntityUid::from_str` returns for a text.
pub uninterp spec fn parsed_entity_uid(text: Seq<char>) -> Result<EntityUid, ParseErrors>;

/// What `RestrictedExpression::new_bool` returns.
pub uninterp spec fn bool_expression(value: bool) -> RestrictedExpression;

/// What `RestrictedExpression::new_long` returns.
pub uninterp spec fn long_expression(value: i64) -> RestrictedExpression;

/// What `RestrictedExpression::new_string` returns.
pub uninterp spec fn string_expression(value: Seq<char>) -> RestrictedExpression;

/// What `Context::from_pairs` returns for pairs with distinct keys.
pub uninterp spec fn context_of(record: Map<Seq<char>, RestrictedExpression>) -> Result<
    Context,
    ContextCreationError,
>;

/// What `Request::new` returns without a schema.
pub uninterp spec fn request_of(
    principal: EntityUid,
    action: EntityUid,
    resource: EntityUid,
    context: Context,
) -> Request;

/// What `Authorizer::is_authorized` decides about a request, by a policy set
/// and without entities.
pub uninterp spec fn authorization(request: Request, policies: PolicySet) -> CedarDecision;

/// What `ParseErrors` displays.
pub uninterp spec fn parse_errors_text(errors: ParseErrors) -> Seq<char>;

/// What `ContextCreationError` displays.
pub uninterp spec fn context_error_text(error: ContextCreationError) -> Seq<char>;

/// The record that a sequence of pairs lists; a later pair replaces an earlier
/// one with the same key.
pub open spec fn record_of<V>(pairs: Seq<(Seq<char>, V)>) -> Map<Seq<char>, V>
    decreases pairs.len(),
{
    if pairs.len() == 0 {
        Map::empty()
    } else {
        record_of(pairs.drop_last()).insert(pairs.last().0, pairs.last().1)
    }
}

/// Whether no key occurs twice.
pub open spec fn distinct_keys<V>(pairs: Seq<(Seq<char>, V)>) -> bool {
    forall|i: int, j: int|
        0 <= i < j < pairs.len() ==> (#[trigger] pairs[i]).0 != (#[trigger] pairs[j]).0
}

/// Pairs with their keys taken as sequences of characters.
pub open spec fn pairs_view(pairs: Seq<(String, RestrictedExpression)>) -> Seq<
    (Seq<char>, RestrictedExpression),
> {
    pairs.map_values(|pair: (String, RestrictedExpression)| (pair.0@, pair.1))
}

/// `PolicySet::from_str`: the policies of the text, or the errors in it. Both
/// depend on the text alone.
#[verifier::external_body]
pub(crate) fn parse_policy_set(text: &str) -> (r: Result<PolicySet, ParseErrors>)
    ensures
        r == parsed_policy_set(text@),
{
    text.parse::<PolicySet>()
}

/// `EntityUid::from_str`: the entity that the text names, or the errors in it.
/// Both depend on the text alone.
#[verifier::external_body]
pub(crate) fn parse_entity_uid(text: &str) -> (r: Result<EntityUid, ParseErrors>)
    ensures
        r == parsed_entity_uid(text@),
{
    text.parse::<EntityUid>()
}

/// `RestrictedExpression::new_bool`: the literal for a boolean.
#[verifier::external_body]
pub(crate) fn new_bool(value: bool) -> (r: RestrictedExpression)
    ensures
        r == bool_expression(value),
{
    RestrictedExpression::new_bool(value)
}

/// `RestrictedExpression::new_long`: the literal for an integer.
#[verifier::external_body]
pub(crate) fn new_long(value: i64) -> (r: RestrictedExpression)
    ensures
        r == long_expression(value),
{
    RestrictedExpression::new_long(value)
}

/// `RestrictedExpression::new_string`: the literal for a string.
#[verifier::external_body]
pub(crate) fn new_string(value: &str) -> (r: RestrictedExpression)
    ensures
        r == string_expression(value@),
{
    RestrictedExpression::new_string(value.to_owned())
}

/// `Context::from_pairs`: the context with the pairs as its attributes. It
/// fails where a key occurs twice; where none does, what it returns depends on
/// which value each key has, and not on the order of the pairs.
///
/// It fails too where less than 100 KiB of stack are left; the name speaks of
/// calls with more.
#[verifier::external_body]
pub(crate) fn context_from_pairs(pairs: Vec<(String, RestrictedExpression)>) -> (r: Result<
    Context,
    ContextCreationError,
>)
    ensures
        distinct_keys(pairs_view(pairs@)) ==> r == context_of(record_of(pairs_view(pairs@))),
        !distinct_keys(pairs_view(pairs@)) ==> r is Err,
{
    Context::from_pairs(pairs)
}

/// `Request::new` without a schema: the request is not validated, so there is
/// always one, made of the four parts.
#[verifier::external_body]
pub(crate) fn new_request(
    principal: EntityUid,
    action: EntityUid,
    resource: EntityUid,
    context: Context,
) -> (r: Result<Request, RequestValidationError>)
    ensures
        r is Ok,
        r matches Ok(request) ==> request == request_of(principal, action, resource, context),
{
    Request::new(principal, action, resource, context, None)
}

/// `Authorizer::new`: an authorizer. It holds no policies, and any two decide alike.
#[verifier::external_body]
pub(crate) fn new_authorizer() -> Authorizer {
    Authorizer::new()
}

/// `Authorizer::is_authorized` with no entities: the decision depends on the
/// request and the policies alone. An authorizer has nothing that could be set,
/// so which one is asked does not matter.
///
/// Cedar skips a policy whose evaluation fails. One such failure is that less
/// than 100 KiB of stack are left; the name speaks of calls with more.
#[verifier::external_body]
pub(crate) fn is_authorized(authorizer: &Authorizer, request: &Request, policies: &PolicySet) -> (r:
    CedarDecision)
    ensures
        r == authorization(*request, *policies),
{
    match authorizer.is_authorized(request, policies, &Entities::empty()).decision() {
        Decision::Allow => CedarDecision::Allow,
        Decision::Deny => CedarDecision::Deny,
    }
}

/// `Display` of `ParseErrors`: a text that depends on the errors alone.
#[verifier::external_body]
pub(crate) fn display_parse_errors(errors: &ParseErrors) -> (text: String)
    ensures
        text@ == parse_errors_text(*errors),
{
    errors.to_string()
}

/// `Display` of `ContextCreationError`: a text that depends on the error alone.
#[verifier::external_body]
pub(crate) fn display_context_error(error: &ContextCreationError) -> (text: String)
    ensures
        text@ == context_error_text(*error),
{
    error.to_string()
}

} // verus!
