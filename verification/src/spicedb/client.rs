//! What a connection to SpiceDB is made from: the endpoint and the header that
//! authenticates each call.

use tonic::metadata::errors::InvalidMetadataValue;
use tonic::metadata::{Ascii, MetadataValue};
use tonic::transport::Endpoint;
use vstd::prelude::*;
use vstd::utf8::encode_utf8;

use crate::types::{outcome, AuthError, AuthErrorView};

verus! {

/// tonic's endpoint, carried through to the transport.
#[verifier::external_type_specification]
#[verifier::external_body]
pub struct ExEndpoint(Endpoint);

/// tonic's transport error.
#[verifier::external_type_specification]
#[verifier::external_body]
pub struct ExTransportError(tonic::transport::Error);

/// tonic's error for a text that is no metadata value.
#[verifier::external_type_specification]
#[verifier::external_body]
pub struct ExInvalidMetadataValue(InvalidMetadataValue);

/// What `Endpoint::from_shared` returns for a text.
pub uninterp spec fn shared_endpoint(text: Seq<char>) -> Result<Endpoint, tonic::transport::Error>;

/// What `tonic::transport::Error` displays.
pub uninterp spec fn transport_error_text(error: tonic::transport::Error) -> Seq<char>;

/// `Endpoint::from_shared`: the endpoint that the text names, a function of the
/// text. The one way in which it fails is an invalid URI.
#[verifier::external_body]
fn endpoint_from_shared(text: &str) -> (r: Result<Endpoint, tonic::transport::Error>)
    ensures
        r == shared_endpoint(text@),
        r matches Err(e) ==> transport_error_text(e) == "invalid URI"@,
{
    Endpoint::from_shared(text.to_owned())
}

/// `Display` of `tonic::transport::Error`: a text that depends on the error alone.
#[verifier::external_body]
fn display_transport_error(error: &tonic::transport::Error) -> (text: String)
    ensures
        text@ == transport_error_text(*error),
{
    error.to_string()
}

/// Whether a character may stand in a metadata value: a tab, or anything from
/// the space on but the delete character.
pub open spec fn is_metadata_char(c: char) -> bool {
    c == '\t' || (' ' <= c && c != '\u{7f}')
}

/// Whether a text may be a metadata value.
pub open spec fn is_metadata_text(text: Seq<char>) -> bool {
    forall|i: int| 0 <= i < text.len() ==> is_metadata_char(#[trigger] text[i])
}

/// `MetadataValue::<Ascii>::try_from` on a `String`: accepts the texts whose
/// bytes are tabs or at least 32 and not 127, which are those of
/// [`is_metadata_text`], and keeps their UTF-8 bytes.
#[verifier::external_body]
fn metadata_value(text: String) -> (r: Result<Vec<u8>, InvalidMetadataValue>)
    ensures
        r is Ok <==> is_metadata_text(text@),
        r matches Ok(bytes) ==> bytes@ == encode_utf8(text@),
{
    match MetadataValue::<Ascii>::try_from(text) {
        Ok(value) => Ok(value.as_bytes().to_vec()),
        Err(e) => Err(e),
    }
}

/// `Display` of tonic's `InvalidMetadataValue`: always the same text.
#[verifier::external_body]
fn display_invalid_metadata(error: &InvalidMetadataValue) -> (text: String)
    ensures
        text@ == "failed to parse metadata value"@,
{
    error.to_string()
}

/// The endpoint that a text names.
///
/// # Errors
///
/// A text that is no endpoint.
pub fn endpoint(text: &str) -> (r: Result<Endpoint, AuthError>)
    ensures
        outcome(r) == endpoint_outcome(shared_endpoint(text@)),
        r matches Err(e) ==> e@ == (AuthErrorView::ValidationError { message: "invalid URI"@ }),
{
    endpoint_or_error(endpoint_from_shared(text))
}

/// The endpoint, or the validation error that describes why there is none.
pub open spec fn endpoint_outcome(parsed: Result<Endpoint, tonic::transport::Error>) -> Result<
    Endpoint,
    AuthErrorView,
> {
    match parsed {
        Ok(endpoint) => Ok(endpoint),
        Err(e) => Err(AuthErrorView::ValidationError { message: transport_error_text(e) }),
    }
}

/// The endpoint, or the validation error that describes why there is none.
pub fn endpoint_or_error(parsed: Result<Endpoint, tonic::transport::Error>) -> (r: Result<
    Endpoint,
    AuthError,
>)
    ensures
        outcome(r) == endpoint_outcome(parsed),
{
    match parsed {
        Ok(endpoint) => Ok(endpoint),
        Err(e) => Err(AuthError::validation(display_transport_error(&e))),
    }
}

/// The error for an endpoint that could not be connected to.
pub fn connect_failed(endpoint: &str, source: String) -> (e: AuthError)
    ensures
        e@ == (AuthErrorView::SpiceDbTransport {
            operation: "connect"@,
            endpoint: endpoint@,
            source: source@,
        }),
{
    AuthError::spicedb_transport("connect", endpoint, source)
}

/// The header that authenticates a call.
#[derive(Debug)]
pub struct BearerToken {
    /// The name of the header.
    pub header_key: &'static str,
    /// The bytes of its value.
    pub header_value: Vec<u8>,
}

/// The header for a token.
///
/// # Errors
///
/// A token with a character that a header cannot hold.
pub fn bearer_token(token: &str) -> (r: Result<BearerToken, AuthError>)
    ensures
        r is Ok <==> is_metadata_text(token@),
        r matches Ok(header) ==> {
            &&& header.header_key@ == "authorization"@
            &&& header.header_value@ == encode_utf8("Bearer "@ + token@)
        },
        r matches Err(e) ==> e@ == (AuthErrorView::ValidationError {
            message: "failed to parse metadata value"@,
        }),
{
    let text = "Bearer ".to_owned().concat(token);
    proof {
        let prefix = "Bearer "@;
        reveal_strlit("Bearer ");
        assert forall|i: int| 0 <= i < prefix.len() implies is_metadata_char(
            #[trigger] prefix[i],
        ) by {}
        if is_metadata_text(text@) {
            assert forall|i: int| 0 <= i < token@.len() implies is_metadata_char(
                #[trigger] token@[i],
            ) by {
                assert(text@[prefix.len() + i] == token@[i]);
            }
        }
    }
    match metadata_value(text) {
        Ok(header_value) => Ok(BearerToken { header_key: "authorization", header_value }),
        Err(e) => Err(AuthError::validation(display_invalid_metadata(&e))),
    }
}

/// The header carries the token as it is, behind the word `Bearer`. There is one
/// exactly for the tokens without control characters, the tab excepted.
pub proof fn law_header_carries_the_token(token: &str, r: Result<BearerToken, AuthError>)
    requires
        call_ensures(bearer_token, (token,), r),
    ensures
        r is Ok <==> forall|i: int|
            0 <= i < token@.len() ==> (#[trigger] token@[i] == '\t' || ' ' <= token@[i])
                && token@[i] != '\u{7f}',
        r matches Ok(header) ==> {
            &&& header.header_key@ == "authorization"@
            &&& header.header_value@ == encode_utf8("Bearer "@ + token@)
        },
        r matches Err(e) ==> {
            &&& e matches AuthError::ValidationError { message }
            &&& message@ == "failed to parse metadata value"@
        },
{
    if r is Ok {
        assert forall|i: int| 0 <= i < token@.len() implies (#[trigger] token@[i] == '\t'
            || ' ' <= token@[i]) && token@[i] != '\u{7f}' by {
            assert(is_metadata_char(token@[i]));
        }
    }
    if forall|i: int|
        0 <= i < token@.len() ==> (#[trigger] token@[i] == '\t' || ' ' <= token@[i])
            && token@[i] != '\u{7f}' {
        assert forall|i: int| 0 <= i < token@.len() implies is_metadata_char(
            #[trigger] token@[i],
        ) by {}
    }
}

/// The endpoint is the one that tonic makes of the text, and there is one
/// whenever tonic makes one. Where it makes none, the text is at fault.
pub proof fn law_endpoint_is_that_of_the_text(text: &str, r: Result<Endpoint, AuthError>)
    requires
        call_ensures(endpoint, (text,), r),
    ensures
        r is Ok <==> shared_endpoint(text@) is Ok,
        r matches Ok(made) ==> shared_endpoint(text@) == Ok::<
            Endpoint,
            tonic::transport::Error,
        >(made),
        r matches Err(e) ==> {
            &&& e matches AuthError::ValidationError { message }
            &&& message@ == "invalid URI"@
        },
{
}

/// A failed connection is reported with the endpoint and the transport's words.
pub proof fn law_failed_connection_is_described(
    endpoint_text: &str,
    cause: String,
    error: AuthError,
)
    requires
        call_ensures(connect_failed, (endpoint_text, cause), error),
    ensures
        error matches AuthError::SpiceDbTransport { operation, endpoint: e, source } && operation@
            == "connect"@ && e@ == endpoint_text@ && source@ == cause@,
{
}

/// An endpoint that was made is taken as it is, and one that was not is an
/// invalid input, in the transport's words.
pub proof fn law_made_endpoint_is_taken_as_it_is(
    made: Result<Endpoint, tonic::transport::Error>,
    r: Result<Endpoint, AuthError>,
)
    requires
        call_ensures(endpoint_or_error, (made,), r),
    ensures
        made matches Ok(e) ==> r == Ok::<Endpoint, AuthError>(e),
        made matches Err(cause) ==> {
            &&& r matches Err(AuthError::ValidationError { message })
            &&& message@ == transport_error_text(cause)
        },
{
}

} // verus!
