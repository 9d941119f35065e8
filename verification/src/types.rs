//! Domain types shared across modules.

use std::borrow::Cow;
use std::path::PathBuf;

use chrono::{DateTime, Timelike, Utc};
use vstd::prelude::*;

verus! {

/// The second with which chrono's calendar begins, -262143-01-01T00:00:00Z.
pub const FIRST_SECOND: i64 = -8_334_601_228_800;

/// The second with which chrono's calendar ends, +262142-12-31T23:59:59Z.
pub const LAST_SECOND: i64 = 8_210_266_876_799;

/// Whether a second, counted from 1970-01-01T00:00:00Z, and nanoseconds in it
/// are a moment of chrono's calendar. A leap second counts as a second with
/// more than a billion nanoseconds.
pub open spec fn is_moment(secs: i64, nanos: u32) -> bool {
    FIRST_SECOND <= secs <= LAST_SECOND && nanos < 2_000_000_000
}

/// What `DateTime::<Utc>::to_rfc3339` returns for the moment with these seconds
/// since 1970-01-01T00:00:00Z and these nanoseconds.
pub uninterp spec fn rfc3339_text(secs: i64, nanos: u32) -> Seq<char>;

/// `DateTime::<Utc>::to_rfc3339` on the moment that `DateTime::from_timestamp`
/// and `NaiveDateTime::with_nanosecond` make of two numbers. There is one for
/// the seconds of chrono's calendar, whichever of them it is, and less than two
/// billion nanoseconds. The text depends on the two numbers alone.
#[verifier::external_body]
fn format_rfc3339(secs: i64, nanos: u32) -> (text: Option<String>)
    ensures
        text is Some <==> is_moment(secs, nanos),
        text matches Some(t) ==> t@ == rfc3339_text(secs, nanos),
{
    let second = DateTime::<Utc>::from_timestamp(secs, 0)?;
    let moment = second.naive_utc().with_nanosecond(nanos)?.and_utc();
    Some(moment.to_rfc3339())
}

/// A moment in time, in UTC.
#[derive(Debug, Clone, Copy)]
pub struct Timestamp {
    secs: i64,
    nanos: u32,
}

impl Timestamp {
    /// A timestamp is a moment of the calendar.
    #[verifier::type_invariant]
    spec fn inv(self) -> bool {
        is_moment(self.secs, self.nanos)
    }

    /// The RFC 3339 text of the moment.
    pub closed spec fn text(self) -> Seq<char> {
        rfc3339_text(self.secs, self.nanos)
    }

    /// The moment with so many seconds since 1970-01-01T00:00:00Z and so many
    /// nanoseconds, if there is one.
    pub fn from_unix(secs: i64, nanos: u32) -> (timestamp: Option<Timestamp>)
        ensures
            timestamp is Some <==> is_moment(secs, nanos),
            timestamp matches Some(t) ==> t.text() == rfc3339_text(secs, nanos),
    {
        if FIRST_SECOND <= secs && secs <= LAST_SECOND && nanos < 2_000_000_000 {
            Some(Timestamp { secs, nanos })
        } else {
            None
        }
    }

    /// The RFC 3339 text of the moment, such as `2026-05-24T12:00:00+00:00`.
    pub fn to_rfc3339(&self) -> (text: String)
        ensures
            text@ == self.text(),
    {
        proof {
            use_type_invariant(*self);
        }
        format_rfc3339(self.secs, self.nanos).unwrap()
    }
}

/// A context that many applications may want: where, when and from what device
/// a request comes.
#[derive(Debug)]
pub struct EvaluationContext {
    /// The text of the caller's IP address.
    pub ip_address: String,
    /// When the request is evaluated.
    pub timestamp: Timestamp,
    /// Whether the caller's device is compliant.
    pub device_compliant: bool,
}

impl EvaluationContext {
    /// The attributes by which Cedar sees the context.
    pub open spec fn attributes(&self) -> Seq<(Seq<char>, CedarValueView)> {
        seq![
            ("device_compliant"@, CedarValueView::Bool(self.device_compliant)),
            ("ip_address"@, CedarValueView::Str(self.ip_address@)),
            ("timestamp_rfc3339"@, CedarValueView::Str(self.timestamp.text())),
        ]
    }
}

impl Clone for EvaluationContext {
    fn clone(&self) -> (copy: Self)
        ensures
            copy == *self,
    {
        EvaluationContext {
            ip_address: self.ip_address.clone(),
            timestamp: self.timestamp,
            device_compliant: self.device_compliant,
        }
    }
}

/// `std::path::PathBuf`, carried through as an opaque value.
#[verifier::external_type_specification]
#[verifier::external_body]
pub struct ExPathBuf(PathBuf);

/// `Cow::from` on a `&str`: the string slice is borrowed.
pub assume_specification<'a>[ <Cow<'a, str> as From<&'a str>>::from ](s: &'a str) -> (r: Cow<
    'a,
    str,
>)
    ensures
        r == Cow::Borrowed(s),
;

/// `Cow::from` on a `String`: the string is owned.
pub assume_specification<'a>[ <Cow<'a, str> as From<String>>::from ](s: String) -> (r: Cow<'a, str>)
    ensures
        r == Cow::<str>::Owned(s),
;

/// `PathBuf::clone`: an equal path.
pub assume_specification[ <PathBuf as Clone>::clone ](p: &PathBuf) -> (r: PathBuf)
    ensures
        r == *p,
;

/// A policy or schema text, held in memory or to be read from a file.
#[derive(Debug)]
pub enum TextSource<'a> {
    /// The text itself.
    Inline(Cow<'a, str>),
    /// The path of a file that holds the text.
    Path(PathBuf),
}

/// What loading a [`TextSource`] asks of the caller.
pub enum TextLoad<'a> {
    /// The text is at hand.
    Ready(String),
    /// The file at this path has to be read; its outcome goes to [`text_read`].
    Read(&'a PathBuf),
}

impl<'a> TextSource<'a> {
    /// Begins to load the text: an inline text is handed out at once, a path is
    /// handed to the caller, who reads the file.
    pub fn load_to_string(&self) -> (load: TextLoad<'_>)
        ensures
            match *self {
                TextSource::Inline(text) => load is Ready && load->Ready_0@ == text@,
                TextSource::Path(path) => load is Read && *load->Read_0 == path,
            },
    {
        match self {
            TextSource::Inline(text) => TextLoad::Ready(cow_to_string(text)),
            TextSource::Path(path) => TextLoad::Read(path),
        }
    }

    /// A source that is the file at `path`.
    pub fn from_path<P: Into<PathBuf>>(path: P) -> (source: Self)
        ensures
            source matches TextSource::Path(p) && call_ensures(
                <P as Into<PathBuf>>::into,
                (path,),
                p,
            ),
    {
        TextSource::Path(path.into())
    }

    /// A source that is the text `s`, borrowed or owned.
    pub fn from_inline<S: Into<Cow<'a, str>>>(s: S) -> (source: Self)
        ensures
            source matches TextSource::Inline(text) && call_ensures(
                <S as Into<Cow<'a, str>>>::into,
                (s,),
                text,
            ),
    {
        TextSource::Inline(s.into())
    }
}

impl<'a> Clone for TextSource<'a> {
    fn clone(&self) -> (copy: Self)
        ensures
            copy == *self,
    {
        match self {
            TextSource::Inline(text) => TextSource::Inline(clone_cow(text)),
            TextSource::Path(path) => TextSource::Path(path.clone()),
        }
    }
}

/// An equal borrowed or owned string.
fn clone_cow<'a>(text: &Cow<'a, str>) -> (copy: Cow<'a, str>)
    ensures
        copy == *text,
{
    match text {
        Cow::Borrowed(b) => Cow::from(*b),
        Cow::Owned(o) => Cow::from(o.clone()),
    }
}

/// A borrowed or owned string as a string slice.
pub fn cow_as_str<'b>(text: &'b Cow<'_, str>) -> (s: &'b str)
    ensures
        s@ == text@,
{
    match text {
        Cow::Borrowed(b) => b,
        Cow::Owned(o) => o.as_str(),
    }
}

/// An owned copy of a borrowed or owned string.
pub fn cow_to_string(text: &Cow<'_, str>) -> (s: String)
    ensures
        s@ == text@,
{
    match text {
        Cow::Borrowed(b) => (*b).to_owned(),
        Cow::Owned(o) => o.clone(),
    }
}

/// Ends the load of a [`TextLoad::Read`]: the text that was read, or the error
/// that names the path and what went wrong.
///
/// `path` is the path as it is shown to people, and `read` is what reading the
/// file gave: its text, or the description of the I/O error.
pub fn text_read(path: &str, read: Result<String, String>) -> (r: Result<String, AuthError>)
    ensures
        match read {
            Ok(text) => r == Ok::<String, AuthError>(text),
            Err(source) => r is Err && r->Err_0@ == (AuthErrorView::Io {
                operation: "read_to_string"@,
                path: path@,
                source: source@,
            }),
        },
{
    match read {
        Ok(text) => Ok(text),
        Err(source) => Err(AuthError::io("read_to_string", path, source)),
    }
}

/// What the engine is started with.
///
/// - If `zed_schema` is `None`, the built-in default schema is used.
/// - If `cedar_policies` is `None`, ABAC is disabled and Cedar context is ignored.
#[derive(Debug)]
pub struct LothConfig<'a> {
    /// Endpoint of the SpiceDB cluster.
    pub spicedb_endpoint: Cow<'a, str>,
    /// Preshared bearer token.
    pub spicedb_token: Cow<'a, str>,
    /// The schema to ensure on connection.
    pub zed_schema: Option<TextSource<'a>>,
    /// The Cedar policies to evaluate.
    pub cedar_policies: Option<TextSource<'a>>,
}

impl<'a> LothConfig<'a> {
    /// A configuration for a cluster, with the default schema and no policies.
    pub fn new<E: Into<Cow<'a, str>>, T: Into<Cow<'a, str>>>(endpoint: E, token: T) -> (cfg: Self)
        ensures
            call_ensures(<E as Into<Cow<'a, str>>>::into, (endpoint,), cfg.spicedb_endpoint),
            call_ensures(<T as Into<Cow<'a, str>>>::into, (token,), cfg.spicedb_token),
            cfg.zed_schema is None,
            cfg.cedar_policies is None,
    {
        LothConfig {
            spicedb_endpoint: endpoint.into(),
            spicedb_token: token.into(),
            zed_schema: None,
            cedar_policies: None,
        }
    }

    /// Sets the schema and nothing else.
    pub fn with_zed_schema(self, src: TextSource<'a>) -> (cfg: Self)
        ensures
            cfg == (LothConfig { zed_schema: Some(src), ..self }),
    {
        LothConfig { zed_schema: Some(src), ..self }
    }

    /// Sets the policies and nothing else.
    pub fn with_cedar_policies(self, src: TextSource<'a>) -> (cfg: Self)
        ensures
            cfg == (LothConfig { cedar_policies: Some(src), ..self }),
    {
        LothConfig { cedar_policies: Some(src), ..self }
    }
}

impl<'a> Clone for LothConfig<'a> {
    fn clone(&self) -> (copy: Self)
        ensures
            copy == *self,
    {
        LothConfig {
            spicedb_endpoint: clone_cow(&self.spicedb_endpoint),
            spicedb_token: clone_cow(&self.spicedb_token),
            zed_schema: match &self.zed_schema {
                Some(src) => Some(src.clone()),
                None => None,
            },
            cedar_policies: match &self.cedar_policies {
                Some(src) => Some(src.clone()),
                None => None,
            },
        }
    }
}

/// What went wrong, with the operation during which it did.
///
/// Errors of the layers below (the transport, gRPC, the file system) are held
/// as the text that describes them.
#[derive(Debug)]
pub enum AuthError {
    /// The connection to SpiceDB failed.
    SpiceDbTransport {
        /// What was being done.
        operation: &'static str,
        /// The endpoint that was addressed.
        endpoint: String,
        /// The transport's description of the failure.
        source: String,
    },
    /// SpiceDB answered with a gRPC failure status.
    SpiceDbStatus {
        /// The call that failed.
        operation: &'static str,
        /// The status as text.
        status: String,
    },
    /// SpiceDB, or the replication towards it, is not in the state that is needed.
    SpiceDbProtocol {
        /// What was being done.
        operation: &'static str,
        /// What is wrong.
        message: String,
    },
    /// Cedar refused a text as a policy set.
    CedarValidation {
        /// Cedar's description.
        message: String,
    },
    /// Cedar could not evaluate a request.
    CedarEvaluation {
        /// Cedar's description.
        message: String,
    },
    /// An input does not have the form that it must have.
    ValidationError {
        /// What is wrong with it.
        message: String,
    },
    /// A file could not be read.
    Io {
        /// What was being done.
        operation: &'static str,
        /// The path of the file.
        path: String,
        /// The description of the I/O error.
        source: String,
    },
}

/// The mathematical content of an [`AuthError`].
pub enum AuthErrorView {
    SpiceDbTransport { operation: Seq<char>, endpoint: Seq<char>, source: Seq<char> },
    SpiceDbStatus { operation: Seq<char>, status: Seq<char> },
    SpiceDbProtocol { operation: Seq<char>, message: Seq<char> },
    CedarValidation { message: Seq<char> },
    CedarEvaluation { message: Seq<char> },
    ValidationError { message: Seq<char> },
    Io { operation: Seq<char>, path: Seq<char>, source: Seq<char> },
}

impl View for AuthError {
    type V = AuthErrorView;

    open spec fn view(&self) -> AuthErrorView {
        match *self {
            AuthError::SpiceDbTransport { operation, endpoint, source } =>
                AuthErrorView::SpiceDbTransport {
                operation: operation@,
                endpoint: endpoint@,
                source: source@,
            },
            AuthError::SpiceDbStatus { operation, status } => AuthErrorView::SpiceDbStatus {
                operation: operation@,
                status: status@,
            },
            AuthError::SpiceDbProtocol { operation, message } => AuthErrorView::SpiceDbProtocol {
                operation: operation@,
                message: message@,
            },
            AuthError::CedarValidation { message } => AuthErrorView::CedarValidation {
                message: message@,
            },
            AuthError::CedarEvaluation { message } => AuthErrorView::CedarEvaluation {
                message: message@,
            },
            AuthError::ValidationError { message } => AuthErrorView::ValidationError {
                message: message@,
            },
            AuthError::Io { operation, path, source } => AuthErrorView::Io {
                operation: operation@,
                path: path@,
                source: source@,
            },
        }
    }
}

impl AuthErrorView {
    /// The sentence that describes the error.
    pub open spec fn text(self) -> Seq<char> {
        match self {
            AuthErrorView::SpiceDbTransport { operation, endpoint, .. } =>
                "SpiceDB transport error while "@ + operation + " (endpoint="@ + endpoint + ")"@,
            AuthErrorView::SpiceDbStatus { operation, status } => "SpiceDB gRPC status while "@
                + operation + ": "@ + status,
            AuthErrorView::SpiceDbProtocol { operation, message } =>
                "SpiceDB protocol/validation error while "@ + operation + ": "@ + message,
            AuthErrorView::CedarValidation { message } => "Cedar validation/parsing error: "@
                + message,
            AuthErrorView::CedarEvaluation { message } => "Cedar evaluation error: "@ + message,
            AuthErrorView::ValidationError { message } => "Invalid input: "@ + message,
            AuthErrorView::Io { operation, path, source } => "I/O error while "@ + operation
                + " ("@ + path + "): "@ + source,
        }
    }
}

/// A result with its error taken by its content.
pub open spec fn outcome<T>(r: Result<T, AuthError>) -> Result<T, AuthErrorView> {
    match r {
        Ok(t) => Ok(t),
        Err(e) => Err(e@),
    }
}

impl AuthError {
    /// An input that does not have the form that it must have.
    pub fn validation(message: String) -> (e: Self)
        ensures
            e@ == (AuthErrorView::ValidationError { message: message@ }),
    {
        AuthError::ValidationError { message }
    }

    /// A text that Cedar refuses as a policy set.
    pub fn cedar_validation(message: String) -> (e: Self)
        ensures
            e@ == (AuthErrorView::CedarValidation { message: message@ }),
    {
        AuthError::CedarValidation { message }
    }

    /// A request that Cedar cannot evaluate.
    pub fn cedar_eval(message: String) -> (e: Self)
        ensures
            e@ == (AuthErrorView::CedarEvaluation { message: message@ }),
    {
        AuthError::CedarEvaluation { message }
    }

    /// A failed connection.
    pub fn spicedb_transport(operation: &'static str, endpoint: &str, source: String) -> (e: Self)
        ensures
            e@ == (AuthErrorView::SpiceDbTransport {
                operation: operation@,
                endpoint: endpoint@,
                source: source@,
            }),
    {
        AuthError::SpiceDbTransport { operation, endpoint: endpoint.to_owned(), source }
    }

    /// A gRPC failure status.
    pub fn spicedb_status(operation: &'static str, status: String) -> (e: Self)
        ensures
            e@ == (AuthErrorView::SpiceDbStatus { operation: operation@, status: status@ }),
    {
        AuthError::SpiceDbStatus { operation, status }
    }

    /// A broken expectation about SpiceDB or the replication towards it.
    pub fn spicedb_protocol(operation: &'static str, message: String) -> (e: Self)
        ensures
            e@ == (AuthErrorView::SpiceDbProtocol { operation: operation@, message: message@ }),
    {
        AuthError::SpiceDbProtocol { operation, message }
    }

    /// A file that could not be read.
    pub fn io(operation: &'static str, path: &str, source: String) -> (e: Self)
        ensures
            e@ == (AuthErrorView::Io { operation: operation@, path: path@, source: source@ }),
    {
        AuthError::Io { operation, path: path.to_owned(), source }
    }

    /// The sentence that describes the error.
    pub fn to_text(&self) -> (s: String)
        ensures
            s@ == self@.text(),
    {
        match self {
            AuthError::SpiceDbTransport { operation, endpoint, .. } =>
                "SpiceDB transport error while ".to_owned().concat(operation).concat(
                " (endpoint=",
            ).concat(endpoint.as_str()).concat(")"),
            AuthError::SpiceDbStatus { operation, status } =>
                "SpiceDB gRPC status while ".to_owned().concat(operation).concat(": ").concat(
                status.as_str(),
            ),
            AuthError::SpiceDbProtocol { operation, message } =>
                "SpiceDB protocol/validation error while ".to_owned().concat(operation).concat(
                ": ",
            ).concat(message.as_str()),
            AuthError::CedarValidation { message } =>
                "Cedar validation/parsing error: ".to_owned().concat(message.as_str()),
            AuthError::CedarEvaluation { message } =>
                "Cedar evaluation error: ".to_owned().concat(message.as_str()),
            AuthError::ValidationError { message } => "Invalid input: ".to_owned().concat(
                message.as_str(),
            ),
            AuthError::Io { operation, path, source } => "I/O error while ".to_owned().concat(
                operation,
            ).concat(" (").concat(path.as_str()).concat("): ").concat(source.as_str()),
        }
    }
}

/// A scalar attribute value, as an application hands it to Cedar.
#[derive(Debug, Clone, Copy)]
pub enum CedarValueRef<'a> {
    /// A boolean.
    Bool(bool),
    /// A signed 64-bit integer.
    I64(i64),
    /// A string.
    Str(&'a str),
}

/// The mathematical content of a [`CedarValueRef`].
pub enum CedarValueView {
    Bool(bool),
    I64(i64),
    Str(Seq<char>),
}

impl<'a> View for CedarValueRef<'a> {
    type V = CedarValueView;

    open spec fn view(&self) -> CedarValueView {
        match *self {
            CedarValueRef::Bool(b) => CedarValueView::Bool(b),
            CedarValueRef::I64(i) => CedarValueView::I64(i),
            CedarValueRef::Str(s) => CedarValueView::Str(s@),
        }
    }
}

/// The attributes that a sequence of entries lists, in order.
pub open spec fn entries_view<'a>(entries: Seq<(&'a str, CedarValueRef<'a>)>) -> Seq<
    (Seq<char>, CedarValueView),
> {
    entries.map_values(|entry: (&'a str, CedarValueRef<'a>)| (entry.0@, entry.1@))
}

/// The attributes that an application context has written, in the order in
/// which it wrote them. Nothing is copied: keys and strings are borrowed.
pub struct CedarContextBuilder<'a> {
    /// The attributes written so far.
    pub entries: Vec<(&'a str, CedarValueRef<'a>)>,
}

impl<'a> View for CedarContextBuilder<'a> {
    type V = Seq<(Seq<char>, CedarValueView)>;

    open spec fn view(&self) -> Seq<(Seq<char>, CedarValueView)> {
        entries_view(self.entries@)
    }
}

/// The size of one entry of a [`CedarContextBuilder`] in bytes, on 64-bit
/// platforms (it is smaller on 32-bit ones).
pub const ENTRY_BYTES: usize = 40;

impl<'a> CedarContextBuilder<'a> {
    /// A builder with no attributes and room for `cap` of them. As with
    /// `Vec::with_capacity`, that room may not exceed `isize::MAX` bytes.
    pub fn with_capacity(cap: usize) -> (builder: Self)
        requires
            cap * ENTRY_BYTES <= isize::MAX,
        ensures
            builder@ == Seq::<(Seq<char>, CedarValueView)>::empty(),
    {
        CedarContextBuilder { entries: Vec::with_capacity(cap) }
    }

    /// Appends a boolean attribute.
    pub fn insert_bool(&mut self, key: &'a str, value: bool)
        ensures
            final(self)@ == old(self)@.push((key@, CedarValueView::Bool(value))),
            final(self).entries@ == old(self).entries@.push((key, CedarValueRef::Bool(value))),
    {
        self.insert(key, CedarValueRef::Bool(value));
    }

    /// Appends an integer attribute.
    pub fn insert_i64(&mut self, key: &'a str, value: i64)
        ensures
            final(self)@ == old(self)@.push((key@, CedarValueView::I64(value))),
            final(self).entries@ == old(self).entries@.push((key, CedarValueRef::I64(value))),
    {
        self.insert(key, CedarValueRef::I64(value));
    }

    /// Appends a string attribute.
    pub fn insert_str(&mut self, key: &'a str, value: &'a str)
        ensures
            final(self)@ == old(self)@.push((key@, CedarValueView::Str(value@))),
            final(self).entries@ == old(self).entries@.push((key, CedarValueRef::Str(value))),
    {
        self.insert(key, CedarValueRef::Str(value));
    }

    /// Appends an attribute.
    fn insert(&mut self, key: &'a str, value: CedarValueRef<'a>)
        ensures
            final(self)@ == old(self)@.push((key@, value@)),
            final(self).entries@ == old(self).entries@.push((key, value)),
    {
        self.entries.push((key, value));
    }
}

/// What an application knows about a request, written out as Cedar attributes.
///
/// The trait is for applications to implement.
pub trait CedarContext<'a> {
    /// Writes the attributes into `out`.
    ///
    /// # Errors
    ///
    /// An `AuthError` where a value cannot be written as an attribute.
    fn write_to(&self, out: &mut CedarContextBuilder<'a>) -> Result<(), AuthError>;
}

impl<'a> CedarContext<'a> for () {
    /// The empty context writes nothing.
    fn write_to(&self, out: &mut CedarContextBuilder<'a>) -> (r: Result<(), AuthError>)
        ensures
            r is Ok,
            *final(out) == *old(out),
    {
        Ok(())
    }
}

/// A builder begins with no attributes, and each insertion appends the key and
/// the value that it was given, whatever they are, and changes nothing else.
pub proof fn law_attributes_are_collected_as_given<'a>(
    cap: usize,
    builder: CedarContextBuilder<'a>,
    key: &'a str,
    flag: bool,
    number: i64,
    text: &'a str,
)
    requires
        call_ensures(CedarContextBuilder::<'a>::with_capacity, (cap,), builder),
    ensures
        builder.entries@.len() == 0,
        forall|b: &mut CedarContextBuilder<'a>, done: ()| #[trigger]
            call_ensures(CedarContextBuilder::<'a>::insert_bool, (b, key, flag), done)
                ==> final(b).entries@ == b.entries@.push((key, CedarValueRef::Bool(flag))),
        forall|b: &mut CedarContextBuilder<'a>, done: ()| #[trigger]
            call_ensures(CedarContextBuilder::<'a>::insert_i64, (b, key, number), done)
                ==> final(b).entries@ == b.entries@.push((key, CedarValueRef::I64(number))),
        forall|b: &mut CedarContextBuilder<'a>, done: ()| #[trigger]
            call_ensures(CedarContextBuilder::<'a>::insert_str, (b, key, text), done)
                ==> final(b).entries@ == b.entries@.push((key, CedarValueRef::Str(text))),
{
    assert(builder@.len() == builder.entries@.len());
}

/// A timestamp is the moment that it was made of: its text is chrono's text of
/// the same seconds and nanoseconds. There is one for each moment of the calendar.
pub proof fn law_timestamp_is_its_moment(
    secs: i64,
    nanos: u32,
    made: Option<Timestamp>,
    timestamp: Timestamp,
    text: String,
)
    requires
        call_ensures(Timestamp::from_unix, (secs, nanos), made),
        made is Some ==> made == Some(timestamp),
        call_ensures(Timestamp::to_rfc3339, (&timestamp,), text),
    ensures
        made is Some <==> -8_334_601_228_800 <= secs <= 8_210_266_876_799 && nanos
            < 2_000_000_000,
        made is Some ==> text@ == rfc3339_text(secs, nanos),
{
}

/// A source gives the text that it holds, or asks for the file that it names.
pub proof fn law_source_loads_what_it_holds<'a>(source: TextSource<'a>, load: TextLoad<'_>)
    requires
        call_ensures(TextSource::<'a>::load_to_string, (&source,), load),
    ensures
        source matches TextSource::Inline(Cow::Borrowed(held)) ==> {
            &&& load matches TextLoad::Ready(text)
            &&& text@ == held@
        },
        source matches TextSource::Inline(Cow::Owned(held)) ==> {
            &&& load matches TextLoad::Ready(text)
            &&& text@ == held@
        },
        source matches TextSource::Path(held) ==> {
            &&& load matches TextLoad::Read(path)
            &&& *path == held
        },
{
}

/// A file's text is taken as it was read; an unread file is reported with its
/// path and the description of what went wrong.
pub proof fn law_read_text_is_kept(
    path: &str,
    read: Result<String, String>,
    r: Result<String, AuthError>,
)
    requires
        call_ensures(text_read, (path, read), r),
    ensures
        read matches Ok(text) ==> r == Ok::<String, AuthError>(text),
        read matches Err(cause) ==> {
            &&& r matches Err(AuthError::Io { operation, path: shown, source })
            &&& operation@ == "read_to_string"@
            &&& shown@ == path@
            &&& source@ == cause@
        },
{
}

/// Setting the schema or the policies of a configuration sets that and leaves
/// everything else as it was.
pub proof fn law_configuration_is_set_one_by_one<'a>(
    cfg: LothConfig<'a>,
    src: TextSource<'a>,
    with_schema: LothConfig<'a>,
    with_policies: LothConfig<'a>,
)
    requires
        call_ensures(LothConfig::<'a>::with_zed_schema, (cfg, src), with_schema),
        call_ensures(LothConfig::<'a>::with_cedar_policies, (cfg, src), with_policies),
    ensures
        with_schema.zed_schema == Some(src),
        with_schema.spicedb_endpoint == cfg.spicedb_endpoint,
        with_schema.spicedb_token == cfg.spicedb_token,
        with_schema.cedar_policies == cfg.cedar_policies,
        with_policies.cedar_policies == Some(src),
        with_policies.spicedb_endpoint == cfg.spicedb_endpoint,
        with_policies.spicedb_token == cfg.spicedb_token,
        with_policies.zed_schema == cfg.zed_schema,
{
}

/// An error holds the texts that it was made of.
pub proof fn law_errors_hold_what_they_were_made_of(
    operation: &'static str,
    place: &str,
    message: String,
    validation: AuthError,
    cedar_validation: AuthError,
    cedar_eval: AuthError,
    transport: AuthError,
    status: AuthError,
    protocol: AuthError,
    io: AuthError,
)
    requires
        call_ensures(AuthError::validation, (message,), validation),
        call_ensures(AuthError::cedar_validation, (message,), cedar_validation),
        call_ensures(AuthError::cedar_eval, (message,), cedar_eval),
        call_ensures(AuthError::spicedb_transport, (operation, place, message), transport),
        call_ensures(AuthError::spicedb_status, (operation, message), status),
        call_ensures(AuthError::spicedb_protocol, (operation, message), protocol),
        call_ensures(AuthError::io, (operation, place, message), io),
    ensures
        validation matches AuthError::ValidationError { message: m } && m@ == message@,
        cedar_validation matches AuthError::CedarValidation { message: m } && m@ == message@,
        cedar_eval matches AuthError::CedarEvaluation { message: m } && m@ == message@,
        transport matches AuthError::SpiceDbTransport { operation: o, endpoint: e, source: s }
            && o@ == operation@ && e@ == place@ && s@ == message@,
        status matches AuthError::SpiceDbStatus { operation: o, status: s } && o@ == operation@
            && s@ == message@,
        protocol matches AuthError::SpiceDbProtocol { operation: o, message: m } && o@
            == operation@ && m@ == message@,
        io matches AuthError::Io { operation: o, path: p, source: s } && o@ == operation@ && p@
            == place@ && s@ == message@,
{
}

/// The sentence for an error says what was being done, where, and what went
/// wrong, in its own words for each kind of error.
pub proof fn law_errors_say_what_went_wrong(error: AuthError, text: String)
    requires
        call_ensures(AuthError::to_text, (&error,), text),
    ensures
        match error {
            AuthError::SpiceDbTransport { operation, endpoint, .. } => text@
                == "SpiceDB transport error while "@ + operation@ + " (endpoint="@ + endpoint@
                + ")"@,
            AuthError::SpiceDbStatus { operation, status } => text@
                == "SpiceDB gRPC status while "@ + operation@ + ": "@ + status@,
            AuthError::SpiceDbProtocol { operation, message } => text@
                == "SpiceDB protocol/validation error while "@ + operation@ + ": "@ + message@,
            AuthError::CedarValidation { message } => text@
                == "Cedar validation/parsing error: "@ + message@,
            AuthError::CedarEvaluation { message } => text@ == "Cedar evaluation error: "@
                + message@,
            AuthError::ValidationError { message } => text@ == "Invalid input: "@ + message@,
            AuthError::Io { operation, path, source } => text@ == "I/O error while "@ + operation@
                + " ("@ + path@ + "): "@ + source@,
        },
{
}

} // verus!
