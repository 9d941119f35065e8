//! The start of the engine: connect, ensure the schema, load the policies.
//!
//! [`Startup`] is the sequence without its I/O: the caller tells it how each
//! step went, and it answers what to do next.

use std::borrow::Cow;
use std::path::PathBuf;

use vstd::prelude::*;

use crate::cedar::authorizer::{parse_errors_text, parsed_policy_set};
use crate::engine::{policies_outcome, text_of, EngineSettings, LothEngine};
use crate::spicedb::messages::{ReadSchemaRequest, WriteSchemaRequest};
use crate::spicedb::schema::{
    existing_text, normal_form, schemas_match, SchemaAction, SchemaManager, SchemaMode,
};
use crate::types::{cow_as_str, text_read, AuthError, AuthErrorView, LothConfig, TextLoad, TextSource};

verus! {

/// How far the start has come.
#[derive(Debug, Clone, Copy, PartialEq, Eq, Structural)]
pub enum StartupPhase {
    /// The connection is being made.
    Connecting,
    /// The file with the schema is being read.
    LoadingSchema,
    /// The schema of SpiceDB is being read.
    ReadingSchema,
    /// The schema is being written to SpiceDB.
    WritingSchema,
    /// The file with the policies is being read.
    LoadingPolicies,
    /// The engine is there, or a step has failed.
    Finished,
}

/// What the caller has to do next.
pub enum StartupAction {
    /// Read the file at the path.
    LoadFile(PathBuf),
    /// Send the request.
    ReadSchema(ReadSchemaRequest),
    /// Send the request.
    WriteSchema(WriteSchemaRequest),
    /// Use the engine.
    Ready(LothEngine),
}

/// The error for a file that could not be read.
pub open spec fn unread_file(path: Seq<char>, source: Seq<char>) -> AuthErrorView {
    AuthErrorView::Io { operation: "read_to_string"@, path, source }
}

/// Whether a step ends with an error.
pub open spec fn fails_with(r: Result<StartupAction, AuthError>, e: AuthErrorView) -> bool {
    r is Err && r->Err_0@ == e
}

/// Whether a step ends with the engine that has the schema and the policies,
/// or with the error in the policies.
pub open spec fn engine_made(
    r: Result<StartupAction, AuthError>,
    settings: EngineSettings,
    zed_schema: Seq<char>,
    policies_text: Option<Seq<char>>,
) -> bool {
    match policies_outcome(policies_text) {
        Ok(policies) => {
            &&& r matches Ok(StartupAction::Ready(engine))
            &&& engine.policies() == policies
            &&& engine.schema() == zed_schema
            &&& engine.fails_closed() == settings.enable_replication_fail_closed
        },
        Err(e) => fails_with(r, e),
    }
}

/// The start of an engine.
pub struct Startup<'a> {
    cfg: LothConfig<'a>,
    settings: EngineSettings,
    default_schema: String,
    zed_schema: String,
    phase: StartupPhase,
    ensured: Ghost<bool>,
}

impl<'a> Startup<'a> {
    /// The configuration.
    pub closed spec fn config(&self) -> LothConfig<'a> {
        self.cfg
    }

    /// The settings.
    pub closed spec fn settings(&self) -> EngineSettings {
        self.settings
    }

    /// The schema to use where the configuration has none.
    pub closed spec fn default_text(&self) -> Seq<char> {
        self.default_schema@
    }

    /// The schema, once it is loaded.
    pub closed spec fn schema(&self) -> Seq<char> {
        self.zed_schema@
    }

    /// How far the start has come.
    pub closed spec fn state(&self) -> StartupPhase {
        self.phase
    }

    /// Whether SpiceDB is known to have the schema: it matched, or it was written.
    pub closed spec fn schema_ensured(&self) -> bool {
        self.ensured@
    }

    /// What holds of every start: the policies are not touched before SpiceDB
    /// is known to have the schema.
    pub open spec fn wf(&self) -> bool {
        self.state() == StartupPhase::LoadingPolicies ==> self.schema_ensured()
    }

    /// Whether only the progress differs.
    pub open spec fn continues(&self, before: &Startup<'a>) -> bool {
        &&& self.config() == before.config()
        &&& self.settings() == before.settings()
        &&& self.default_text() == before.default_text()
    }

    /// Whether a step goes on to the policies: it makes the engine without a
    /// text or with an inline one, and asks for the file otherwise.
    pub open spec fn goes_on_to_policies(&self, r: Result<StartupAction, AuthError>) -> bool {
        match self.config().cedar_policies {
            None => {
                &&& engine_made(r, self.settings(), self.schema(), None)
                &&& self.state() == StartupPhase::Finished
            },
            Some(TextSource::Inline(text)) => {
                &&& engine_made(r, self.settings(), self.schema(), Some(text@))
                &&& self.state() == StartupPhase::Finished
            },
            Some(TextSource::Path(path)) => {
                &&& r == Ok::<StartupAction, AuthError>(StartupAction::LoadFile(path))
                &&& self.state() == StartupPhase::LoadingPolicies
            },
        }
    }

    /// A start with a configuration. It begins with the connection to
    /// [`Startup::endpoint`], authenticated by [`Startup::token`].
    pub fn new(cfg: LothConfig<'a>, settings: EngineSettings, default_schema: &str) -> (startup:
        Self)
        ensures
            startup.wf(),
            startup.state() == StartupPhase::Connecting,
            startup.config() == cfg,
            startup.settings() == settings,
            startup.default_text() == default_schema@,
            !startup.schema_ensured(),
    {
        Startup {
            cfg,
            settings,
            default_schema: default_schema.to_owned(),
            zed_schema: String::new(),
            phase: StartupPhase::Connecting,
            ensured: Ghost(false),
        }
    }

    /// How far the start has come.
    pub fn phase(&self) -> (phase: StartupPhase)
        ensures
            phase == self.state(),
    {
        self.phase
    }

    /// The endpoint to connect to.
    pub fn endpoint(&self) -> (text: &str)
        ensures
            text@ == self.config().spicedb_endpoint@,
    {
        cow_as_str(&self.cfg.spicedb_endpoint)
    }

    /// The token with which to authenticate.
    pub fn token(&self) -> (text: &str)
        ensures
            text@ == self.config().spicedb_token@,
    {
        cow_as_str(&self.cfg.spicedb_token)
    }

    /// Takes the schema text, and asks for the schema of SpiceDB.
    fn use_schema(&mut self, text: String) -> (action: StartupAction)
        ensures
            final(self).wf(),
            final(self).continues(old(self)),
            final(self).schema() == text@,
            final(self).state() == StartupPhase::ReadingSchema,
            final(self).schema_ensured() == old(self).schema_ensured(),
            action is ReadSchema,
    {
        self.zed_schema = text;
        self.phase = StartupPhase::ReadingSchema;
        StartupAction::ReadSchema(SchemaManager::read_schema())
    }

    /// The connection was made or not: the schema is loaded next.
    ///
    /// # Errors
    ///
    /// The error of the connection.
    pub fn on_connected(&mut self, connected: Result<(), AuthError>) -> (r: Result<
        StartupAction,
        AuthError,
    >)
        requires
            old(self).wf(),
            old(self).state() == StartupPhase::Connecting,
        ensures
            final(self).wf(),
            final(self).continues(old(self)),
            final(self).schema_ensured() == old(self).schema_ensured(),
            match connected {
                Err(e) => r == Err::<StartupAction, AuthError>(e) && final(self).state()
                    == StartupPhase::Finished,
                Ok(_) => match old(self).config().zed_schema {
                    None => {
                        &&& r is Ok && r->Ok_0 is ReadSchema
                        &&& final(self).schema() == old(self).default_text()
                        &&& final(self).state() == StartupPhase::ReadingSchema
                    },
                    Some(TextSource::Inline(text)) => {
                        &&& r is Ok && r->Ok_0 is ReadSchema
                        &&& final(self).schema() == text@
                        &&& final(self).state() == StartupPhase::ReadingSchema
                    },
                    Some(TextSource::Path(path)) => {
                        &&& r == Ok::<StartupAction, AuthError>(StartupAction::LoadFile(path))
                        &&& final(self).state() == StartupPhase::LoadingSchema
                    },
                },
            },
    {
        match connected {
            Err(e) => {
                self.phase = StartupPhase::Finished;
                return Err(e);
            },
            Ok(_) => {},
        }
        let load = match &self.cfg.zed_schema {
            None => None,
            Some(source) => Some(
                match source.load_to_string() {
                    TextLoad::Ready(text) => Ok(text),
                    TextLoad::Read(path) => Err(path.clone()),
                },
            ),
        };
        match load {
            None => {
                let text = self.default_schema.clone();
                Ok(self.use_schema(text))
            },
            Some(Ok(text)) => Ok(self.use_schema(text)),
            Some(Err(path)) => {
                self.phase = StartupPhase::LoadingSchema;
                Ok(StartupAction::LoadFile(path))
            },
        }
    }

    /// The file with the schema was read or not. `path` is its path as it is
    /// shown to people.
    ///
    /// # Errors
    ///
    /// A file that could not be read.
    pub fn on_schema_loaded(&mut self, path: &str, read: Result<String, String>) -> (r: Result<
        StartupAction,
        AuthError,
    >)
        requires
            old(self).wf(),
            old(self).state() == StartupPhase::LoadingSchema,
        ensures
            final(self).wf(),
            final(self).continues(old(self)),
            final(self).schema_ensured() == old(self).schema_ensured(),
            match read {
                Ok(text) => {
                    &&& r is Ok && r->Ok_0 is ReadSchema
                    &&& final(self).schema() == text@
                    &&& final(self).state() == StartupPhase::ReadingSchema
                },
                Err(source) => {
                    &&& fails_with(r, unread_file(path@, source@))
                    &&& final(self).state() == StartupPhase::Finished
                },
            },
    {
        match text_read(path, read) {
            Ok(text) => Ok(self.use_schema(text)),
            Err(e) => {
                self.phase = StartupPhase::Finished;
                Err(e)
            },
        }
    }

    /// The schema of SpiceDB was read or not: it is compared, and written if it
    /// differs and may be.
    ///
    /// # Errors
    ///
    /// A schema that differs and may not be written, and an error in the policies.
    pub fn on_schema_read(&mut self, read: Result<String, AuthError>) -> (r: Result<
        StartupAction,
        AuthError,
    >)
        requires
            old(self).wf(),
            old(self).state() == StartupPhase::ReadingSchema,
        ensures
            final(self).wf(),
            final(self).continues(old(self)),
            final(self).schema() == old(self).schema(),
            if schemas_match(existing_text(read), old(self).schema()) {
                &&& final(self).schema_ensured()
                &&& final(self).goes_on_to_policies(r)
            } else if old(self).settings().schema_mode == SchemaMode::VerifyOnly {
                &&& fails_with(
                    r,
                    AuthErrorView::SpiceDbProtocol {
                        operation: "ensure_schema"@,
                        message: "spicedb schema mismatch (VerifyOnly)"@,
                    },
                )
                &&& final(self).state() == StartupPhase::Finished
                &&& final(self).schema_ensured() == old(self).schema_ensured()
            } else {
                &&& r matches Ok(StartupAction::WriteSchema(request)) && request.schema@ == old(
                    self,
                ).schema()
                &&& final(self).state() == StartupPhase::WritingSchema
                &&& final(self).schema_ensured() == old(self).schema_ensured()
            },
    {
        match SchemaManager::ensure_schema(
            read,
            self.zed_schema.as_str(),
            self.settings.schema_mode,
        ) {
            Ok(SchemaAction::UpToDate) => self.load_policies(),
            Ok(SchemaAction::Write(request)) => {
                self.phase = StartupPhase::WritingSchema;
                Ok(StartupAction::WriteSchema(request))
            },
            Err(e) => {
                self.phase = StartupPhase::Finished;
                Err(e)
            },
        }
    }

    /// The schema was written to SpiceDB or not: the policies are loaded next.
    ///
    /// # Errors
    ///
    /// The error of the write, and an error in the policies.
    pub fn on_schema_written(&mut self, written: Result<(), AuthError>) -> (r: Result<
        StartupAction,
        AuthError,
    >)
        requires
            old(self).wf(),
            old(self).state() == StartupPhase::WritingSchema,
        ensures
            final(self).wf(),
            final(self).continues(old(self)),
            final(self).schema() == old(self).schema(),
            match written {
                Ok(_) => final(self).schema_ensured() && final(self).goes_on_to_policies(r),
                Err(e) => {
                    &&& r == Err::<StartupAction, AuthError>(e)
                    &&& final(self).state() == StartupPhase::Finished
                    &&& final(self).schema_ensured() == old(self).schema_ensured()
                },
            },
    {
        match written {
            Ok(_) => self.load_policies(),
            Err(e) => {
                self.phase = StartupPhase::Finished;
                Err(e)
            },
        }
    }

    /// SpiceDB has the schema: goes on to the policies.
    fn load_policies(&mut self) -> (r: Result<StartupAction, AuthError>)
        ensures
            final(self).wf(),
            final(self).continues(old(self)),
            final(self).schema() == old(self).schema(),
            final(self).schema_ensured(),
            final(self).goes_on_to_policies(r),
    {
        self.ensured = Ghost(true);
        let load = match &self.cfg.cedar_policies {
            None => None,
            Some(source) => Some(
                match source.load_to_string() {
                    TextLoad::Ready(text) => Ok(text),
                    TextLoad::Read(path) => Err(path.clone()),
                },
            ),
        };
        match load {
            None => self.finish(None),
            Some(Ok(text)) => self.finish(Some(text.as_str())),
            Some(Err(path)) => {
                self.phase = StartupPhase::LoadingPolicies;
                Ok(StartupAction::LoadFile(path))
            },
        }
    }

    /// The file with the policies was read or not: the engine is made. `path`
    /// is the path of the file as it is shown to people.
    ///
    /// # Errors
    ///
    /// A file that could not be read, and an error in the policies.
    pub fn on_policies_loaded(&mut self, path: &str, read: Result<String, String>) -> (r: Result<
        StartupAction,
        AuthError,
    >)
        requires
            old(self).wf(),
            old(self).state() == StartupPhase::LoadingPolicies,
        ensures
            final(self).wf(),
            final(self).continues(old(self)),
            final(self).schema() == old(self).schema(),
            final(self).schema_ensured(),
            final(self).state() == StartupPhase::Finished,
            match read {
                Ok(text) => engine_made(r, old(self).settings(), old(self).schema(), Some(text@)),
                Err(source) => fails_with(r, unread_file(path@, source@)),
            },
    {
        match text_read(path, read) {
            Ok(text) => self.finish(Some(text.as_str())),
            Err(e) => {
                self.phase = StartupPhase::Finished;
                Err(e)
            },
        }
    }

    /// Makes the engine.
    fn finish(&mut self, policies: Option<&str>) -> (r: Result<StartupAction, AuthError>)
        ensures
            final(self).wf(),
            final(self).continues(old(self)),
            final(self).schema() == old(self).schema(),
            final(self).schema_ensured() == old(self).schema_ensured(),
            final(self).state() == StartupPhase::Finished,
            engine_made(
                r,
                old(self).settings(),
                old(self).schema(),
                text_of(policies),
            ),
    {
        self.phase = StartupPhase::Finished;
        match LothEngine::new(self.zed_schema.clone(), policies, self.settings) {
            Ok(engine) => Ok(StartupAction::Ready(engine)),
            Err(e) => Err(e),
        }
    }
}

/// No policy file is asked for before SpiceDB is known to have the schema.
pub proof fn law_policies_only_with_schema(startup: Startup<'_>)
    requires
        startup.wf(),
        startup.state() == StartupPhase::LoadingPolicies,
    ensures
        startup.schema_ensured(),
{
}

/// A start begins with the connection, to the endpoint and with the token of its
/// configuration, and keeps what it was given.
pub proof fn law_start_connects_as_configured<'a>(
    cfg: LothConfig<'a>,
    settings: EngineSettings,
    default_schema: &str,
    startup: Startup<'a>,
    endpoint: &str,
    token: &str,
    phase: StartupPhase,
)
    requires
        call_ensures(Startup::<'a>::new, (cfg, settings, default_schema), startup),
        call_ensures(Startup::<'a>::endpoint, (&startup,), endpoint),
        call_ensures(Startup::<'a>::token, (&startup,), token),
        call_ensures(Startup::<'a>::phase, (&startup,), phase),
    ensures
        startup.wf(),
        startup.config() == cfg,
        startup.settings() == settings,
        startup.default_text() == default_schema@,
        !startup.schema_ensured(),
        endpoint@ == cfg.spicedb_endpoint@,
        token@ == cfg.spicedb_token@,
        phase is Connecting,
        startup.state() is Connecting,
{
}

/// After the connection the schema is the one of the configuration: its own
/// text, or the text of its file once that is read, or the default if it has
/// none. A failed connection and an unread file end the start, with their error.
pub proof fn law_schema_is_the_configured_one<'a>(
    connected: Result<(), AuthError>,
    path: &str,
    read: Result<String, String>,
)
    ensures
        forall|s: &mut Startup<'a>, r: Result<StartupAction, AuthError>| #[trigger]
            call_ensures(Startup::<'a>::on_connected, (s, connected), r) ==> {
                &&& final(s).wf()
                &&& final(s).config() == s.config()
                &&& final(s).settings() == s.settings()
                &&& final(s).default_text() == s.default_text()
                &&& final(s).schema_ensured() == s.schema_ensured()
                &&& connected matches Err(e) ==> r == Err::<StartupAction, AuthError>(e)
                    && final(s).state() is Finished
                &&& connected is Ok ==> match s.config().zed_schema {
                    None => {
                        &&& r matches Ok(StartupAction::ReadSchema(_))
                        &&& final(s).schema() == s.default_text()
                        &&& final(s).state() is ReadingSchema
                    },
                    Some(TextSource::Inline(Cow::Borrowed(text))) => {
                        &&& r matches Ok(StartupAction::ReadSchema(_))
                        &&& final(s).schema() == text@
                        &&& final(s).state() is ReadingSchema
                    },
                    Some(TextSource::Inline(Cow::Owned(text))) => {
                        &&& r matches Ok(StartupAction::ReadSchema(_))
                        &&& final(s).schema() == text@
                        &&& final(s).state() is ReadingSchema
                    },
                    Some(TextSource::Path(file)) => {
                        &&& r matches Ok(StartupAction::LoadFile(p))
                        &&& p == file
                        &&& final(s).state() is LoadingSchema
                    },
                }
            },
        forall|s: &mut Startup<'a>, r: Result<StartupAction, AuthError>| #[trigger]
            call_ensures(Startup::<'a>::on_schema_loaded, (s, path, read), r) ==> {
                &&& final(s).wf()
                &&& final(s).config() == s.config()
                &&& final(s).settings() == s.settings()
                &&& final(s).default_text() == s.default_text()
                &&& final(s).schema_ensured() == s.schema_ensured()
                &&& read matches Ok(text) ==> {
                    &&& r matches Ok(StartupAction::ReadSchema(_))
                    &&& final(s).schema() == text@
                    &&& final(s).state() is ReadingSchema
                }
                &&& read matches Err(cause) ==> {
                    &&& final(s).state() is Finished
                    &&& r matches Err(AuthError::Io { operation, path: shown, source })
                    &&& operation@ == "read_to_string"@
                    &&& shown@ == path@
                    &&& source@ == cause@
                }
            },
{
}

/// When the schema of SpiceDB is known, the start goes on to the policies if its
/// normal form is that of the configured one, where an unreadable schema counts
/// as empty. Otherwise it ends if the schema may only be verified, and else has
/// the configured schema written. The policies are those of the configuration:
/// with none, or with a text of its own, the engine is made; a file is asked for.
pub proof fn law_start_goes_on_once_the_schema_matches<'a>(
    read: Result<String, AuthError>,
    existing: Seq<char>,
)
    requires
        read matches Ok(text) ==> existing == text@,
        read is Err ==> existing.len() == 0,
    ensures
        forall|s: &mut Startup<'a>, r: Result<StartupAction, AuthError>| #[trigger]
            call_ensures(Startup::<'a>::on_schema_read, (s, read), r) ==> {
                &&& final(s).wf()
                &&& final(s).config() == s.config()
                &&& final(s).settings() == s.settings()
                &&& final(s).default_text() == s.default_text()
                &&& final(s).schema() == s.schema()
                &&& normal_form(existing) == normal_form(s.schema()) ==> {
                    &&& final(s).schema_ensured()
                    &&& match s.config().cedar_policies {
                        None => {
                            &&& final(s).state() is Finished
                            &&& r matches Ok(StartupAction::Ready(engine))
                            &&& engine.policies() is None
                            &&& engine.schema() == s.schema()
                            &&& engine.fails_closed() == s.settings().enable_replication_fail_closed
                        },
                        Some(TextSource::Inline(Cow::Borrowed(text))) => {
                            &&& final(s).state() is Finished
                            &&& match parsed_policy_set(text@) {
                                Ok(set) => {
                                    &&& r matches Ok(StartupAction::Ready(engine))
                                    &&& engine.policies() == Some(set)
                                    &&& engine.schema() == s.schema()
                                    &&& engine.fails_closed() == s.settings().enable_replication_fail_closed
                                },
                                Err(e) => {
                                    &&& r matches Err(AuthError::CedarValidation { message })
                                    &&& message@ == parse_errors_text(e)
                                },
                            }
                        },
                        Some(TextSource::Inline(Cow::Owned(text))) => {
                            &&& final(s).state() is Finished
                            &&& match parsed_policy_set(text@) {
                                Ok(set) => {
                                    &&& r matches Ok(StartupAction::Ready(engine))
                                    &&& engine.policies() == Some(set)
                                    &&& engine.schema() == s.schema()
                                    &&& engine.fails_closed() == s.settings().enable_replication_fail_closed
                                },
                                Err(e) => {
                                    &&& r matches Err(AuthError::CedarValidation { message })
                                    &&& message@ == parse_errors_text(e)
                                },
                            }
                        },
                        Some(TextSource::Path(path)) => {
                            &&& final(s).state() is LoadingPolicies
                            &&& r matches Ok(StartupAction::LoadFile(p))
                            &&& p == path
                        },
                    }
                }
                &&& normal_form(existing) != normal_form(s.schema()) ==> {
                    &&& final(s).schema_ensured() == s.schema_ensured()
                    &&& s.settings().schema_mode is VerifyOnly ==> {
                        &&& final(s).state() is Finished
                        &&& r matches Err(AuthError::SpiceDbProtocol { operation, message })
                        &&& operation@ == "ensure_schema"@
                        &&& message@ == "spicedb schema mismatch (VerifyOnly)"@
                    }
                    &&& s.settings().schema_mode is ApplyIfDifferent ==> {
                        &&& final(s).state() is WritingSchema
                        &&& r matches Ok(StartupAction::WriteSchema(request))
                        &&& request.schema@ == s.schema()
                    }
                }
            },
{
    if read is Err {
        assert(existing =~= Seq::empty());
    }
}

/// Once the schema is written the start goes on to the policies of the
/// configuration; a failed write ends it, with its error.
pub proof fn law_start_goes_on_once_the_schema_is_written<'a>(written: Result<(), AuthError>)
    ensures
        forall|s: &mut Startup<'a>, r: Result<StartupAction, AuthError>| #[trigger]
            call_ensures(Startup::<'a>::on_schema_written, (s, written), r) ==> {
                &&& final(s).wf()
                &&& final(s).config() == s.config()
                &&& final(s).settings() == s.settings()
                &&& final(s).default_text() == s.default_text()
                &&& final(s).schema() == s.schema()
                &&& written matches Err(e) ==> {
                    &&& r == Err::<StartupAction, AuthError>(e)
                    &&& final(s).state() is Finished
                    &&& final(s).schema_ensured() == s.schema_ensured()
                }
                &&& written is Ok ==> {
                    &&& final(s).schema_ensured()
                    &&& match s.config().cedar_policies {
                        None => {
                            &&& final(s).state() is Finished
                            &&& r matches Ok(StartupAction::Ready(engine))
                            &&& engine.policies() is None
                            &&& engine.schema() == s.schema()
                            &&& engine.fails_closed() == s.settings().enable_replication_fail_closed
                        },
                        Some(TextSource::Inline(Cow::Borrowed(text))) => {
                            &&& final(s).state() is Finished
                            &&& match parsed_policy_set(text@) {
                                Ok(set) => {
                                    &&& r matches Ok(StartupAction::Ready(engine))
                                    &&& engine.policies() == Some(set)
                                    &&& engine.schema() == s.schema()
                                    &&& engine.fails_closed() == s.settings().enable_replication_fail_closed
                                },
                                Err(e) => {
                                    &&& r matches Err(AuthError::CedarValidation { message })
                                    &&& message@ == parse_errors_text(e)
                                },
                            }
                        },
                        Some(TextSource::Inline(Cow::Owned(text))) => {
                            &&& final(s).state() is Finished
                            &&& match parsed_policy_set(text@) {
                                Ok(set) => {
                                    &&& r matches Ok(StartupAction::Ready(engine))
                                    &&& engine.policies() == Some(set)
                                    &&& engine.schema() == s.schema()
                                    &&& engine.fails_closed() == s.settings().enable_replication_fail_closed
                                },
                                Err(e) => {
                                    &&& r matches Err(AuthError::CedarValidation { message })
                                    &&& message@ == parse_errors_text(e)
                                },
                            }
                        },
                        Some(TextSource::Path(path)) => {
                            &&& final(s).state() is LoadingPolicies
                            &&& r matches Ok(StartupAction::LoadFile(p))
                            &&& p == path
                        },
                    }
                }
            },
{
}

/// The text of the policy file makes the engine, with the configured schema and
/// the settings; an unread file and policies that Cedar refuses make none.
pub proof fn law_policy_file_makes_the_engine<'a>(path: &str, read: Result<String, String>)
    ensures
        forall|s: &mut Startup<'a>, r: Result<StartupAction, AuthError>| #[trigger]
            call_ensures(Startup::<'a>::on_policies_loaded, (s, path, read), r) ==> {
                &&& final(s).wf()
                &&& final(s).config() == s.config()
                &&& final(s).settings() == s.settings()
                &&& final(s).default_text() == s.default_text()
                &&& final(s).schema() == s.schema()
                &&& final(s).schema_ensured()
                &&& final(s).state() is Finished
                &&& read matches Ok(text) ==> match parsed_policy_set(text@) {
                    Ok(set) => {
                        &&& r matches Ok(StartupAction::Ready(engine))
                        &&& engine.policies() == Some(set)
                        &&& engine.schema() == s.schema()
                        &&& engine.fails_closed() == s.settings().enable_replication_fail_closed
                    },
                    Err(e) => {
                        &&& r matches Err(AuthError::CedarValidation { message })
                        &&& message@ == parse_errors_text(e)
                    },
                }
                &&& read matches Err(cause) ==> {
                    &&& r matches Err(AuthError::Io { operation, path: shown, source })
                    &&& operation@ == "read_to_string"@
                    &&& shown@ == path@
                    &&& source@ == cause@
                }
            },
{
}

} // verus!
