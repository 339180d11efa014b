//! Sessions: how one is built, step by step, and what a built one does.
//!
//! Building a session takes three pieces of work that lie outside this
//! library: starting an execution context, building the connection seed, and
//! the authentication handshake. The library decides the order, what each
//! outcome leads to, and which failure is reported. The caller does the work
//! that is pending and hands back how it went.

use crate::error::{ErrorCategory, PrError};
use crate::timestamp::{Convention, SampleBatch};
use crate::trusted::{parse_url, ref_is_valid, url_is_wellformed};
use crate::write::{assemble, assembles_to, plan, plans_to, WriteRequest};
use vstd::prelude::*;

verus! {

/// The outside work that the building of a session waits for.
#[derive(Clone, Copy, Debug, PartialEq, Eq, Structural)]
pub enum Step {
    /// Start the execution context that drives asynchronous work.
    StartRuntime,
    /// Build the connection seed, with the timeout of the session.
    BuildSeed,
    /// Authenticate against the base URL with the credentials.
    Authenticate,
}

/// A session that is being built.
#[derive(Debug, PartialEq, Eq)]
pub struct Connecting {
    step: Step,
    project_api_url: String,
    username: String,
    password: String,
    timeout_in_seconds: u64,
}

/// What a session that is being built holds.
pub struct ConnectingView {
    pub step: Step,
    pub project_api_url: Seq<char>,
    pub username: Seq<char>,
    pub password: Seq<char>,
    pub timeout_in_seconds: u64,
}

impl ConnectingView {
    /// Authentication is pending only against a well-formed base URL.
    pub open spec fn valid(self) -> bool {
        self.step == Step::Authenticate ==> url_is_wellformed(self.project_api_url)
    }
}

/// An authenticated session. One exists only when all three steps of its
/// building went well.
#[derive(Debug, PartialEq, Eq)]
pub struct SkySparkClient {
    project_api_url: String,
    username: String,
    timeout_in_seconds: u64,
}

/// What an authenticated session holds.
pub struct SessionView {
    pub project_api_url: Seq<char>,
    pub username: Seq<char>,
    pub timeout_in_seconds: u64,
}

/// Where the building of a session stands after a step.
#[derive(Debug, PartialEq, Eq)]
pub enum Progress {
    /// More outside work is pending.
    Continue(Connecting),
    /// The session is built.
    Connected(SkySparkClient),
    /// The building failed, and no session comes of it.
    Failed(PrError),
}

/// Where the building of a session stands after a step, without the
/// diagnostic text of a failure.
pub enum Outlook {
    Continue(ConnectingView),
    Connected(SessionView),
    Failed(ErrorCategory),
}

/// The state in which the building of a session begins.
pub open spec fn start(
    project_api_url: Seq<char>,
    username: Seq<char>,
    password: Seq<char>,
    timeout_in_seconds: u64,
) -> ConnectingView {
    ConnectingView {
        step: Step::StartRuntime,
        project_api_url,
        username,
        password,
        timeout_in_seconds,
    }
}

/// What follows when the pending step of `c` went well or failed.
///
/// The base URL is looked at once the seed is built, and only a well-formed
/// one leads to authentication.
pub open spec fn next(c: ConnectingView, went_well: bool) -> Outlook {
    match c.step {
        Step::StartRuntime => if went_well {
            Outlook::Continue(ConnectingView { step: Step::BuildSeed, ..c })
        } else {
            Outlook::Failed(ErrorCategory::RuntimeInit)
        },
        Step::BuildSeed => if !went_well {
            Outlook::Failed(ErrorCategory::SeedConstruction)
        } else if url_is_wellformed(c.project_api_url) {
            Outlook::Continue(ConnectingView { step: Step::Authenticate, ..c })
        } else {
            Outlook::Failed(ErrorCategory::UrlParse)
        },
        Step::Authenticate => if went_well {
            Outlook::Connected(
                SessionView {
                    project_api_url: c.project_api_url,
                    username: c.username,
                    timeout_in_seconds: c.timeout_in_seconds,
                },
            )
        } else {
            Outlook::Failed(ErrorCategory::Authentication)
        },
    }
}

/// The whole building of a session, from its first state, given how each
/// piece of outside work goes if it is reached.
pub open spec fn construct(
    c: ConnectingView,
    runtime_ok: bool,
    seed_ok: bool,
    handshake_ok: bool,
) -> Outlook {
    match next(c, runtime_ok) {
        Outlook::Continue(seeded) => match next(seeded, seed_ok) {
            Outlook::Continue(ready) => next(ready, handshake_ok),
            other => other,
        },
        other => other,
    }
}

impl View for Connecting {
    type V = ConnectingView;

    closed spec fn view(&self) -> ConnectingView {
        ConnectingView {
            step: self.step,
            project_api_url: self.project_api_url@,
            username: self.username@,
            password: self.password@,
            timeout_in_seconds: self.timeout_in_seconds,
        }
    }
}

impl View for SkySparkClient {
    type V = SessionView;

    closed spec fn view(&self) -> SessionView {
        SessionView {
            project_api_url: self.project_api_url@,
            username: self.username@,
            timeout_in_seconds: self.timeout_in_seconds,
        }
    }
}

impl Progress {
    /// This progress without the diagnostic text of a failure.
    pub open spec fn outlook(self) -> Outlook {
        match self {
            Progress::Continue(c) => Outlook::Continue(c@),
            Progress::Connected(session) => Outlook::Connected(session@),
            Progress::Failed(failure) => Outlook::Failed(failure.category_of()),
        }
    }
}

impl Connecting {
    #[verifier::type_invariant]
    spec fn authenticates_wellformed_url_only(&self) -> bool {
        self.step == Step::Authenticate ==> url_is_wellformed(self.project_api_url@)
    }

    /// The outside work that is pending.
    pub fn pending(&self) -> (step: Step)
        ensures
            step == self@.step,
            self@.valid(),
    {
        proof {
            use_type_invariant(self);
        }
        self.step
    }

    /// The base URL of the session.
    pub fn project_api_url(&self) -> (text: &str)
        ensures
            text@ == self@.project_api_url,
    {
        self.project_api_url.as_str()
    }

    /// The name to authenticate with.
    pub fn username(&self) -> (text: &str)
        ensures
            text@ == self@.username,
    {
        self.username.as_str()
    }

    /// The password to authenticate with.
    pub fn password(&self) -> (text: &str)
        ensures
            text@ == self@.password,
    {
        self.password.as_str()
    }

    /// The timeout that the connection seed is built with.
    pub fn timeout_in_seconds(&self) -> (seconds: u64)
        ensures
            seconds == self@.timeout_in_seconds,
    {
        self.timeout_in_seconds
    }

    /// Takes the outcome of the pending step, `Ok` or the diagnostic text of
    /// what failed, and decides what follows.
    ///
    /// A failure ends the building with the error of the step that failed,
    /// carrying the text unchanged. After the seed is built the base URL is
    /// parsed, and a malformed one ends the building with `UrlParse` before
    /// any authentication.
    pub fn advance(self, outcome: Result<(), String>) -> (r: Progress)
        ensures
            r.outlook() == next(self@, outcome is Ok),
            outcome matches Err(text) ==> r matches Progress::Failed(failure)
                && failure.detail_text() == text@,
            r matches Progress::Continue(c) ==> c@.valid(),
    {
        proof {
            use_type_invariant(&self);
        }
        match outcome {
            Err(text) => match self.step {
                Step::StartRuntime => Progress::Failed(PrError::NewAsyncRuntime(text)),
                Step::BuildSeed => Progress::Failed(PrError::ClientSeed(text)),
                Step::Authenticate => Progress::Failed(PrError::NewClient(text)),
            },
            Ok(()) => match self.step {
                Step::StartRuntime => Progress::Continue(
                    Connecting { step: Step::BuildSeed, ..self },
                ),
                Step::BuildSeed => match parse_url(self.project_api_url.as_str()) {
                    Ok(()) => Progress::Continue(Connecting { step: Step::Authenticate, ..self }),
                    Err(err) => Progress::Failed(PrError::UrlParse(err.to_string())),
                },
                Step::Authenticate => Progress::Connected(
                    SkySparkClient {
                        project_api_url: self.project_api_url,
                        username: self.username,
                        timeout_in_seconds: self.timeout_in_seconds,
                    },
                ),
            },
        }
    }
}

impl SkySparkClient {
    #[verifier::type_invariant]
    spec fn has_wellformed_url(&self) -> bool {
        url_is_wellformed(self.project_api_url@)
    }

    /// Begins the building of a session. Nothing is looked at yet: the
    /// first piece of outside work, starting the execution context, is
    /// pending.
    pub fn new(
        project_api_url: &str,
        username: &str,
        password: &str,
        timeout_in_seconds: u64,
    ) -> (c: Connecting)
        ensures
            c@ == start(project_api_url@, username@, password@, timeout_in_seconds),
    {
        Connecting {
            step: Step::StartRuntime,
            project_api_url: project_api_url.to_owned(),
            username: username.to_owned(),
            password: password.to_owned(),
            timeout_in_seconds,
        }
    }

    /// The base URL of the session, which is a well-formed one.
    pub fn project_api_url(&self) -> (text: &str)
        ensures
            text@ == self@.project_api_url,
            url_is_wellformed(self@.project_api_url),
    {
        proof {
            use_type_invariant(self);
        }
        self.project_api_url.as_str()
    }

    /// The name the session was authenticated with.
    pub fn username(&self) -> (text: &str)
        ensures
            text@ == self@.username,
    {
        self.username.as_str()
    }

    /// The timeout of the connection, in whole seconds.
    pub fn timeout_in_seconds(&self) -> (seconds: u64)
        ensures
            seconds == self@.timeout_in_seconds,
    {
        self.timeout_in_seconds
    }

    /// Plans a write of numbers whose timestamps are naive: civil date and
    /// time without an offset, taken as UTC. The time zone name goes into the
    /// request as it is given.
    ///
    /// An invalid reference fails with `RefParse`, a malformed timestamp
    /// with `DateTimeParse`; neither leaves a request to send.
    pub fn his_write_num<V: Copy>(
        &self,
        id: String,
        time_zone_name: &str,
        data: Vec<(&str, V)>,
        unit: Option<&str>,
    ) -> (r: Result<WriteRequest<V>, PrError>)
        ensures
            plans_to(id@, time_zone_name@, data@, unit, Convention::NaivePlusZone, r),
            !ref_is_valid(id@) ==> r matches Err(PrError::RefParse(_)),
            ref_is_valid(id@) && data@.len() == 0 ==> r is Ok,
    {
        plan(id, time_zone_name, &data, unit, Convention::NaivePlusZone)
    }

    /// Plans a write of numbers whose timestamps carry their offset from
    /// UTC. The instants are reported in the named time zone, which must
    /// resolve where there is a sample.
    ///
    /// An invalid reference fails with `RefParse`, a malformed timestamp
    /// with `DateTimeParse`, an unknown time zone with `TimeZone`; none
    /// leaves a request to send.
    pub fn his_write_num_offset_aware<V: Copy>(
        &self,
        id: String,
        unit: Option<&str>,
        time_zone_name: &str,
        data: Vec<(&str, V)>,
    ) -> (r: Result<WriteRequest<V>, PrError>)
        ensures
            plans_to(id@, time_zone_name@, data@, unit, Convention::OffsetAware, r),
            !ref_is_valid(id@) ==> r matches Err(PrError::RefParse(_)),
            ref_is_valid(id@) && data@.len() == 0 ==> r is Ok,
    {
        plan(id, time_zone_name, &data, unit, Convention::OffsetAware)
    }

    /// Plans a write of samples that are already normalized.
    pub fn write_history<V>(&self, id: String, samples: SampleBatch<V>, unit: Option<&str>) -> (r:
        Result<WriteRequest<V>, PrError>)
        ensures
            assembles_to(id@, samples, unit, r),
    {
        assemble(id, samples, unit)
    }

    /// Takes the outcome of sending a request, `Ok` or the diagnostic text
    /// of the failure. A failure is reported as it is, once: nothing is
    /// tried again.
    pub fn finish_write(&self, outcome: Result<(), String>) -> (r: Result<(), PrError>)
        ensures
            match outcome {
                Ok(_) => r is Ok,
                Err(text) => r == Err::<(), PrError>(PrError::Raystack(text)),
            },
    {
        match outcome {
            Ok(()) => Ok(()),
            Err(text) => Err(PrError::Raystack(text)),
        }
    }
}

/// A step keeps the state valid and changes nothing but what is pending.
pub proof fn lemma_step_keeps_state(c: ConnectingView, went_well: bool)
    requires
        c.valid(),
    ensures
        next(c, went_well) matches Outlook::Continue(after) ==> after.valid() && after
            == (ConnectingView { step: after.step, ..c }),
{
}

/// A session comes only of a successful handshake, and a handshake is
/// pending only against a well-formed base URL: no step hands out a session
/// for anything less.
pub proof fn lemma_session_needs_handshake(c: ConnectingView, went_well: bool)
    requires
        c.valid(),
    ensures
        next(c, went_well) is Connected <==> c.step == Step::Authenticate && went_well,
        next(c, went_well) is Connected ==> url_is_wellformed(c.project_api_url),
{
}

/// With a malformed base URL, authentication is never pending: not now, and
/// not after any step. Once execution context and seed are there, the
/// building fails with `UrlParse`.
pub proof fn lemma_malformed_url_is_never_authenticated(c: ConnectingView, went_well: bool)
    requires
        c.valid(),
        !url_is_wellformed(c.project_api_url),
    ensures
        c.step != Step::Authenticate,
        !(next(c, went_well) is Connected),
        next(c, went_well) matches Outlook::Continue(after) ==> after.step != Step::Authenticate
            && after.project_api_url == c.project_api_url,
        c.step == Step::BuildSeed && went_well ==> next(c, went_well) == Outlook::Failed(
            ErrorCategory::UrlParse,
        ),
{
}

/// What the building of a session comes to, from its beginning. Each piece
/// of outside work is a failure point of its own, in order: execution
/// context, seed, the base URL, handshake. The first that fails decides the
/// error, and only if none fails is there a session, for the URL, name and
/// timeout given.
pub proof fn lemma_construction_is_all_or_nothing(
    project_api_url: Seq<char>,
    username: Seq<char>,
    password: Seq<char>,
    timeout_in_seconds: u64,
    runtime_ok: bool,
    seed_ok: bool,
    handshake_ok: bool,
)
    ensures
        ({
            let begun = start(project_api_url, username, password, timeout_in_seconds);
            let outcome = construct(begun, runtime_ok, seed_ok, handshake_ok);
            let url_ok = url_is_wellformed(project_api_url);
            &&& begun.valid()
            &&& !runtime_ok ==> outcome == Outlook::Failed(ErrorCategory::RuntimeInit)
            &&& runtime_ok && !seed_ok ==> outcome == Outlook::Failed(
                ErrorCategory::SeedConstruction,
            )
            &&& runtime_ok && seed_ok && !url_ok ==> outcome == Outlook::Failed(
                ErrorCategory::UrlParse,
            )
            &&& runtime_ok && seed_ok && url_ok && !handshake_ok ==> outcome == Outlook::Failed(
                ErrorCategory::Authentication,
            )
            &&& runtime_ok && seed_ok && url_ok && handshake_ok ==> outcome == Outlook::Connected(
                SessionView { project_api_url, username, timeout_in_seconds },
            )
        }),
{
}

} // verus!
