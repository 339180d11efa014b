//! The failures of the client and the one error that callers see.

use vstd::prelude::*;
use vstd::string::StringExecFns;

verus! {

/// The kind of a failure, for callers that branch on it.
#[derive(Clone, Copy, Debug, PartialEq, Eq, Structural)]
pub enum ErrorCategory {
    /// The execution context could not be built.
    RuntimeInit,
    /// The connection seed could not be built.
    SeedConstruction,
    /// The base URL is not a well-formed URL.
    UrlParse,
    /// A timestamp text is malformed.
    TimestampParse,
    /// The time zone name is not in the time zone database.
    TimezoneResolution,
    /// The entity reference is not a valid reference.
    InvalidReference,
    /// The authentication handshake failed.
    Authentication,
    /// The remote write failed.
    RemoteWrite,
}

impl ErrorCategory {
    /// The words that open the message of a failure of this kind.
    pub open spec fn label_text(self) -> Seq<char> {
        match self {
            ErrorCategory::RuntimeInit => "New async runtime error"@,
            ErrorCategory::SeedConstruction => "Client seed error"@,
            ErrorCategory::UrlParse => "Url parse error"@,
            ErrorCategory::TimestampParse => "DateTime parse error"@,
            ErrorCategory::TimezoneResolution => "Time zone error"@,
            ErrorCategory::InvalidReference => "Ref parse error"@,
            ErrorCategory::Authentication => "New client error"@,
            ErrorCategory::RemoteWrite => "Raystack error"@,
        }
    }

    /// The words that open the message of a failure of this kind.
    pub fn label(self) -> (words: &'static str)
        ensures
            words@ == self.label_text(),
    {
        match self {
            ErrorCategory::RuntimeInit => "New async runtime error",
            ErrorCategory::SeedConstruction => "Client seed error",
            ErrorCategory::UrlParse => "Url parse error",
            ErrorCategory::TimestampParse => "DateTime parse error",
            ErrorCategory::TimezoneResolution => "Time zone error",
            ErrorCategory::InvalidReference => "Ref parse error",
            ErrorCategory::Authentication => "New client error",
            ErrorCategory::RemoteWrite => "Raystack error",
        }
    }
}

/// A failure, tagged by where it arose and carrying the diagnostic text of
/// whatever reported it.
#[derive(Clone, Debug, PartialEq, Eq)]
pub enum PrError {
    /// The execution context could not be built.
    NewAsyncRuntime(String),
    /// The connection seed could not be built.
    ClientSeed(String),
    /// `input` is not a timestamp of the declared convention; `reason` is
    /// chrono's diagnostic.
    DateTimeParse { input: String, reason: String },
    /// The time zone name did not resolve.
    TimeZone(String),
    /// The authentication handshake failed.
    NewClient(String),
    /// The remote write failed.
    Raystack(String),
    /// The entity reference is not valid.
    RefParse(String),
    /// The base URL is not well formed.
    UrlParse(String),
}

impl PrError {
    /// The kind of this failure.
    pub open spec fn category_of(&self) -> ErrorCategory {
        match self {
            PrError::NewAsyncRuntime(_) => ErrorCategory::RuntimeInit,
            PrError::ClientSeed(_) => ErrorCategory::SeedConstruction,
            PrError::DateTimeParse { .. } => ErrorCategory::TimestampParse,
            PrError::TimeZone(_) => ErrorCategory::TimezoneResolution,
            PrError::NewClient(_) => ErrorCategory::Authentication,
            PrError::Raystack(_) => ErrorCategory::RemoteWrite,
            PrError::RefParse(_) => ErrorCategory::InvalidReference,
            PrError::UrlParse(_) => ErrorCategory::UrlParse,
        }
    }

    /// The diagnostic text this failure carries.
    pub open spec fn detail_text(&self) -> Seq<char> {
        match self {
            PrError::NewAsyncRuntime(text) => text@,
            PrError::ClientSeed(text) => text@,
            PrError::DateTimeParse { reason, .. } => reason@,
            PrError::TimeZone(text) => text@,
            PrError::NewClient(text) => text@,
            PrError::Raystack(text) => text@,
            PrError::RefParse(text) => text@,
            PrError::UrlParse(text) => text@,
        }
    }

    /// The message of this failure: the words of its kind, a colon and a
    /// space, then the diagnostic text unchanged.
    pub open spec fn message_text(&self) -> Seq<char> {
        self.category_of().label_text() + ": "@ + self.detail_text()
    }

    /// The kind of this failure.
    #[verifier::when_used_as_spec(category_of)]
    pub fn category(&self) -> (kind: ErrorCategory)
        ensures
            kind == self.category_of(),
    {
        match self {
            PrError::NewAsyncRuntime(_) => ErrorCategory::RuntimeInit,
            PrError::ClientSeed(_) => ErrorCategory::SeedConstruction,
            PrError::DateTimeParse { .. } => ErrorCategory::TimestampParse,
            PrError::TimeZone(_) => ErrorCategory::TimezoneResolution,
            PrError::NewClient(_) => ErrorCategory::Authentication,
            PrError::Raystack(_) => ErrorCategory::RemoteWrite,
            PrError::RefParse(_) => ErrorCategory::InvalidReference,
            PrError::UrlParse(_) => ErrorCategory::UrlParse,
        }
    }

    /// The diagnostic text this failure carries.
    pub fn detail(&self) -> (text: &str)
        ensures
            text@ == self.detail_text(),
    {
        match self {
            PrError::NewAsyncRuntime(text) => text.as_str(),
            PrError::ClientSeed(text) => text.as_str(),
            PrError::DateTimeParse { reason, .. } => reason.as_str(),
            PrError::TimeZone(text) => text.as_str(),
            PrError::NewClient(text) => text.as_str(),
            PrError::Raystack(text) => text.as_str(),
            PrError::RefParse(text) => text.as_str(),
            PrError::UrlParse(text) => text.as_str(),
        }
    }

    /// Renders the message of this failure.
    pub fn message(&self) -> (text: String)
        ensures
            text@ == self.message_text(),
    {
        let mut text = String::from_str(self.category().label());
        text.append(": ");
        text.append(self.detail());
        text
    }
}

/// The one error that crosses to the caller: a kind to branch on and a
/// message to show. Which variant of `PrError` it came from is not visible
/// beyond these two.
#[derive(Clone, Debug, PartialEq, Eq)]
pub struct ClientError {
    pub category: ErrorCategory,
    pub message: String,
}

impl ClientError {
    /// Turns a failure into the error that the caller sees.
    pub fn from_failure(failure: PrError) -> (shown: ClientError)
        ensures
            shown.category == failure.category_of(),
            shown.message@ == failure.message_text(),
    {
        ClientError { category: failure.category(), message: failure.message() }
    }
}

} // verus!
