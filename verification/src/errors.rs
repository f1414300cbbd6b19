//! Error catalogue. Every failure carries a stable code and a short
//! explanation that can be shown to the user as it is.

use vstd::prelude::*;

verus! {

/// Failures of the surrounding application.
#[derive(Debug, Clone, Copy, PartialEq, Eq, Structural)]
pub enum InkOsError {
    DbUnavailable,
    NoteNotFound,
    Unknown,
}

impl InkOsError {
    /// The code of each variant.
    pub open spec fn code_text(self) -> Seq<char> {
        match self {
            InkOsError::DbUnavailable => "DB-1001"@,
            InkOsError::NoteNotFound => "NTE-1001"@,
            InkOsError::Unknown => "GEN-1000"@,
        }
    }

    /// The explanation of each variant.
    pub open spec fn explain_text(self) -> Seq<char> {
        match self {
            InkOsError::DbUnavailable => "The application could not access the SQLite database."@,
            InkOsError::NoteNotFound => "No note exists for the requested ID."@,
            InkOsError::Unknown => "An unspecified error occurred."@,
        }
    }

    /// The headline of each variant.
    pub open spec fn message_text(self) -> Seq<char> {
        match self {
            InkOsError::DbUnavailable => "Database unavailable"@,
            InkOsError::NoteNotFound => "Note not found"@,
            InkOsError::Unknown => "Unknown error"@,
        }
    }

    /// Machine-readable error code.
    pub fn code(&self) -> (code: &'static str)
        ensures
            code@ == self.code_text(),
    {
        match self {
            InkOsError::DbUnavailable => "DB-1001",
            InkOsError::NoteNotFound => "NTE-1001",
            InkOsError::Unknown => "GEN-1000",
        }
    }

    /// Explanation that can be shown in the UI or in logs.
    pub fn explain(&self) -> (text: &'static str)
        ensures
            text@ == self.explain_text(),
    {
        match self {
            InkOsError::DbUnavailable => "The application could not access the SQLite database.",
            InkOsError::NoteNotFound => "No note exists for the requested ID.",
            InkOsError::Unknown => "An unspecified error occurred.",
        }
    }

    /// The headline of the error.
    pub fn message(&self) -> (text: &'static str)
        ensures
            text@ == self.message_text(),
    {
        match self {
            InkOsError::DbUnavailable => "Database unavailable",
            InkOsError::NoteNotFound => "Note not found",
            InkOsError::Unknown => "Unknown error",
        }
    }
}

/// Failures of the engine's own operations.
#[derive(Debug, Clone, Copy, PartialEq, Eq, Structural)]
pub enum EngineError {
    /// The conversation, summary or job that was named does not exist.
    NotFound,
    /// The conversation has been rolled over and takes no more messages.
    AlreadyClosed,
    /// No provider could be resolved for the request.
    NoProviderConfigured,
    /// The AI gateway failed, outside summarisation, where nothing falls back.
    GatewayFailure,
    /// The store refused the change: a key is taken or a number is out of range.
    StoreFailure,
}

impl EngineError {
    /// The code of each variant.
    pub open spec fn code_text(self) -> Seq<char> {
        match self {
            EngineError::NotFound => "CTX-1404"@,
            EngineError::AlreadyClosed => "CTX-1409"@,
            EngineError::NoProviderConfigured => "AI-1001"@,
            EngineError::GatewayFailure => "AI-1002"@,
            EngineError::StoreFailure => "DB-1002"@,
        }
    }

    /// The explanation of each variant.
    pub open spec fn explain_text(self) -> Seq<char> {
        match self {
            EngineError::NotFound => "The requested record does not exist."@,
            EngineError::AlreadyClosed =>
                "The conversation was rolled over; continue in its successor."@,
            EngineError::NoProviderConfigured => "No AI provider is configured."@,
            EngineError::GatewayFailure => "The AI provider did not answer the request."@,
            EngineError::StoreFailure => "The workspace store rejected the change."@,
        }
    }

    /// Machine-readable error code.
    pub fn code(&self) -> (code: &'static str)
        ensures
            code@ == self.code_text(),
    {
        match self {
            EngineError::NotFound => "CTX-1404",
            EngineError::AlreadyClosed => "CTX-1409",
            EngineError::NoProviderConfigured => "AI-1001",
            EngineError::GatewayFailure => "AI-1002",
            EngineError::StoreFailure => "DB-1002",
        }
    }

    /// Explanation that can be shown in the UI or in logs.
    pub fn explain(&self) -> (text: &'static str)
        ensures
            text@ == self.explain_text(),
    {
        match self {
            EngineError::NotFound => "The requested record does not exist.",
            EngineError::AlreadyClosed =>
                "The conversation was rolled over; continue in its successor.",
            EngineError::NoProviderConfigured => "No AI provider is configured.",
            EngineError::GatewayFailure => "The AI provider did not answer the request.",
            EngineError::StoreFailure => "The workspace store rejected the change.",
        }
    }
}

} // verus!
