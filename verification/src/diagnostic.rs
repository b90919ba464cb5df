//! Records of what happened with each builder, for whoever keeps the logs.

use vstd::prelude::*;
use crate::builder::{Builder, BuilderError};
use crate::kind::BuilderKind;

verus! {

/// What a record tells of a builder.
#[derive(Clone, Copy, Debug, PartialEq, Eq, Structural)]
pub enum DiagnosticEvent {
    /// A client was set up.
    Constructed,
    /// No client could be set up.
    ConstructionFailed,
    /// A call is about to be issued.
    Attempt,
    /// The builder took the transaction.
    Accepted,
    /// The call failed, or the builder answered with an error.
    Rejected,
}

/// How loudly a record is to be logged.
#[derive(Clone, Copy, Debug, PartialEq, Eq, Structural)]
pub enum Severity {
    Trace,
    Info,
    Warn,
}

/// One record, tagged with the builder it is about.
#[derive(Clone, Copy, Debug, PartialEq, Eq, Structural)]
pub struct Diagnostic {
    pub kind: BuilderKind,
    pub event: DiagnosticEvent,
}

impl DiagnosticEvent {
    /// Attempts are traced, what went well is information, what went wrong a warning.
    pub open spec fn spec_severity(self) -> Severity {
        match self {
            DiagnosticEvent::Attempt => Severity::Trace,
            DiagnosticEvent::Constructed | DiagnosticEvent::Accepted => Severity::Info,
            DiagnosticEvent::ConstructionFailed | DiagnosticEvent::Rejected => Severity::Warn,
        }
    }

    /// The severity of a record of this event.
    pub fn severity(&self) -> (severity: Severity)
        ensures
            severity == self.spec_severity(),
    {
        match self {
            DiagnosticEvent::Attempt => Severity::Trace,
            DiagnosticEvent::Constructed | DiagnosticEvent::Accepted => Severity::Info,
            DiagnosticEvent::ConstructionFailed | DiagnosticEvent::Rejected => Severity::Warn,
        }
    }
}

impl Diagnostic {
    /// The record of an attempt to set up a client for a kind.
    pub open spec fn spec_construction(
        kind: BuilderKind,
        built: Result<Builder, BuilderError>,
    ) -> Diagnostic {
        Diagnostic {
            kind,
            event: if built is Ok {
                DiagnosticEvent::Constructed
            } else {
                DiagnosticEvent::ConstructionFailed
            },
        }
    }

    /// The record of what a call to a builder came to.
    pub open spec fn spec_outcome(kind: BuilderKind, outcome: Result<(), BuilderError>) -> Diagnostic {
        Diagnostic {
            kind,
            event: if outcome is Ok {
                DiagnosticEvent::Accepted
            } else {
                DiagnosticEvent::Rejected
            },
        }
    }

    /// The record of an attempt to set up a client for a kind.
    pub fn construction(kind: BuilderKind, built: &Result<Builder, BuilderError>) -> (record:
        Diagnostic)
        ensures
            record == Self::spec_construction(kind, *built),
    {
        match built {
            Ok(_) => Diagnostic { kind, event: DiagnosticEvent::Constructed },
            Err(_) => Diagnostic { kind, event: DiagnosticEvent::ConstructionFailed },
        }
    }

    /// The record written before a call is issued.
    pub fn attempt(kind: BuilderKind) -> (record: Diagnostic)
        ensures
            record == (Diagnostic { kind, event: DiagnosticEvent::Attempt }),
    {
        Diagnostic { kind, event: DiagnosticEvent::Attempt }
    }

    /// The record of what a call to a builder came to.
    pub fn outcome(kind: BuilderKind, outcome: &Result<(), BuilderError>) -> (record: Diagnostic)
        ensures
            record == Self::spec_outcome(kind, *outcome),
    {
        match outcome {
            Ok(_) => Diagnostic { kind, event: DiagnosticEvent::Accepted },
            Err(_) => Diagnostic { kind, event: DiagnosticEvent::Rejected },
        }
    }
}

} // verus!
