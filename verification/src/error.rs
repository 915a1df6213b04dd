//! The failures a reconciliation can report.

use vstd::prelude::*;

verus! {

/// Why a reconciliation did not succeed.
#[derive(Debug, PartialEq, Eq)]
pub enum WorkloadError {
    /// The declared workload kind has no variant; carries the declared kind.
    UnsupportedWorkloadKind(String),
    /// The synthesized resource could not be encoded for transport.
    SerializationFailure,
    /// The control plane could not be reached or refused the request;
    /// carries its message.
    TransportFailure(String),
    /// A run-to-completion process failed more often than its retry
    /// ceiling allows.
    RetryCeilingExhausted,
}

/// The mathematical value of an [`WorkloadError`].
pub ghost enum WorkloadErrorView {
    UnsupportedWorkloadKind(Seq<char>),
    SerializationFailure,
    TransportFailure(Seq<char>),
    RetryCeilingExhausted,
}

impl View for WorkloadError {
    type V = WorkloadErrorView;

    open spec fn view(&self) -> WorkloadErrorView {
        match self {
            WorkloadError::UnsupportedWorkloadKind(kind) => {
                WorkloadErrorView::UnsupportedWorkloadKind(kind@)
            },
            WorkloadError::SerializationFailure => WorkloadErrorView::SerializationFailure,
            WorkloadError::TransportFailure(message) => {
                WorkloadErrorView::TransportFailure(message@)
            },
            WorkloadError::RetryCeilingExhausted => WorkloadErrorView::RetryCeilingExhausted,
        }
    }
}

impl Clone for WorkloadError {
    fn clone(&self) -> (out: Self)
        ensures
            out@ == self@,
    {
        match self {
            WorkloadError::UnsupportedWorkloadKind(kind) => {
                WorkloadError::UnsupportedWorkloadKind(kind.clone())
            },
            WorkloadError::SerializationFailure => WorkloadError::SerializationFailure,
            WorkloadError::TransportFailure(message) => {
                WorkloadError::TransportFailure(message.clone())
            },
            WorkloadError::RetryCeilingExhausted => WorkloadError::RetryCeilingExhausted,
        }
    }
}

impl WorkloadError {
    /// Whether calling again later may succeed: only a transport failure is
    /// worth a retry, the others are final.
    pub open spec fn spec_is_retriable(&self) -> bool {
        self is TransportFailure
    }

    /// Whether calling again later may succeed.
    #[verifier::when_used_as_spec(spec_is_retriable)]
    pub fn is_retriable(&self) -> (out: bool)
        ensures
            out == self.spec_is_retriable(),
    {
        match self {
            WorkloadError::TransportFailure(_) => true,
            _ => false,
        }
    }
}

} // verus!
