//! The failures the platform reports.

use vstd::prelude::*;
use vstd::string::*;

verus! {

/// A failure of the platform.
#[derive(Debug, Clone)]
pub enum CybulousError {
    /// Orchestration failed.
    OrchestrationFailed(String),
    /// The agent pool failed.
    AgentPoolError(String),
    /// A platform instance failed.
    PlatformError(String),
    /// State management failed.
    StateError(String),
    /// Consent verification failed.
    ConsentError(String),
    /// Artifact storage failed.
    ArtifactError(String),
    /// The network failed; the text is the report of the network layer.
    NetworkError(String),
    /// A document could not be read or written; the text is the report of
    /// the serializer.
    SerializationError(String),
}

/// What a [`CybulousError`] holds.
pub enum CybulousErrorView {
    OrchestrationFailed(Seq<char>),
    AgentPoolError(Seq<char>),
    PlatformError(Seq<char>),
    StateError(Seq<char>),
    ConsentError(Seq<char>),
    ArtifactError(Seq<char>),
    NetworkError(Seq<char>),
    SerializationError(Seq<char>),
}

impl View for CybulousError {
    type V = CybulousErrorView;

    open spec fn view(&self) -> CybulousErrorView {
        match self {
            CybulousError::OrchestrationFailed(detail) => CybulousErrorView::OrchestrationFailed(
                detail@,
            ),
            CybulousError::AgentPoolError(detail) => CybulousErrorView::AgentPoolError(detail@),
            CybulousError::PlatformError(detail) => CybulousErrorView::PlatformError(detail@),
            CybulousError::StateError(detail) => CybulousErrorView::StateError(detail@),
            CybulousError::ConsentError(detail) => CybulousErrorView::ConsentError(detail@),
            CybulousError::ArtifactError(detail) => CybulousErrorView::ArtifactError(detail@),
            CybulousError::NetworkError(detail) => CybulousErrorView::NetworkError(detail@),
            CybulousError::SerializationError(detail) => CybulousErrorView::SerializationError(
                detail@,
            ),
        }
    }
}

impl CybulousErrorView {
    /// The words that name the kind of failure.
    pub open spec fn heading(self) -> Seq<char> {
        match self {
            CybulousErrorView::OrchestrationFailed(_) => "orchestration failed: "@,
            CybulousErrorView::AgentPoolError(_) => "agent pool error: "@,
            CybulousErrorView::PlatformError(_) => "platform instance error: "@,
            CybulousErrorView::StateError(_) => "state management error: "@,
            CybulousErrorView::ConsentError(_) => "consent verification failed: "@,
            CybulousErrorView::ArtifactError(_) => "artifact storage error: "@,
            CybulousErrorView::NetworkError(_) => "network error: "@,
            CybulousErrorView::SerializationError(_) => "serialization error: "@,
        }
    }

    /// The detail that the failure carries.
    pub open spec fn detail(self) -> Seq<char> {
        match self {
            CybulousErrorView::OrchestrationFailed(detail) => detail,
            CybulousErrorView::AgentPoolError(detail) => detail,
            CybulousErrorView::PlatformError(detail) => detail,
            CybulousErrorView::StateError(detail) => detail,
            CybulousErrorView::ConsentError(detail) => detail,
            CybulousErrorView::ArtifactError(detail) => detail,
            CybulousErrorView::NetworkError(detail) => detail,
            CybulousErrorView::SerializationError(detail) => detail,
        }
    }

    /// The text that reports the failure to a person: the heading of its
    /// kind, then its detail.
    pub open spec fn message(self) -> Seq<char> {
        self.heading() + self.detail()
    }
}

impl CybulousError {
    /// The text that reports the failure to a person.
    pub fn message(&self) -> (text: String)
        ensures
            text@ == self@.message(),
    {
        let (heading, detail) = match self {
            CybulousError::OrchestrationFailed(detail) => ("orchestration failed: ", detail),
            CybulousError::AgentPoolError(detail) => ("agent pool error: ", detail),
            CybulousError::PlatformError(detail) => ("platform instance error: ", detail),
            CybulousError::StateError(detail) => ("state management error: ", detail),
            CybulousError::ConsentError(detail) => ("consent verification failed: ", detail),
            CybulousError::ArtifactError(detail) => ("artifact storage error: ", detail),
            CybulousError::NetworkError(detail) => ("network error: ", detail),
            CybulousError::SerializationError(detail) => ("serialization error: ", detail),
        };
        let mut text = String::from_str(heading);
        text.append(detail.as_str());
        text
    }
}

} // verus!
