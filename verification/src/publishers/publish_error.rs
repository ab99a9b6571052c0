use vstd::prelude::*;

verus! {

/// Why a publish call did not succeed.
#[derive(Clone, Debug, PartialEq, Eq)]
pub enum PublishError {
    /// There was no current connection when the request was to be sent.
    NoConnectionToPublish,
    /// The connection that carried the request was torn down before the broker answered.
    Disconnected,
    /// The payload could not be encoded.
    SerializationError(String),
    /// The transport failed to write, or the broker reported an error.
    Other(String),
}

/// The mathematical value of a [`PublishError`]: texts are sequences of characters.
pub enum PublishErrorView {
    NoConnectionToPublish,
    Disconnected,
    SerializationError(Seq<char>),
    Other(Seq<char>),
}

impl View for PublishError {
    type V = PublishErrorView;

    open spec fn view(&self) -> PublishErrorView {
        match self {
            PublishError::NoConnectionToPublish => PublishErrorView::NoConnectionToPublish,
            PublishError::Disconnected => PublishErrorView::Disconnected,
            PublishError::SerializationError(detail) => PublishErrorView::SerializationError(
                detail@,
            ),
            PublishError::Other(detail) => PublishErrorView::Other(detail@),
        }
    }
}

impl From<String> for PublishError {
    /// A free-form detail, as a transport or broker error is reported, is an
    /// error of the kind `Other`.
    fn from(detail: String) -> (error: PublishError) {
        PublishError::Other(detail)
    }
}

impl vstd::std_specs::convert::FromSpecImpl<String> for PublishError {
    open spec fn obeys_from_spec() -> bool {
        true
    }

    open spec fn from_spec(detail: String) -> PublishError {
        PublishError::Other(detail)
    }
}

impl PublishError {
    /// Whether the retry policy applies to this error: only the two errors that a
    /// lost or missing connection produces are ever retried.
    pub open spec fn is_retryable(self) -> bool {
        self is NoConnectionToPublish || self is Disconnected
    }

    /// Wraps a free-form detail, as a transport or broker error is reported.
    pub fn from_detail(detail: String) -> (error: PublishError)
        ensures
            error == PublishError::Other(detail),
    {
        PublishError::from(detail)
    }

    /// Decides whether the retry policy applies to this error.
    pub fn can_retry(&self) -> (retry: bool)
        ensures
            retry == self.is_retryable(),
    {
        match self {
            PublishError::NoConnectionToPublish => true,
            PublishError::Disconnected => true,
            PublishError::SerializationError(_) => false,
            PublishError::Other(_) => false,
        }
    }
}

} // verus!
