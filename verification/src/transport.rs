//! What fetching the remote manifest gave, and whether it counts as fetched.

use vstd::prelude::*;
use crate::text::{decimal, decimal_string};

verus! {

/// What the HTTP collaborator reports of one GET.
#[derive(Debug, Clone)]
pub enum FetchOutcome {
    /// The server answered, with this status code and body.
    Response { status: u16, body: Vec<u8> },
    /// No answer could be had (no route, time-out, broken transfer).
    Failed(String),
}

/// The mathematical value of a [`FetchOutcome`].
pub enum FetchOutcomeView {
    Response { status: u16, body: Seq<u8> },
    Failed(Seq<char>),
}

impl View for FetchOutcome {
    type V = FetchOutcomeView;

    open spec fn view(&self) -> FetchOutcomeView {
        match self {
            FetchOutcome::Response { status, body } => FetchOutcomeView::Response {
                status: *status,
                body: body@,
            },
            FetchOutcome::Failed(reason) => FetchOutcomeView::Failed(reason@),
        }
    }
}

/// Why the manifest could not be fetched.
#[derive(Debug, Clone)]
pub enum TransportError {
    /// The server answered with a status outside 200 to 299; the body is
    /// kept for diagnosis.
    Status { code: u16, body: Vec<u8> },
    /// The request itself failed.
    Network(String),
}

/// The mathematical value of a [`TransportError`].
pub enum TransportErrorView {
    Status { code: u16, body: Seq<u8> },
    Network(Seq<char>),
}

impl View for TransportError {
    type V = TransportErrorView;

    open spec fn view(&self) -> TransportErrorView {
        match self {
            TransportError::Status { code, body } => TransportErrorView::Status {
                code: *code,
                body: body@,
            },
            TransportError::Network(reason) => TransportErrorView::Network(reason@),
        }
    }
}

impl TransportErrorView {
    /// The error in words.
    pub open spec fn message(self) -> Seq<char> {
        match self {
            TransportErrorView::Status { code, body } => "HTTP error: "@ + decimal(code as nat),
            TransportErrorView::Network(reason) => reason,
        }
    }
}

impl TransportError {
    /// The error in words.
    pub fn message(&self) -> (text: String)
        ensures
            text@ == self@.message(),
    {
        match self {
            TransportError::Status { code, body } => {
                let digits = decimal_string(*code as u64);
                String::from_str("HTTP error: ").concat(digits.as_str())
            },
            TransportError::Network(reason) => reason.clone(),
        }
    }
}

/// Whether a status code reports success.
pub open spec fn is_success(status: u16) -> bool {
    200 <= status <= 299
}

/// What a fetch amounts to: the body of a successful answer, or the error.
pub open spec fn fetched(outcome: FetchOutcomeView) -> Result<Seq<u8>, TransportErrorView> {
    match outcome {
        FetchOutcomeView::Response { status, body } => if is_success(status) {
            Ok(body)
        } else {
            Err(TransportErrorView::Status { code: status, body })
        },
        FetchOutcomeView::Failed(reason) => Err(TransportErrorView::Network(reason)),
    }
}

/// The manifest bytes of a fetch, or why there are none.
///
/// An answer counts only with a status from 200 to 299. A request that
/// failed is another kind of error than an answer with a bad status.
pub fn download_torrent(outcome: FetchOutcome) -> (result: Result<Vec<u8>, TransportError>)
    ensures
        match fetched(outcome@) {
            Ok(body) => result matches Ok(bytes) && bytes@ == body,
            Err(error) => result matches Err(e) && e@ == error,
        },
{
    match outcome {
        FetchOutcome::Response { status, body } => {
            if 200 <= status && status <= 299 {
                Ok(body)
            } else {
                Err(TransportError::Status { code: status, body })
            }
        },
        FetchOutcome::Failed(reason) => Err(TransportError::Network(reason)),
    }
}

} // verus!
