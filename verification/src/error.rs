//! Error taxonomy of the client, and the classification of transport
//! outcomes into it.

use vstd::prelude::*;

verus! {

/// What the client reads of a server response: the HTTP status code and the
/// raw body text, kept for the caller's inspection.
#[derive(Debug)]
pub struct RawResponse {
    pub status: u16,
    pub body: String,
}

/// Everything that can go wrong while talking to a TAXII server.
#[derive(Debug)]
pub enum TaxiiError {
    /// The request could not be executed at all (network, DNS, timeout);
    /// carries a descriptive message.
    TaxiiConnectionError(String),
    /// The server answered 401; carries the response for inspection.
    TaxiiAuthorizationError(RawResponse),
    /// The server answered 404; carries the response for inspection.
    TaxiiNotFound(RawResponse),
    /// The server answered with any other non-success status; carries the
    /// response for inspection.
    TaxiiGenericError(RawResponse),
    /// No collection identifier was supplied and the chosen root lists none.
    TaxiiCollectionError(String),
    /// A response body did not match the expected JSON shape.
    JsonDeserializationError(String),
}

/// How one HTTP round-trip ended: either the server delivered a response
/// (of any status), or the request could not be executed at all.
#[derive(Debug)]
pub enum TransportOutcome {
    Delivered(RawResponse),
    NotExecuted(String),
}

/// A status in the HTTP success range.
pub open spec fn is_success_status(status: u16) -> bool {
    200 <= status < 300
}

/// The error taxonomy applied to a transport outcome: 401 maps to an
/// authorization error, 404 to not-found, any other non-success status to a
/// generic error, a request that never executed to a connection error, and
/// only a success status passes the response through.
pub open spec fn spec_classify(outcome: TransportOutcome) -> Result<RawResponse, TaxiiError> {
    match outcome {
        TransportOutcome::Delivered(resp) => if resp.status == 401 {
            Err(TaxiiError::TaxiiAuthorizationError(resp))
        } else if resp.status == 404 {
            Err(TaxiiError::TaxiiNotFound(resp))
        } else if is_success_status(resp.status) {
            Ok(resp)
        } else {
            Err(TaxiiError::TaxiiGenericError(resp))
        },
        TransportOutcome::NotExecuted(msg) => Err(TaxiiError::TaxiiConnectionError(msg)),
    }
}

/// Classifies one transport outcome, exactly as `spec_classify` says:
/// decoding may proceed only on a delivered success status.
pub fn classify_response(outcome: TransportOutcome) -> (r: Result<RawResponse, TaxiiError>)
    ensures
        r == spec_classify(outcome),
        r is Ok <==> (outcome matches TransportOutcome::Delivered(resp)
            && is_success_status(resp.status)),
{
    match outcome {
        TransportOutcome::Delivered(resp) => {
            if resp.status == 401 {
                Err(TaxiiError::TaxiiAuthorizationError(resp))
            } else if resp.status == 404 {
                Err(TaxiiError::TaxiiNotFound(resp))
            } else if 200 <= resp.status && resp.status < 300 {
                Ok(resp)
            } else {
                Err(TaxiiError::TaxiiGenericError(resp))
            }
        },
        TransportOutcome::NotExecuted(msg) => Err(TaxiiError::TaxiiConnectionError(msg)),
    }
}

} // verus!
