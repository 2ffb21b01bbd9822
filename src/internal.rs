use vstd::prelude::*;

use crate::external::{
    elapsed_gap, elapsed_of, invoice_parse_message, invoice_parse_text, invoice_semantic_message,
    invoice_semantic_text, transport_message, transport_status, transport_status_of,
};
use crate::time_gap::TimeGap;

verus! {

/// Error kinds raised internally by SDK modules.
#[derive(Debug, Clone, PartialEq, Eq)]
pub enum InternalSdkError {
    /// The invoice failed to parse or failed semantic validation.
    LnInvoiceError(String),
    /// A pay request failed validation.
    LnUrlPayValidationError(String),
    /// A pay request's encoded IV field failed to decode.
    LnUrlPayValidationErrorIVDecode(String),
    /// A withdraw request failed validation.
    LnUrlWithdrawValidationError(String),
    /// A withdraw callback response failed to parse.
    LnUrlWithdrawCallbackParsingError(String),
    /// A network operation failed; the status is there only where an HTTP
    /// exchange completed with an error status.
    HttpsConnectionError(Option<u16>, String),
    /// A duration was asked for where `from` lies after `to`; holds by how much.
    SystemTimeError(TimeGap),
}

/// Result type of internal operations.
pub type InternalSdkResult<T, E = InternalSdkError> = Result<T, E>;

/// A failure of another library that has no internal error kind yet.
#[derive(Debug, Clone, Copy, PartialEq, Eq)]
pub enum UnmappedFailure {
    /// A URL failed to parse.
    UrlParse,
}

/// An invoice that failed to parse becomes an invoice error with the
/// parser's description.
pub fn from_invoice_parse_failure(f: &lightning_invoice::ParseError) -> (r: InternalSdkError)
    ensures
        r matches InternalSdkError::LnInvoiceError(m) && m@ == invoice_parse_text(*f)
            && m@.len() > 0,
{
    InternalSdkError::LnInvoiceError(invoice_parse_message(f))
}

/// An invoice that failed semantic validation becomes an invoice error with
/// the validator's description.
pub fn from_invoice_semantic_failure(f: &lightning_invoice::SemanticError) -> (r: InternalSdkError)
    ensures
        r matches InternalSdkError::LnInvoiceError(m) && m@ == invoice_semantic_text(*f)
            && m@.len() > 0,
{
    InternalSdkError::LnInvoiceError(invoice_semantic_message(f))
}

/// A failed network operation becomes a connection error that carries the
/// failure's own status (there only where the server answered with a client
/// or server error status) and a non-empty description of it.
pub fn from_transport_failure(f: &reqwest::Error) -> (r: InternalSdkError)
    ensures
        r matches InternalSdkError::HttpsConnectionError(status, m) && m@.len() > 0
            && status == transport_status_of(*f)
            && (status matches Some(c) ==> 400 <= c < 600),
{
    let status = transport_status(f);
    let message = transport_message(f);
    InternalSdkError::HttpsConnectionError(status, message)
}

/// A clock reading that lay after the time it was measured against becomes
/// a `SystemTimeError` that holds exactly by how much.
pub fn from_duration_failure(f: &std::time::SystemTimeError) -> (r: InternalSdkError)
    ensures
        r matches InternalSdkError::SystemTimeError(g) && g.wf()
            && (g.secs, g.nanos) == elapsed_of(*f),
{
    InternalSdkError::SystemTimeError(elapsed_gap(f))
}

/// A URL parse failure has no internal error kind: it is reported as
/// unmapped, apart from every internal error.
pub fn from_url_parse_failure(_f: &url::ParseError) -> (r: Result<InternalSdkError, UnmappedFailure>)
    ensures
        r == Err::<InternalSdkError, UnmappedFailure>(UnmappedFailure::UrlParse),
{
    Err(UnmappedFailure::UrlParse)
}

} // verus!
