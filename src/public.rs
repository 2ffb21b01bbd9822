use vstd::prelude::*;

use crate::internal::InternalSdkError;

verus! {

/// Public error kinds returned by the SDK.
#[derive(Debug, Clone, PartialEq, Eq)]
pub enum ExternalSdkError {
    /// The invoice failed to parse or to validate; the message is kept verbatim.
    LnInvoiceError { err: String },
    /// Every other internal failure, with no detail attached.
    Generic,
}

/// Result type of the SDK's public operations.
pub type SdkResult<T, E = ExternalSdkError> = Result<T, E>;

/// The public error that an internal error becomes at the SDK boundary.
pub open spec fn translated(e: InternalSdkError) -> ExternalSdkError {
    match e {
        InternalSdkError::LnInvoiceError(m) => ExternalSdkError::LnInvoiceError { err: m },
        _ => ExternalSdkError::Generic,
    }
}

/// Translates an internal error into the public error returned to callers.
/// It borrows its argument, so the same error can be translated again.
pub fn translate(internal: &InternalSdkError) -> (r: ExternalSdkError)
    ensures
        r == translated(*internal),
{
    match internal {
        InternalSdkError::LnInvoiceError(m) => ExternalSdkError::LnInvoiceError { err: m.clone() },
        _ => ExternalSdkError::Generic,
    }
}

impl From<InternalSdkError> for ExternalSdkError {
    fn from(value: InternalSdkError) -> (r: Self) {
        match value {
            InternalSdkError::LnInvoiceError(err) => Self::LnInvoiceError { err },
            _ => Self::Generic,
        }
    }
}

impl vstd::std_specs::convert::FromSpecImpl<InternalSdkError> for ExternalSdkError {
    open spec fn obeys_from_spec() -> bool {
        true
    }

    open spec fn from_spec(v: InternalSdkError) -> ExternalSdkError {
        translated(v)
    }
}

/// Every internal error translates to one of the two public kinds, whatever
/// its variant.
pub proof fn lemma_translation_exhaustive(e: InternalSdkError)
    ensures
        translated(e) is LnInvoiceError || translated(e) is Generic,
        e is LnInvoiceError ==> translated(e) is LnInvoiceError,
        e is LnUrlPayValidationError ==> translated(e) is Generic,
        e is LnUrlPayValidationErrorIVDecode ==> translated(e) is Generic,
        e is LnUrlWithdrawValidationError ==> translated(e) is Generic,
        e is LnUrlWithdrawCallbackParsingError ==> translated(e) is Generic,
        e is HttpsConnectionError ==> translated(e) is Generic,
        e is SystemTimeError ==> translated(e) is Generic,
{
}

/// An internal invoice error crosses the boundary with its message unchanged.
pub proof fn lemma_invoice_fidelity(m: String)
    ensures
        translated(InternalSdkError::LnInvoiceError(m)) == (ExternalSdkError::LnInvoiceError {
            err: m,
        }),
{
}

/// Every internal error other than an invoice error collapses to `Generic`,
/// and never to an invoice error.
pub proof fn lemma_collapse(e: InternalSdkError)
    requires
        !(e is LnInvoiceError),
    ensures
        translated(e) == ExternalSdkError::Generic,
        !(translated(e) is LnInvoiceError),
{
}

/// Translating equal internal errors gives equal public errors.
pub proof fn lemma_translation_repeatable(a: InternalSdkError, b: InternalSdkError)
    requires
        a == b,
    ensures
        translated(a) == translated(b),
{
}

/// Once two internal errors have both become `Generic`, no function of the
/// public value tells them apart; so where they differ, no such function
/// gives both of them back.
pub proof fn lemma_no_resurrection(
    a: InternalSdkError,
    b: InternalSdkError,
    recover: spec_fn(ExternalSdkError) -> InternalSdkError,
)
    requires
        translated(a) is Generic,
        translated(b) is Generic,
    ensures
        recover(translated(a)) == recover(translated(b)),
        a != b ==> !(recover(translated(a)) == a && recover(translated(b)) == b),
{
}

} // verus!
