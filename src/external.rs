use vstd::prelude::*;

use crate::time_gap::{NANOS_PER_SEC, TimeGap};

verus! {

#[verifier::external_type_specification]
#[verifier::external_body]
pub struct ExInvoiceParseError(lightning_invoice::ParseError);

#[verifier::external_type_specification]
#[verifier::external_body]
pub struct ExInvoiceSemanticError(lightning_invoice::SemanticError);

#[verifier::external_type_specification]
#[verifier::external_body]
pub struct ExTransportError(reqwest::Error);

#[verifier::external_type_specification]
#[verifier::external_body]
pub struct ExUrlParseError(url::ParseError);

#[verifier::external_type_specification]
#[verifier::external_body]
pub struct ExSystemTimeError(std::time::SystemTimeError);

/// The description that `lightning_invoice` writes for a parse error.
pub uninterp spec fn invoice_parse_text(e: lightning_invoice::ParseError) -> Seq<char>;

/// The description that `lightning_invoice` writes for a semantic error.
pub uninterp spec fn invoice_semantic_text(e: lightning_invoice::SemanticError) -> Seq<char>;

/// The status code that a `reqwest` error carries, if any.
pub uninterp spec fn transport_status_of(e: reqwest::Error) -> Option<u16>;

/// How far the later clock reading of a `SystemTimeError` lay after the
/// earlier one, as whole seconds and the nanoseconds past them.
pub uninterp spec fn elapsed_of(e: std::time::SystemTimeError) -> (u64, u32);

/// Relies on `Display` of `lightning_invoice::ParseError`: the description
/// depends on the error alone, and each variant writes a fixed, non-empty
/// text first.
#[verifier::external_body]
pub(crate) fn invoice_parse_message(e: &lightning_invoice::ParseError) -> (r: String)
    ensures
        r@ == invoice_parse_text(*e),
        r@.len() > 0,
{
    e.to_string()
}

/// Relies on `Display` of `lightning_invoice::SemanticError`: each variant
/// writes a fixed, non-empty sentence.
#[verifier::external_body]
pub(crate) fn invoice_semantic_message(e: &lightning_invoice::SemanticError) -> (r: String)
    ensures
        r@ == invoice_semantic_text(*e),
        r@.len() > 0,
{
    e.to_string()
}

/// Relies on `Display` of `reqwest::Error`: it starts with a fixed,
/// non-empty description of the error's kind.
#[verifier::external_body]
pub(crate) fn transport_message(e: &reqwest::Error) -> (r: String)
    ensures
        r@.len() > 0,
{
    e.to_string()
}

/// Relies on `reqwest::Error::status`: the status held in the error, there
/// only for an error made from a response whose status was a client or
/// server error.
#[verifier::external_body]
pub(crate) fn transport_status(e: &reqwest::Error) -> (r: Option<u16>)
    ensures
        r == transport_status_of(*e),
        r matches Some(c) ==> 400 <= c < 600,
{
    e.status().map(|s| s.as_u16())
}

/// Relies on `SystemTimeError::duration`: how far the later reading lay
/// after the earlier one; its sub-second part is under one second.
#[verifier::external_body]
pub(crate) fn elapsed_gap(e: &std::time::SystemTimeError) -> (r: TimeGap)
    ensures
        (r.secs, r.nanos) == elapsed_of(*e),
        r.nanos < NANOS_PER_SEC,
{
    let d = e.duration();
    TimeGap { secs: d.as_secs(), nanos: d.subsec_nanos() }
}

} // verus!
