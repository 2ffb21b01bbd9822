use std::time::{Duration, UNIX_EPOCH};

use sdk_errors::internal::{
    from_duration_failure, from_invoice_parse_failure, from_invoice_semantic_failure,
    from_transport_failure, from_url_parse_failure, InternalSdkError, UnmappedFailure,
};
use sdk_errors::public::{translate, ExternalSdkError};
use sdk_errors::time_gap::TimeGap;

#[test]
fn invoice_parse_failure_keeps_description() {
    let e = from_invoice_parse_failure(&lightning_invoice::ParseError::BadPrefix);
    assert_eq!(e, InternalSdkError::LnInvoiceError("did not begin with 'ln'".to_string()));
    assert_eq!(
        translate(&e),
        ExternalSdkError::LnInvoiceError { err: "did not begin with 'ln'".to_string() }
    );
}

#[test]
fn invoice_parse_of_garbage_gives_invoice_error() {
    let err = "garbage".parse::<lightning_invoice::SignedRawInvoice>().unwrap_err();
    match from_invoice_parse_failure(&err) {
        InternalSdkError::LnInvoiceError(m) => assert_eq!(m, err.to_string()),
        other => panic!("unexpected {:?}", other),
    }
}

#[test]
fn invoice_semantic_failure_keeps_description() {
    let e = from_invoice_semantic_failure(&lightning_invoice::SemanticError::NoPaymentHash);
    assert_eq!(
        e,
        InternalSdkError::LnInvoiceError(
            "The invoice is missing the mandatory payment hash".to_string()
        )
    );
}

#[test]
fn transport_failure_with_status_404() {
    let resp = http::Response::builder().status(404).body("").unwrap();
    let err = reqwest::Response::from(resp).error_for_status().unwrap_err();
    match from_transport_failure(&err) {
        InternalSdkError::HttpsConnectionError(status, m) => {
            assert_eq!(status, Some(404));
            assert!(!m.is_empty());
        }
        other => panic!("unexpected {:?}", other),
    }
}

#[test]
fn transport_failure_without_exchange_has_no_status() {
    let err = reqwest::Client::new().get("not a url").build().unwrap_err();
    match from_transport_failure(&err) {
        InternalSdkError::HttpsConnectionError(status, m) => {
            assert_eq!(status, None);
            assert!(!m.is_empty());
        }
        other => panic!("unexpected {:?}", other),
    }
}

#[test]
fn clock_failure_records_the_gap() {
    let err = UNIX_EPOCH.duration_since(UNIX_EPOCH + Duration::from_secs(10)).unwrap_err();
    assert_eq!(
        from_duration_failure(&err),
        InternalSdkError::SystemTimeError(TimeGap { secs: 10, nanos: 0 })
    );
}

#[test]
fn url_parse_failure_is_reported_unmapped() {
    let err = url::Url::parse("no scheme here").unwrap_err();
    assert_eq!(from_url_parse_failure(&err), Err(UnmappedFailure::UrlParse));
}
