use hem_lambda::correlation::{clone_optional, resolve_correlation_id, InvocationContext};
use hem_lambda::outcome::{DomainErrorKind, Outcome, ResolutionFailure};

fn text(s: &str) -> String {
    s.to_string()
}

#[test]
fn success_is_200_without_detail_and_unlogged() {
    let class = Outcome::Success(text("{}")).classify();
    assert_eq!(class.status, 200);
    assert_eq!(class.detail, None);
    assert!(!class.loggable);
}

#[test]
fn no_result_is_503() {
    let class = Outcome::NoResultAvailable.classify();
    assert_eq!(class.status, 503);
    assert_eq!(class.detail, Some(text("Calculation response not available")));
    assert!(!class.loggable);
}

#[test]
fn invalid_request_is_422() {
    let class = Outcome::InvalidRequest(text("missing field: zone")).classify();
    assert_eq!(class.status, 422);
    assert_eq!(class.detail, Some(text("missing field: zone")));
    assert!(!class.loggable);
}

#[test]
fn unsupported_body_is_415() {
    let class = Outcome::UnsupportedBodyShape(text("bad body")).classify();
    assert_eq!(class.status, 415);
    assert_eq!(class.detail, Some(text("bad body")));
    assert!(!class.loggable);
}

#[test]
fn resolution_failure_is_422() {
    let class = Outcome::InputResolutionFailure(text("no such product")).classify();
    assert_eq!(class.status, 422);
    assert_eq!(class.detail, Some(text("no such product")));
    assert!(!class.loggable);
}

#[test]
fn internal_failure_is_500_and_logged() {
    let outcome = Outcome::EngineInternalFailure(text("boom"));
    assert_eq!(outcome.status(), 500);
    assert!(outcome.loggable());
    let class = outcome.classify();
    assert_eq!(class.status, 500);
    assert_eq!(class.detail, Some(text("boom")));
    assert!(class.loggable);
}

#[test]
fn not_implemented_is_501_and_logged() {
    let class = Outcome::NotImplemented(text("heat networks")).classify();
    assert_eq!(class.status, 501);
    assert_eq!(class.detail, Some(text("heat networks")));
    assert!(class.loggable);
}

#[test]
fn engine_errors_map_to_their_outcomes() {
    assert!(matches!(
        Outcome::from_error(DomainErrorKind::InvalidRequest(text("a"))),
        Outcome::InvalidRequest(m) if m == "a"
    ));
    assert!(matches!(
        Outcome::from_error(DomainErrorKind::WrapperPanic(text("b"))),
        Outcome::EngineInternalFailure(m) if m == "b"
    ));
    assert!(matches!(
        Outcome::from_error(DomainErrorKind::CalculationFailure(text("c"))),
        Outcome::EngineInternalFailure(m) if m == "c"
    ));
    assert!(matches!(
        Outcome::from_error(DomainErrorKind::CalculationPanic(text("d"))),
        Outcome::EngineInternalFailure(m) if m == "d"
    ));
    assert!(matches!(
        Outcome::from_error(DomainErrorKind::PostprocessingFailure(text("e"))),
        Outcome::EngineInternalFailure(m) if m == "e"
    ));
    assert!(matches!(
        Outcome::from_error(DomainErrorKind::NotImplemented(text("f"))),
        Outcome::NotImplemented(m) if m == "f"
    ));
    assert!(matches!(
        Outcome::from_error(DomainErrorKind::UnsupportedBody(text("g"))),
        Outcome::UnsupportedBodyShape(m) if m == "g"
    ));
    assert!(matches!(
        Outcome::from_error(DomainErrorKind::Unclassified(text("h"))),
        Outcome::EngineInternalFailure(m) if m == "h"
    ));
}

#[test]
fn invalid_request_found_while_resolving_keeps_its_message() {
    let outcome =
        Outcome::from_resolution_failure(ResolutionFailure::InvalidRequest(text("not JSON")));
    assert!(matches!(&outcome, Outcome::InvalidRequest(m) if m == "not JSON"));
    assert_eq!(outcome.status(), 422);
}

#[test]
fn other_resolution_failures_are_wrapped() {
    let outcome = Outcome::from_resolution_failure(ResolutionFailure::Other(text("timeout")));
    assert!(matches!(
        &outcome,
        Outcome::InputResolutionFailure(m) if m == "Error resolving products from PCDB: timeout"
    ));
    assert_eq!(outcome.status(), 422);
    assert!(!outcome.loggable());
}

#[test]
fn request_id_is_taken_from_either_gateway_context() {
    assert_eq!(
        resolve_correlation_id(InvocationContext::ApiGatewayV1 { request_id: Some(text("v1-id")) }),
        Some(text("v1-id"))
    );
    assert_eq!(
        resolve_correlation_id(InvocationContext::ApiGatewayV2 { request_id: Some(text("v2-id")) }),
        Some(text("v2-id"))
    );
}

#[test]
fn request_id_is_absent_where_the_context_has_none() {
    assert_eq!(resolve_correlation_id(InvocationContext::ApiGatewayV1 { request_id: None }), None);
    assert_eq!(resolve_correlation_id(InvocationContext::ApiGatewayV2 { request_id: None }), None);
    assert_eq!(resolve_correlation_id(InvocationContext::Other), None);
}

#[test]
fn optional_text_is_copied() {
    assert_eq!(clone_optional(&Some(text("abc"))), Some(text("abc")));
    assert_eq!(clone_optional(&None), None);
}
