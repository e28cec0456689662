use hem_lambda::json::{frame_data_body, frame_error, frame_errors_body, frame_meta, quote};
use hem_lambda::meta::{ResponseMeta, VersionInfo};
use hem_lambda::outcome::{DomainErrorKind, Outcome};
use hem_lambda::response::{ErrorEnvelope, ResponseBuilder};
use hem_lambda::text::status_text;
use serde_json::Value;

fn text(s: &str) -> String {
    s.to_string()
}

fn versions() -> VersionInfo {
    VersionInfo::new("0.36", "2025-06-05", "FHS-0.27", "2025-03-20", None).unwrap()
}

fn builder() -> ResponseBuilder {
    ResponseBuilder::new(versions())
}

fn parse(body: &str) -> Value {
    serde_json::from_str(body).unwrap()
}

const META: &str = "{\"hem_version\":\"0.36\",\"hem_version_date\":\"2025-06-05\",\
                    \"fhs_version\":\"FHS-0.27\",\"fhs_version_date\":\"2025-03-20\"}";

#[test]
fn success_carries_data_and_request_id() {
    let response = builder()
        .build_response(&Outcome::Success(text("{\"result\":42}")), Some(text("abc-123")));
    assert_eq!(response.status, 200);
    assert_eq!(response.content_type, "application/json");
    assert_eq!(
        response.body,
        "{\"data\":{\"result\":42},\"meta\":{\"hem_version\":\"0.36\",\
         \"hem_version_date\":\"2025-06-05\",\"fhs_version\":\"FHS-0.27\",\
         \"fhs_version_date\":\"2025-03-20\",\"ecaas_request_id\":\"abc-123\"}}"
    );
    let body = parse(&response.body);
    assert_eq!(body["data"]["result"], Value::from(42));
    assert_eq!(body["meta"]["ecaas_request_id"], Value::from("abc-123"));
    assert!(body.get("errors").is_none());
}

#[test]
fn success_without_request_id_leaves_the_member_out() {
    let response =
        builder().build_response(&Outcome::Success(text("{\"result\":42}")), None);
    assert_eq!(response.body, format!("{{\"data\":{{\"result\":42}},\"meta\":{}}}", META));
    let body = parse(&response.body);
    assert!(body["meta"].get("ecaas_request_id").is_none());
    assert!(body["meta"].get("software_version").is_none());
}

#[test]
fn no_result_is_503_with_one_entry_without_id() {
    let response = builder().build_response(&Outcome::NoResultAvailable, None);
    assert_eq!(response.status, 503);
    assert_eq!(response.content_type, "application/json");
    assert_eq!(
        response.body,
        format!(
            "{{\"errors\":[{{\"status\":\"503\",\
             \"detail\":\"Calculation response not available\"}}],\"meta\":{}}}",
            META
        )
    );
    let body = parse(&response.body);
    assert_eq!(body["errors"].as_array().unwrap().len(), 1);
    assert_eq!(body["errors"][0]["detail"], Value::from("Calculation response not available"));
    assert_eq!(body["errors"][0]["status"], Value::from("503"));
    assert!(body["errors"][0].get("id").is_none());
    assert!(body.get("data").is_none());
}

#[test]
fn invalid_request_is_422_with_its_message() {
    let outcome = Outcome::from_error(DomainErrorKind::InvalidRequest(text("missing field: zone")));
    let response = builder().build_response(&outcome, Some(text("abc-123")));
    assert_eq!(response.status, 422);
    let body = parse(&response.body);
    assert_eq!(body["errors"].as_array().unwrap().len(), 1);
    assert_eq!(body["errors"][0]["detail"], Value::from("missing field: zone"));
    assert_eq!(body["errors"][0]["status"], Value::from("422"));
    assert_eq!(body["errors"][0]["id"].as_str().unwrap().len(), 36);
    assert_eq!(body["meta"]["ecaas_request_id"], Value::from("abc-123"));
}

#[test]
fn calculation_panic_is_500_logged_and_fully_described() {
    let outcome = Outcome::from_error(DomainErrorKind::CalculationPanic(text("attempt to divide by zero")));
    assert!(outcome.loggable());
    let versions =
        VersionInfo::new("0.36", "2025-06-05", "FHS-0.27", "2025-03-20", Some(text("1.4.2")))
            .unwrap();
    let response =
        ResponseBuilder::new(versions).build_response(&outcome, Some(text("abc-123")));
    assert_eq!(response.status, 500);
    let body = parse(&response.body);
    assert_eq!(body["errors"][0]["status"], Value::from("500"));
    assert_eq!(body["errors"][0]["detail"], Value::from("attempt to divide by zero"));
    assert_eq!(body["meta"]["hem_version"], Value::from("0.36"));
    assert_eq!(body["meta"]["hem_version_date"], Value::from("2025-06-05"));
    assert_eq!(body["meta"]["fhs_version"], Value::from("FHS-0.27"));
    assert_eq!(body["meta"]["fhs_version_date"], Value::from("2025-03-20"));
    assert_eq!(body["meta"]["software_version"], Value::from("1.4.2"));
    assert_eq!(body["meta"]["ecaas_request_id"], Value::from("abc-123"));
}

#[test]
fn unsupported_body_response_is_415() {
    let response = builder()
        .build_response(&Outcome::UnsupportedBodyShape(text("Non-text inputs are not accepted")), None);
    assert_eq!(response.status, 415);
    let body = parse(&response.body);
    assert_eq!(body["errors"][0]["status"], Value::from("415"));
    assert_eq!(body["errors"][0]["detail"], Value::from("Non-text inputs are not accepted"));
}

#[test]
fn not_implemented_response_is_501() {
    let response =
        builder().build_response(&Outcome::NotImplemented(text("not yet")), None);
    assert_eq!(response.status, 501);
    let body = parse(&response.body);
    assert_eq!(body["errors"][0]["status"], Value::from("501"));
    assert_eq!(body["errors"][0]["detail"], Value::from("not yet"));
}

#[test]
fn resolution_failure_response_is_422() {
    let response = builder()
        .build_response(&Outcome::InputResolutionFailure(text("no product 17")), None);
    assert_eq!(response.status, 422);
    let body = parse(&response.body);
    assert_eq!(body["errors"][0]["status"], Value::from("422"));
    assert_eq!(body["errors"][0]["detail"], Value::from("no product 17"));
}

#[test]
fn response_with_given_id_is_the_same_every_time() {
    let outcome = Outcome::InvalidRequest(text("missing field: zone"));
    let builder = builder();
    let one = builder.build_response_with_id(&outcome, Some(text("abc-123")), "id-1");
    let two = builder.build_response_with_id(&outcome, Some(text("abc-123")), "id-1");
    assert_eq!(one.status, two.status);
    assert_eq!(one.body, two.body);
    assert_eq!(
        one.body,
        "{\"errors\":[{\"id\":\"id-1\",\"status\":\"422\",\"detail\":\"missing field: zone\"}],\
         \"meta\":{\"hem_version\":\"0.36\",\"hem_version_date\":\"2025-06-05\",\
         \"fhs_version\":\"FHS-0.27\",\"fhs_version_date\":\"2025-03-20\",\
         \"ecaas_request_id\":\"abc-123\"}}"
    );
}

#[test]
fn responses_differ_in_the_error_id_alone() {
    let outcome = Outcome::EngineInternalFailure(text("boom"));
    let builder = builder();
    let one = builder.build_response(&outcome, None);
    let two = builder.build_response(&outcome, None);
    assert_eq!(one.status, two.status);
    let mut first = parse(&one.body);
    let mut second = parse(&two.body);
    let first_id = first["errors"][0]["id"].as_str().unwrap().to_string();
    let second_id = second["errors"][0]["id"].as_str().unwrap().to_string();
    assert_ne!(first_id, second_id);
    first["errors"][0]["id"] = Value::Null;
    second["errors"][0]["id"] = Value::Null;
    assert_eq!(first, second);
}

#[test]
fn error_id_has_the_hyphenated_shape() {
    let response =
        builder().build_response(&Outcome::InvalidRequest(text("x")), None);
    let body = parse(&response.body);
    let id: Vec<char> = body["errors"][0]["id"].as_str().unwrap().chars().collect();
    assert_eq!(id.len(), 36);
    for (i, c) in id.iter().enumerate() {
        if i == 8 || i == 13 || i == 18 || i == 23 {
            assert_eq!(*c, '-');
        } else {
            assert!(matches!(*c, '0'..='9' | 'a'..='f'));
        }
    }
    assert_eq!(id[14], '4');
}

#[test]
fn messages_are_escaped() {
    let message = "line one\nsaid \"no\" \\ tab\there \u{1} é €";
    let response = builder()
        .build_response_with_id(&Outcome::InvalidRequest(text(message)), Some(text("a\"b")), "i\\d");
    assert!(response.body.contains(
        "\"detail\":\"line one\\nsaid \\\"no\\\" \\\\ tab\\there \\u0001 é €\""
    ));
    let body = parse(&response.body);
    assert_eq!(body["errors"][0]["detail"], Value::from(message));
    assert_eq!(body["errors"][0]["id"], Value::from("i\\d"));
    assert_eq!(body["meta"]["ecaas_request_id"], Value::from("a\"b"));
}

#[test]
fn quote_writes_a_json_string_literal() {
    assert_eq!(quote("abc"), "\"abc\"");
    assert_eq!(quote(""), "\"\"");
    assert_eq!(quote("a\"b"), "\"a\\\"b\"");
    assert_eq!(quote("a\\b\n"), "\"a\\\\b\\n\"");
    assert_eq!(quote("\u{0}\u{1f}\u{7f}"), "\"\\u0000\\u001f\u{7f}\"");
    assert_eq!(quote("é€\u{1f600}"), "\"é€\u{1f600}\"");
}

#[test]
fn version_dates_are_checked_and_written_canonically() {
    let versions = VersionInfo::new("1", "2024-1-5", "2", "2024-02-29", None).unwrap();
    let meta = ResponseMeta::new(&versions).to_json();
    assert_eq!(
        meta,
        "{\"hem_version\":\"1\",\"hem_version_date\":\"2024-01-05\",\
         \"fhs_version\":\"2\",\"fhs_version_date\":\"2024-02-29\"}"
    );
}

#[test]
fn versions_with_a_date_that_is_none_are_refused() {
    assert!(VersionInfo::new("1", "2023-02-29", "2", "2024-02-29", None).is_none());
    assert!(VersionInfo::new("1", "2024-02-29", "2", "yesterday", None).is_none());
    assert!(VersionInfo::new("1", "", "2", "2024-02-29", None).is_none());
    assert!(VersionInfo::new("1", "05/01/2024", "2", "2024-02-29", None).is_none());
}

#[test]
fn meta_with_request_id_and_software_version() {
    let versions =
        VersionInfo::new("0.36", "2025-06-05", "FHS-0.27", "2025-03-20", Some(text("1.4.2")))
            .unwrap();
    let meta = ResponseMeta::with_request_id(&versions, Some(text("abc-123"))).to_json();
    assert_eq!(
        meta,
        "{\"hem_version\":\"0.36\",\"hem_version_date\":\"2025-06-05\",\
         \"fhs_version\":\"FHS-0.27\",\"fhs_version_date\":\"2025-03-20\",\
         \"software_version\":\"1.4.2\",\"ecaas_request_id\":\"abc-123\"}"
    );
    let without = ResponseMeta::with_request_id(&versions, None).to_json();
    assert_eq!(without, ResponseMeta::new(&versions).to_json());
}

#[test]
fn envelope_for_each_kind_of_outcome() {
    assert!(ErrorEnvelope::for_outcome(&Outcome::Success(text("1")), "id").is_none());
    let none = ErrorEnvelope::for_outcome(&Outcome::NoResultAvailable, "id").unwrap();
    assert_eq!(none.id, None);
    assert_eq!(none.status, "503");
    assert_eq!(none.detail, "Calculation response not available");
    let failed = ErrorEnvelope::for_outcome(&Outcome::NotImplemented(text("later")), "id").unwrap();
    assert_eq!(failed.id, Some(text("id")));
    assert_eq!(failed.status, "501");
    assert_eq!(failed.detail, "later");
    assert_eq!(failed.to_json(), "{\"id\":\"id\",\"status\":\"501\",\"detail\":\"later\"}");
    assert_eq!(
        none.to_json(),
        "{\"status\":\"503\",\"detail\":\"Calculation response not available\"}"
    );
}

#[test]
fn status_codes_are_written_in_decimal() {
    assert_eq!(status_text(0), "0");
    assert_eq!(status_text(7), "7");
    assert_eq!(status_text(10), "10");
    assert_eq!(status_text(200), "200");
    assert_eq!(status_text(415), "415");
    assert_eq!(status_text(422), "422");
    assert_eq!(status_text(500), "500");
    assert_eq!(status_text(501), "501");
    assert_eq!(status_text(503), "503");
    assert_eq!(status_text(1009), "1009");
    assert_eq!(status_text(u16::MAX), "65535");
}

#[test]
fn frames_are_put_together_verbatim() {
    assert_eq!(frame_meta("1", "2", "3", "4", None, None), "{\"hem_version\":1,\"hem_version_date\":2,\"fhs_version\":3,\"fhs_version_date\":4}");
    assert_eq!(
        frame_meta("1", "2", "3", "4", Some("5"), Some("6")),
        "{\"hem_version\":1,\"hem_version_date\":2,\"fhs_version\":3,\"fhs_version_date\":4,\
         \"software_version\":5,\"ecaas_request_id\":6}"
    );
    assert_eq!(
        frame_meta("1", "2", "3", "4", None, Some("6")),
        "{\"hem_version\":1,\"hem_version_date\":2,\"fhs_version\":3,\"fhs_version_date\":4,\
         \"ecaas_request_id\":6}"
    );
    assert_eq!(frame_error(Some("a"), "b", "c"), "{\"id\":a,\"status\":b,\"detail\":c}");
    assert_eq!(frame_error(None, "b", "c"), "{\"status\":b,\"detail\":c}");
    assert_eq!(frame_data_body("d", "m"), "{\"data\":d,\"meta\":m}");
    assert_eq!(frame_errors_body(&vec![], "m"), "{\"errors\":[],\"meta\":m}");
    assert_eq!(frame_errors_body(&vec![text("x")], "m"), "{\"errors\":[x],\"meta\":m}");
    assert_eq!(
        frame_errors_body(&vec![text("x"), text("y"), text("z")], "m"),
        "{\"errors\":[x,y,z],\"meta\":m}"
    );
}
