use skinfixer::mineskin::{
    classify_skin_response, MineskinError, MineskinRequest, MineskinResponse, MineskinSkinData,
    MineskinTextureInfo, NAME_LENGTH,
};
use skinfixer::mojang::{classify_name_response, contains_text, name_request_body};
use skinfixer::outcome::UpstreamOutcome;

fn texture(value: &str, signature: &str) -> MineskinTextureInfo {
    MineskinTextureInfo { value: value.to_string(), signature: signature.to_string() }
}

fn envelope(code: Option<&str>, next_request: Option<i64>) -> MineskinError {
    MineskinError {
        error: "failed to generate".to_string(),
        error_code: code.map(|c| c.to_string()),
        next_request,
        delay: None,
    }
}

#[test]
fn payload_is_a_success() {
    let resp = MineskinResponse {
        data: Some(MineskinSkinData { texture: texture("V1", "S1") }),
        error: None,
    };
    assert_eq!(classify_skin_response(resp), UpstreamOutcome::Success(texture("V1", "S1")));
}

#[test]
fn error_code_is_a_rejection() {
    let resp = MineskinResponse { data: None, error: Some(envelope(Some("BadImage"), None)) };
    assert_eq!(classify_skin_response(resp), UpstreamOutcome::Rejected("BadImage".to_string()));
}

#[test]
fn error_code_wins_over_next_request() {
    let resp = MineskinResponse { data: None, error: Some(envelope(Some("BadImage"), Some(5))) };
    assert_eq!(classify_skin_response(resp), UpstreamOutcome::Rejected("BadImage".to_string()));
}

#[test]
fn next_request_is_rate_limiting() {
    let resp = MineskinResponse { data: None, error: Some(envelope(None, Some(12345))) };
    assert_eq!(classify_skin_response(resp), UpstreamOutcome::RateLimited);
}

#[test]
fn bare_error_envelope_is_a_server_error() {
    let resp = MineskinResponse {
        data: Some(MineskinSkinData { texture: texture("V", "S") }),
        error: Some(envelope(None, None)),
    };
    assert_eq!(classify_skin_response(resp), UpstreamOutcome::ServerError);
}

#[test]
fn empty_generation_response_is_a_server_error() {
    let resp = MineskinResponse { data: None, error: None };
    assert_eq!(classify_skin_response(resp), UpstreamOutcome::ServerError);
}

fn assert_request_name(name: &str) {
    assert_eq!(name.chars().count(), NAME_LENGTH);
    assert!(name.chars().all(|c| c.is_ascii_alphanumeric()));
}

#[test]
fn request_by_uuid_carries_uuid_and_random_name() {
    let req = MineskinRequest::from_uuid("abc-123");
    assert_eq!(req.uuid.as_deref(), Some("abc-123"));
    assert_eq!(req.url, None);
    assert_eq!(req.visibility, 0);
    assert_request_name(&req.name);
}

#[test]
fn request_by_url_carries_url_and_random_name() {
    let req = MineskinRequest::from_url("https://example.com/skin.png");
    assert_eq!(req.uuid, None);
    assert_eq!(req.url.as_deref(), Some("https://example.com/skin.png"));
    assert_eq!(req.visibility, 0);
    assert_request_name(&req.name);
    let other = MineskinRequest::from_url("https://example.com/skin.png");
    assert_request_name(&other.name);
}

#[test]
fn name_lookup_body_is_a_one_element_array() {
    assert_eq!(name_request_body("Notch"), "[\"Notch\"]");
    assert_eq!(name_request_body(""), "[\"\"]");
}

#[test]
fn name_lookup_first_identifier_wins() {
    let ids = vec!["069a79f444e94726a5befca90e38aaf5".to_string(), "other".to_string()];
    assert_eq!(
        classify_name_response("[{\"id\":\"069a79f444e94726a5befca90e38aaf5\"}]", Some(ids)),
        UpstreamOutcome::Success("069a79f444e94726a5befca90e38aaf5".to_string())
    );
}

#[test]
fn name_lookup_empty_list_is_not_found() {
    assert_eq!(classify_name_response("[]", Some(Vec::new())), UpstreamOutcome::NotFound);
}

#[test]
fn name_lookup_error_body_is_rate_limiting() {
    let body = "{\"error\":\"TooManyRequestsException\"}";
    assert_eq!(classify_name_response(body, None), UpstreamOutcome::RateLimited);
    assert_eq!(classify_name_response("xxerrorxx", Some(Vec::new())), UpstreamOutcome::RateLimited);
}

#[test]
fn name_lookup_unparsable_body_is_a_server_error() {
    assert_eq!(classify_name_response("<html>", None), UpstreamOutcome::ServerError);
}

#[test]
fn substring_search_finds_runs_of_characters() {
    assert!(contains_text("{\"error\":1}", "error"));
    assert!(contains_text("error", "error"));
    assert!(!contains_text("erro", "error"));
    assert!(!contains_text("eXrror", "error"));
    assert!(contains_text("äöerrorü", "error"));
    assert!(contains_text("abc", ""));
    assert!(contains_text("", ""));
    assert!(!contains_text("", "a"));
}
