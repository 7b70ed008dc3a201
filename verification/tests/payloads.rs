use serde_json::Value;
use transient_files::action::Action;
use transient_files::handlers::{secure_service, vulnerable_service};
use transient_files::stage::{Outcome, Stage, Step};

/// The payload in a request body: the text of its `content` field.
fn payload(body: &str) -> Option<String> {
    let value: Value = serde_json::from_str(body).ok()?;
    value.as_object()?.get("content")?.as_str().map(|content| content.to_string())
}

#[test]
fn body_with_content_is_a_payload() {
    assert_eq!(payload("{\"content\":\"hello\"}"), Some("hello".to_string()));
    assert_eq!(
        secure_service(Stage::Received { payload: payload("{\"content\":\"hello\"}") }, Outcome::Succeeded),
        Step::Continue(Stage::Creating { content: "hello".to_string() }, Action::CreatePrivate)
    );
}

#[test]
fn body_without_content_is_rejected_before_any_file() {
    for body in ["{}", "{\"text\":\"hello\"}", "{\"content\":5}", "{\"content\":", "", "[]"] {
        assert_eq!(payload(body), None);
        for handler in [vulnerable_service as fn(Stage, Outcome) -> Step, secure_service] {
            match handler(Stage::Received { payload: payload(body) }, Outcome::Succeeded) {
                Step::Finish(response) => {
                    assert!(response.status >= 400 && response.status < 500);
                    assert_eq!(response.status, 400);
                }
                Step::Continue(_, action) => panic!("asked for {:?}", action),
            }
        }
    }
}
