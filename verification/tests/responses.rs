use user_api::response::{bad_request, method_not_allowed, not_found, users_by_id_v1_get_response, users_v1_get_response};
use user_api::{ResponseBody, UsersByIdV1GetResponse, UsersV1Get200ResponseInner, UsersV1GetResponse};

fn user(id: &str) -> UsersV1Get200ResponseInner {
    UsersV1Get200ResponseInner { id: Some(id.to_string()), name: None }
}

#[test]
fn detail_success_is_json_200() {
    let plan = users_by_id_v1_get_response::<()>(Ok(UsersByIdV1GetResponse::Status200(user("1"))));
    assert_eq!(plan.status, 200);
    assert_eq!(plan.content_type.as_deref(), Some("application/json"));
    assert!(plan.x_span_id);
    assert_eq!(plan.body, ResponseBody::User(user("1")));
}

#[test]
fn detail_not_found_passes_text() {
    let plan = users_by_id_v1_get_response::<()>(Ok(UsersByIdV1GetResponse::Status404("no such user".to_string())));
    assert_eq!(plan.status, 404);
    assert_eq!(plan.content_type.as_deref(), Some("applicatoin/json"));
    assert!(plan.x_span_id);
    assert_eq!(plan.body, ResponseBody::Text("no such user".to_string()));
}

#[test]
fn detail_server_error_passes_text() {
    let plan = users_by_id_v1_get_response::<()>(Ok(UsersByIdV1GetResponse::Status500("boom".to_string())));
    assert_eq!(plan.status, 500);
    assert_eq!(plan.content_type.as_deref(), Some("applicatoin/json"));
    assert_eq!(plan.body, ResponseBody::Text("boom".to_string()));
}

#[test]
fn detail_failure_is_internal_error() {
    let plan = users_by_id_v1_get_response::<String>(Err("down".to_string()));
    assert_eq!(plan.status, 500);
    assert_eq!(plan.content_type, None);
    assert!(plan.x_span_id);
    assert_eq!(plan.body, ResponseBody::Text("An internal error occurred".to_string()));
}

#[test]
fn list_success_is_json_200() {
    let plan = users_v1_get_response::<()>(Ok(UsersV1GetResponse::Status200(vec![user("1"), user("2")])));
    assert_eq!(plan.status, 200);
    assert_eq!(plan.content_type.as_deref(), Some("application/json"));
    assert!(plan.x_span_id);
    assert_eq!(plan.body, ResponseBody::Users(vec![user("1"), user("2")]));
}

#[test]
fn list_server_error_passes_text() {
    let plan = users_v1_get_response::<()>(Ok(UsersV1GetResponse::Status500("later".to_string())));
    assert_eq!(plan.status, 500);
    assert_eq!(plan.content_type.as_deref(), Some("applicatoin/json"));
    assert_eq!(plan.body, ResponseBody::Text("later".to_string()));
}

#[test]
fn list_failure_body_is_json_string() {
    let plan = users_v1_get_response::<()>(Err(()));
    assert_eq!(plan.status, 500);
    assert_eq!(plan.content_type, None);
    assert!(plan.x_span_id);
    assert_eq!(plan.body, ResponseBody::Text("\"{'msg': 'Success!!!!'}\"".to_string()));
}

#[test]
fn fixed_answers() {
    let p = method_not_allowed();
    assert_eq!((p.status, p.content_type, p.x_span_id, p.body), (405, None, false, ResponseBody::Empty));
    let p = not_found();
    assert_eq!((p.status, p.content_type, p.x_span_id, p.body), (404, None, false, ResponseBody::Empty));
    let p = bad_request("why".to_string());
    assert_eq!((p.status, p.content_type, p.x_span_id), (400, None, false));
    assert_eq!(p.body, ResponseBody::Text("why".to_string()));
}

#[test]
fn constants() {
    assert_eq!(user_api::BASE_PATH, "");
    assert_eq!(user_api::API_VERSION, "1.0");
}
