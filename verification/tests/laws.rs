use user_api::routing::{route_request, select_route, user_id_param, RouteSelection};
use user_api::{ApiRequestParser, HttpMethod, RouteAction};

const METHODS: [HttpMethod; 10] = [
    HttpMethod::Get,
    HttpMethod::Head,
    HttpMethod::Post,
    HttpMethod::Put,
    HttpMethod::Delete,
    HttpMethod::Connect,
    HttpMethod::Options,
    HttpMethod::Trace,
    HttpMethod::Patch,
    HttpMethod::Other,
];

#[test]
fn operation_id_agrees_with_route_on_samples() {
    let paths = ["/v1/users", "/v1/users/5", "/v1/users/%FF", "/x", "/v1/users/a/b"];
    for method in METHODS {
        for path in paths {
            let id = ApiRequestParser::parse_operation_id(method, path);
            match route_request(method, path) {
                RouteAction::CallUsersV1Get => assert_eq!(id, Some("UsersV1Get")),
                RouteAction::CallUsersByIdV1Get(_) => assert_eq!(id, Some("UsersByIdV1Get")),
                RouteAction::Reply(plan) if plan.status == 400 => assert_eq!(id, Some("UsersByIdV1Get")),
                RouteAction::Reply(plan) => {
                    assert!(plan.status == 404 || plan.status == 405);
                    assert_eq!(id, None);
                }
                RouteAction::Fault(f) => panic!("unexpected fault {:?}", f),
            }
        }
    }
}

#[test]
fn only_get_reaches_operations_on_samples() {
    for method in METHODS {
        for (users, user_id) in [(true, false), (false, true), (true, true), (false, false)] {
            if let RouteSelection::Operation(_) = select_route(method, users, user_id) {
                assert_eq!(method, HttpMethod::Get);
            }
        }
        assert_eq!(select_route(method, false, false), RouteSelection::NotFound);
    }
}

#[test]
fn plain_user_id_is_unchanged() {
    for raw in ["alice", "", "x-y_z.1", "日本", "a b"] {
        assert_eq!(user_id_param(raw), Ok(raw.to_string()));
    }
}

#[test]
fn escaped_user_id_decodes() {
    for id in ["alice", "%", "ü/é", "a%20b"] {
        let escaped: String = id.bytes().map(|b| format!("%{:02X}", b)).collect();
        assert_eq!(user_id_param(&escaped), Ok(id.to_string()));
    }
}

#[test]
fn span_id_echoed_only_for_operation_outcomes() {
    match route_request(HttpMethod::Get, "/nowhere") {
        RouteAction::Reply(plan) => assert!(!plan.x_span_id),
        other => panic!("unexpected {:?}", other),
    }
    let plan = user_api::response::users_v1_get_response::<()>(Err(()));
    assert!(plan.x_span_id);
}

#[test]
fn routing_never_faults_on_samples() {
    let paths = ["/v1/users", "/v1/users/5", "/v1/users/%FF", "/x", "/v1/users/a/b", "", "/v1/users/"];
    for method in METHODS {
        for path in paths {
            match route_request(method, path) {
                RouteAction::Fault(f) => panic!("fault {:?} on {}", f, path),
                RouteAction::Reply(plan) => {
                    assert!([400, 404, 405].contains(&plan.status));
                    assert_eq!(plan.content_type, None);
                    assert!(!plan.x_span_id);
                }
                _ => {}
            }
        }
    }
}

#[test]
fn routing_table_on_samples() {
    assert_eq!(route_request(HttpMethod::Get, "/v1/users"), RouteAction::CallUsersV1Get);
    assert_eq!(
        route_request(HttpMethod::Get, "/v1/users/bob"),
        RouteAction::CallUsersByIdV1Get("bob".to_string())
    );
    match route_request(HttpMethod::Put, "/v1/users/bob") {
        RouteAction::Reply(plan) => assert_eq!(plan.status, 405),
        other => panic!("unexpected {:?}", other),
    }
    match route_request(HttpMethod::Get, "/v1/users/bob/x") {
        RouteAction::Reply(plan) => assert_eq!(plan.status, 404),
        other => panic!("unexpected {:?}", other),
    }
}
