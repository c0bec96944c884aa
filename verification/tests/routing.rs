use user_api::routing::{
    dispatch, match_path, route_request, select_route, user_id_param, Endpoint, RouteSelection,
};
use user_api::{ApiRequestParser, HttpMethod, ResponseBody, RouteAction, RouteFault};

fn reply_status(action: &RouteAction) -> Option<u16> {
    match action {
        RouteAction::Reply(plan) => Some(plan.status),
        _ => None,
    }
}

#[test]
fn get_users_list_calls_list_operation() {
    assert_eq!(route_request(HttpMethod::Get, "/v1/users"), RouteAction::CallUsersV1Get);
}

#[test]
fn get_user_detail_calls_detail_operation() {
    assert_eq!(
        route_request(HttpMethod::Get, "/v1/users/42"),
        RouteAction::CallUsersByIdV1Get("42".to_string())
    );
}

#[test]
fn empty_user_id_still_reaches_detail_operation() {
    assert_eq!(
        route_request(HttpMethod::Get, "/v1/users/"),
        RouteAction::CallUsersByIdV1Get(String::new())
    );
}

#[test]
fn user_id_is_percent_decoded() {
    assert_eq!(
        route_request(HttpMethod::Get, "/v1/users/a%20b%2fc"),
        RouteAction::CallUsersByIdV1Get("a b/c".to_string())
    );
}

#[test]
fn user_id_utf8_escapes_decode_to_characters() {
    assert_eq!(
        route_request(HttpMethod::Get, "/v1/users/%E3%81%82"),
        RouteAction::CallUsersByIdV1Get("あ".to_string())
    );
}

#[test]
fn percent_without_two_digits_is_kept() {
    assert_eq!(
        route_request(HttpMethod::Get, "/v1/users/100%"),
        RouteAction::CallUsersByIdV1Get("100%".to_string())
    );
    assert_eq!(
        route_request(HttpMethod::Get, "/v1/users/%zz"),
        RouteAction::CallUsersByIdV1Get("%zz".to_string())
    );
}

#[test]
fn undecodable_user_id_is_bad_request() {
    let action = route_request(HttpMethod::Get, "/v1/users/%FF");
    match action {
        RouteAction::Reply(plan) => {
            assert_eq!(plan.status, 400);
            assert_eq!(plan.content_type, None);
            assert!(!plan.x_span_id);
            assert_eq!(
                plan.body,
                ResponseBody::Text(
                    "Couldn't percent-decode path parameter as UTF-8: %FF".to_string()
                )
            );
        }
        other => panic!("unexpected action {:?}", other),
    }
}

#[test]
fn other_methods_on_served_paths_are_not_allowed() {
    for method in [HttpMethod::Post, HttpMethod::Put, HttpMethod::Delete, HttpMethod::Head, HttpMethod::Other] {
        assert_eq!(reply_status(&route_request(method, "/v1/users")), Some(405));
        assert_eq!(reply_status(&route_request(method, "/v1/users/7")), Some(405));
    }
}

#[test]
fn method_not_allowed_has_no_headers_or_body() {
    match route_request(HttpMethod::Post, "/v1/users") {
        RouteAction::Reply(plan) => {
            assert_eq!(plan.content_type, None);
            assert!(!plan.x_span_id);
            assert_eq!(plan.body, ResponseBody::Empty);
        }
        other => panic!("unexpected action {:?}", other),
    }
}

#[test]
fn unknown_paths_are_not_found() {
    for path in ["/", "/v1", "/v1/users/1/2", "/v1/users?x=1", "/v2/users", "/v1/userss", ""] {
        assert_eq!(reply_status(&route_request(HttpMethod::Get, path)), Some(404), "{}", path);
        assert_eq!(reply_status(&route_request(HttpMethod::Post, path)), Some(404), "{}", path);
    }
}

#[test]
fn path_matching_reports_each_pattern() {
    assert_eq!(match_path("/v1/users"), (true, false));
    assert_eq!(match_path("/v1/users/abc"), (false, true));
    assert_eq!(match_path("/v1/users/"), (false, true));
    assert_eq!(match_path("/v1/users/a#b"), (false, false));
    assert_eq!(match_path("/v1/users/a?b"), (false, false));
    assert_eq!(match_path("/v1/users\n"), (false, false));
    assert_eq!(match_path("/v1/users/a\nb"), (false, true));
    assert_eq!(match_path("/elsewhere"), (false, false));
}

#[test]
fn route_selection_table() {
    assert_eq!(select_route(HttpMethod::Get, false, true), RouteSelection::Operation(Endpoint::UsersByIdV1Get));
    assert_eq!(select_route(HttpMethod::Get, true, false), RouteSelection::Operation(Endpoint::UsersV1Get));
    assert_eq!(select_route(HttpMethod::Get, true, true), RouteSelection::Operation(Endpoint::UsersByIdV1Get));
    assert_eq!(select_route(HttpMethod::Patch, true, false), RouteSelection::MethodNotAllowed);
    assert_eq!(select_route(HttpMethod::Get, false, false), RouteSelection::NotFound);
}

#[test]
fn dispatch_reports_faults() {
    assert_eq!(
        dispatch(HttpMethod::Get, None, None),
        RouteAction::Fault(RouteFault::PatternsUnusable)
    );
    assert_eq!(
        dispatch(HttpMethod::Get, Some((false, true)), None),
        RouteAction::Fault(RouteFault::UserIdNotCaptured)
    );
    assert_eq!(
        dispatch(HttpMethod::Get, Some((false, true)), Some("x%41".to_string())),
        RouteAction::CallUsersByIdV1Get("xA".to_string())
    );
    assert_eq!(dispatch(HttpMethod::Get, Some((true, false)), None), RouteAction::CallUsersV1Get);
}

#[test]
fn user_id_param_decodes_and_refuses() {
    assert_eq!(user_id_param("plain"), Ok("plain".to_string()));
    assert_eq!(user_id_param("%41%62"), Ok("Ab".to_string()));
    assert_eq!(
        user_id_param("%C3%28"),
        Err("Couldn't percent-decode path parameter as UTF-8: %C3%28".to_string())
    );
}

#[test]
fn operation_ids_of_requests() {
    assert_eq!(ApiRequestParser::parse_operation_id(HttpMethod::Get, "/v1/users/9"), Some("UsersByIdV1Get"));
    assert_eq!(ApiRequestParser::parse_operation_id(HttpMethod::Get, "/v1/users"), Some("UsersV1Get"));
    assert_eq!(ApiRequestParser::parse_operation_id(HttpMethod::Post, "/v1/users"), None);
    assert_eq!(ApiRequestParser::parse_operation_id(HttpMethod::Get, "/nowhere"), None);
    assert_eq!(ApiRequestParser::operation_id_for(HttpMethod::Get, true, false), Some("UsersV1Get"));
    assert_eq!(ApiRequestParser::operation_id_for(HttpMethod::Delete, true, true), None);
}
