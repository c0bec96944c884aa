//! Routing: which operation a request is for, what its path parameter says,
//! and what the service does with it.
use vstd::prelude::*;
use vstd::utf8::{decode_utf8, encode_utf8, valid_utf8};

use crate::models::{opt_view, HttpMethod};
use crate::outside::{
    is_user_detail_path, percent_decode_utf8, percent_decoded, regex_capture_named,
    regex_set_matched, str_views, user_id_pattern, user_id_segment, users_path, users_pattern,
};
use crate::response::{bad_request, method_not_allowed, not_found, plan, BodyView, PlanView, ResponsePlan};

verus! {

/// The path patterns in the order the router tries them: the user list at
/// index 0, a single user at index 1.
pub open spec fn path_patterns() -> Seq<Seq<char>> {
    seq![users_pattern(), user_id_pattern()]
}

/// Which of the two path patterns match `path`: `(list, detail)`.
pub open spec fn path_matches(path: Seq<char>) -> (bool, bool) {
    (path == users_path(), is_user_detail_path(path))
}

/// Matches `path` against the two path patterns.
pub fn match_path(path: &str) -> (res: (bool, bool))
    ensures
        res == path_matches(path@),
{
    let patterns: Vec<&str> = vec!["^/v1/users$", "^/v1/users/(?P<user_id>[^/?#]*)$"];
    assert(str_views(patterns@) =~= path_patterns());
    let users = regex_set_matched(&patterns, path, 0);
    let user_id = regex_set_matched(&patterns, path, 1);
    match (users, user_id) {
        (Some(users), Some(user_id)) => (users, user_id),
        _ => (false, false),
    }
}

/// The two operations of the API.
#[derive(PartialEq, Eq, Structural, Clone, Copy, Debug)]
pub enum Endpoint {
    /// `GET /v1/users/{user_id}`: one user.
    UsersByIdV1Get,
    /// `GET /v1/users`: all users.
    UsersV1Get,
}

/// Where a request goes, given which path patterns match it.
#[derive(PartialEq, Eq, Structural, Clone, Copy, Debug)]
pub enum RouteSelection {
    Operation(Endpoint),
    MethodNotAllowed,
    NotFound,
}

/// Routing by method and matched path: a `GET` goes to the operation whose
/// path it matches, the detail path first; another method on a served path
/// is not allowed; any other path is not found.
pub open spec fn route_selection(method: HttpMethod, users: bool, user_id: bool) -> RouteSelection {
    if method == HttpMethod::Get && user_id {
        RouteSelection::Operation(Endpoint::UsersByIdV1Get)
    } else if method == HttpMethod::Get && users {
        RouteSelection::Operation(Endpoint::UsersV1Get)
    } else if users || user_id {
        RouteSelection::MethodNotAllowed
    } else {
        RouteSelection::NotFound
    }
}

/// Chooses where a request goes from its method and the path patterns it
/// matches (`users` for the list path, `user_id` for the detail path).
pub fn select_route(method: HttpMethod, users: bool, user_id: bool) -> (res: RouteSelection)
    ensures
        res == route_selection(method, users, user_id),
{
    if method == HttpMethod::Get && user_id {
        RouteSelection::Operation(Endpoint::UsersByIdV1Get)
    } else if method == HttpMethod::Get && users {
        RouteSelection::Operation(Endpoint::UsersV1Get)
    } else if users || user_id {
        RouteSelection::MethodNotAllowed
    } else {
        RouteSelection::NotFound
    }
}

/// The operation id that names an endpoint.
pub open spec fn endpoint_name(endpoint: Endpoint) -> Seq<char> {
    match endpoint {
        Endpoint::UsersByIdV1Get => "UsersByIdV1Get"@,
        Endpoint::UsersV1Get => "UsersV1Get"@,
    }
}

/// The operation id reported for a request: that of the endpoint a `GET`
/// reaches, and none otherwise.
pub open spec fn operation_id(method: HttpMethod, users: bool, user_id: bool) -> Option<Seq<char>> {
    if method == HttpMethod::Get && user_id {
        Some("UsersByIdV1Get"@)
    } else if method == HttpMethod::Get && users {
        Some("UsersV1Get"@)
    } else {
        None
    }
}

/// The view of an optional static string.
pub open spec fn opt_str_view(s: Option<&'static str>) -> Option<Seq<char>> {
    match s {
        Some(v) => Some(v@),
        None => None,
    }
}

/// The operation id reported for a request with this method and path.
pub open spec fn operation_id_of_path(method: HttpMethod, path: Seq<char>) -> Option<Seq<char>> {
    operation_id(method, path_matches(path).0, path_matches(path).1)
}

/// Tells which operation a request is for, without running it.
pub struct ApiRequestParser;

impl ApiRequestParser {
    /// The operation id for a request with this method whose path matches
    /// the list path (`users`) or the detail path (`user_id`).
    pub fn operation_id_for(method: HttpMethod, users: bool, user_id: bool) -> (res: Option<&'static str>)
        ensures
            opt_str_view(res) == operation_id(method, users, user_id),
    {
        if method == HttpMethod::Get && user_id {
            Some("UsersByIdV1Get")
        } else if method == HttpMethod::Get && users {
            Some("UsersV1Get")
        } else {
            None
        }
    }

    /// The operation id for a request with this method and path:
    /// `"UsersByIdV1Get"` or `"UsersV1Get"` for a `GET` on their paths, `None`
    /// for anything else.
    pub fn parse_operation_id(method: HttpMethod, path: &str) -> (res: Option<&'static str>)
        ensures
            opt_str_view(res) == operation_id_of_path(method, path@),
    {
        let (users, user_id) = match_path(path);
        Self::operation_id_for(method, users, user_id)
    }
}

/// The text that opens the explanation of an unreadable path parameter.
pub open spec fn undecodable_prefix() -> Seq<char> {
    "Couldn't percent-decode path parameter as UTF-8: "@
}

/// The user id that a raw path segment stands for: its UTF-8 bytes,
/// percent-decoded and read back as UTF-8; or, when the decoded bytes are not
/// UTF-8, the explanation to send back.
pub open spec fn decoded_user_id(raw: Seq<char>) -> Result<Seq<char>, Seq<char>> {
    let bytes = percent_decoded(encode_utf8(raw));
    if valid_utf8(bytes) {
        Ok(decode_utf8(bytes))
    } else {
        Err(undecodable_prefix() + raw)
    }
}

/// Reads the user id out of the raw path segment that the detail path
/// captured.
pub fn user_id_param(raw: &str) -> (res: Result<String, String>)
    ensures
        match res {
            Ok(id) => decoded_user_id(raw@) == Ok::<Seq<char>, Seq<char>>(id@),
            Err(message) => decoded_user_id(raw@) == Err::<Seq<char>, Seq<char>>(message@),
        },
{
    match percent_decode_utf8(raw.as_bytes()) {
        Some(id) => Ok(id),
        None => {
            let mut message = "Couldn't percent-decode path parameter as UTF-8: ".to_owned();
            message.append(raw);
            Err(message)
        },
    }
}

/// Why a request could not be routed at all.
#[derive(PartialEq, Eq, Structural, Clone, Copy, Debug)]
pub enum RouteFault {
    /// The path patterns did not compile.
    PatternsUnusable,
    /// The detail path matched, but the user id could not be captured.
    UserIdNotCaptured,
}

/// What the service does with a request.
#[derive(Debug, PartialEq)]
pub enum RouteAction {
    /// Run the user-detail operation for this user id.
    CallUsersByIdV1Get(String),
    /// Run the user-list operation.
    CallUsersV1Get,
    /// Answer at once with this response.
    Reply(ResponsePlan),
    /// Stop: the request cannot be routed.
    Fault(RouteFault),
}

/// The abstract value of a `RouteAction`.
pub enum RouteActionView {
    CallUsersByIdV1Get(Seq<char>),
    CallUsersV1Get,
    Reply(PlanView),
    Fault(RouteFault),
}

impl View for RouteAction {
    type V = RouteActionView;

    open spec fn view(&self) -> RouteActionView {
        match self {
            RouteAction::CallUsersByIdV1Get(id) => RouteActionView::CallUsersByIdV1Get(id@),
            RouteAction::CallUsersV1Get => RouteActionView::CallUsersV1Get,
            RouteAction::Reply(p) => RouteActionView::Reply(p@),
            RouteAction::Fault(f) => RouteActionView::Fault(*f),
        }
    }
}

/// What the service does, given the method, which path patterns matched (if
/// they compiled) and the raw user id captured from the path (if any).
pub open spec fn dispatch_action(
    method: HttpMethod,
    matches: Option<(bool, bool)>,
    captured: Option<Seq<char>>,
) -> RouteActionView {
    match matches {
        None => RouteActionView::Fault(RouteFault::PatternsUnusable),
        Some((users, user_id)) => match route_selection(method, users, user_id) {
            RouteSelection::Operation(Endpoint::UsersByIdV1Get) => match captured {
                None => RouteActionView::Fault(RouteFault::UserIdNotCaptured),
                Some(raw) => match decoded_user_id(raw) {
                    Ok(id) => RouteActionView::CallUsersByIdV1Get(id),
                    Err(message) => RouteActionView::Reply(
                        plan(400, None, false, BodyView::Text(message)),
                    ),
                },
            },
            RouteSelection::Operation(Endpoint::UsersV1Get) => RouteActionView::CallUsersV1Get,
            RouteSelection::MethodNotAllowed => RouteActionView::Reply(
                plan(405, None, false, BodyView::Empty),
            ),
            RouteSelection::NotFound => RouteActionView::Reply(plan(404, None, false, BodyView::Empty)),
        },
    }
}

/// Decides what the service does with a request, from its method, the path
/// patterns it matched and the raw user id captured from its path.
pub fn dispatch(method: HttpMethod, matches: Option<(bool, bool)>, captured: Option<String>) -> (res: RouteAction)
    ensures
        res@ == dispatch_action(method, matches, opt_view(captured)),
{
    match matches {
        None => RouteAction::Fault(RouteFault::PatternsUnusable),
        Some((users, user_id)) => match select_route(method, users, user_id) {
            RouteSelection::Operation(Endpoint::UsersByIdV1Get) => match captured {
                None => RouteAction::Fault(RouteFault::UserIdNotCaptured),
                Some(raw) => match user_id_param(raw.as_str()) {
                    Ok(id) => RouteAction::CallUsersByIdV1Get(id),
                    Err(message) => RouteAction::Reply(bad_request(message)),
                },
            },
            RouteSelection::Operation(Endpoint::UsersV1Get) => RouteAction::CallUsersV1Get,
            RouteSelection::MethodNotAllowed => RouteAction::Reply(method_not_allowed()),
            RouteSelection::NotFound => RouteAction::Reply(not_found()),
        },
    }
}

/// Whether routing needs the user id captured from the path: only when the
/// request goes to the user-detail operation.
pub open spec fn needs_user_id(method: HttpMethod, matches: Option<(bool, bool)>) -> bool {
    match matches {
        Some((users, user_id)) => route_selection(method, users, user_id) == RouteSelection::Operation(
            Endpoint::UsersByIdV1Get,
        ),
        None => false,
    }
}

/// What the service does with a request with this method and path: the
/// user id, when the detail operation is reached, is the path's last segment.
pub open spec fn route_action(method: HttpMethod, path: Seq<char>) -> RouteActionView {
    let matches = Some(path_matches(path));
    let captured = if needs_user_id(method, matches) {
        Some(user_id_segment(path))
    } else {
        None
    };
    dispatch_action(method, matches, captured)
}

/// Routes a request: matches its path, captures the user id when the
/// user-detail operation is reached, and decides what to do.
pub fn route_request(method: HttpMethod, path: &str) -> (res: RouteAction)
    ensures
        res@ == route_action(method, path@),
{
    let (users, user_id) = match_path(path);
    let captured = if select_route(method, users, user_id) == RouteSelection::Operation(
        Endpoint::UsersByIdV1Get,
    ) {
        regex_capture_named("^/v1/users/(?P<user_id>[^/?#]*)$", path, "user_id")
    } else {
        None
    };
    dispatch(method, Some((users, user_id)), captured)
}

} // verus!
