//! What the service answers: each outcome of routing or of an API operation
//! becomes a `ResponsePlan`, which says the status, the content type, whether
//! the request's span id is echoed, and the body.
use vstd::prelude::*;

use crate::models::{opt_view, users_view, UserView, UsersByIdV1GetResponse, UsersV1Get200ResponseInner, UsersV1GetResponse};
use crate::outside::{json_string, json_to_string};

verus! {

/// The body of a response. `User` and `Users` are sent as the JSON form of
/// the records they hold.
#[derive(Debug, PartialEq)]
pub enum ResponseBody {
    Empty,
    Text(String),
    User(UsersV1Get200ResponseInner),
    Users(Vec<UsersV1Get200ResponseInner>),
}

/// The abstract value of a response body.
pub enum BodyView {
    Empty,
    Text(Seq<char>),
    User(UserView),
    Users(Seq<UserView>),
}

impl View for ResponseBody {
    type V = BodyView;

    open spec fn view(&self) -> BodyView {
        match self {
            ResponseBody::Empty => BodyView::Empty,
            ResponseBody::Text(s) => BodyView::Text(s@),
            ResponseBody::User(u) => BodyView::User(u@),
            ResponseBody::Users(us) => BodyView::Users(users_view(us@)),
        }
    }
}

/// A response to send: its status code, its `Content-Type` header if it has
/// one, whether it carries the request's `X-Span-ID` header, and its body.
#[derive(Debug, PartialEq)]
pub struct ResponsePlan {
    pub status: u16,
    pub content_type: Option<String>,
    pub x_span_id: bool,
    pub body: ResponseBody,
}

/// The abstract value of a response.
pub struct PlanView {
    pub status: u16,
    pub content_type: Option<Seq<char>>,
    pub x_span_id: bool,
    pub body: BodyView,
}

impl View for ResponsePlan {
    type V = PlanView;

    open spec fn view(&self) -> PlanView {
        PlanView {
            status: self.status,
            content_type: opt_view(self.content_type),
            x_span_id: self.x_span_id,
            body: self.body@,
        }
    }
}

/// A response value, written out.
pub open spec fn plan(
    status: u16,
    content_type: Option<Seq<char>>,
    x_span_id: bool,
    body: BodyView,
) -> PlanView {
    PlanView { status, content_type, x_span_id, body }
}

/// The content type of a successful answer.
pub open spec fn json_content_type() -> Seq<char> {
    "application/json"@
}

/// The content type that the API's failure answers declare, spelled as the
/// API documents it.
pub open spec fn failure_content_type() -> Seq<char> {
    "applicatoin/json"@
}

/// The body sent when the user-detail operation itself fails.
pub open spec fn internal_error_text() -> Seq<char> {
    "An internal error occurred"@
}

/// The text that, written as a JSON string, is the body sent when the
/// user-list operation itself fails.
pub open spec fn list_failure_text() -> Seq<char> {
    "{'msg': 'Success!!!!'}"@
}

/// The answer to a request whose path is known but whose method is not
/// served there: status 405, no headers, no body.
pub fn method_not_allowed() -> (res: ResponsePlan)
    ensures
        res@ == plan(405, None, false, BodyView::Empty),
{
    ResponsePlan { status: 405, content_type: None, x_span_id: false, body: ResponseBody::Empty }
}

/// The answer to a request whose path is not served at all: status 404, no
/// headers, no body.
pub fn not_found() -> (res: ResponsePlan)
    ensures
        res@ == plan(404, None, false, BodyView::Empty),
{
    ResponsePlan { status: 404, content_type: None, x_span_id: false, body: ResponseBody::Empty }
}

/// The answer to a request whose path parameter cannot be read: status 400
/// with the explanation as its body.
pub fn bad_request(message: String) -> (res: ResponsePlan)
    ensures
        res@ == plan(400, None, false, BodyView::Text(message@)),
{
    ResponsePlan {
        status: 400,
        content_type: None,
        x_span_id: false,
        body: ResponseBody::Text(message),
    }
}

/// The response for what the user-detail operation returned.
pub open spec fn users_by_id_v1_get_plan<E>(result: Result<UsersByIdV1GetResponse, E>) -> PlanView {
    match result {
        Ok(UsersByIdV1GetResponse::Status200(user)) => plan(
            200,
            Some(json_content_type()),
            true,
            BodyView::User(user@),
        ),
        Ok(UsersByIdV1GetResponse::Status404(text)) => plan(
            404,
            Some(failure_content_type()),
            true,
            BodyView::Text(text@),
        ),
        Ok(UsersByIdV1GetResponse::Status500(text)) => plan(
            500,
            Some(failure_content_type()),
            true,
            BodyView::Text(text@),
        ),
        Err(_) => plan(500, None, true, BodyView::Text(internal_error_text())),
    }
}

/// The response for what the user-list operation returned.
pub open spec fn users_v1_get_plan<E>(result: Result<UsersV1GetResponse, E>) -> PlanView {
    match result {
        Ok(UsersV1GetResponse::Status200(users)) => plan(
            200,
            Some(json_content_type()),
            true,
            BodyView::Users(users_view(users@)),
        ),
        Ok(UsersV1GetResponse::Status500(text)) => plan(
            500,
            Some(failure_content_type()),
            true,
            BodyView::Text(text@),
        ),
        Err(_) => plan(500, None, true, BodyView::Text(json_string(list_failure_text()))),
    }
}

/// Turns the outcome of the user-detail operation into the response: the
/// record as JSON with status 200, the text of a 404 or 500 answer with that
/// status, and status 500 with a fixed message when the operation failed.
pub fn users_by_id_v1_get_response<E>(result: Result<UsersByIdV1GetResponse, E>) -> (res: ResponsePlan)
    ensures
        res@ == users_by_id_v1_get_plan(result),
{
    match result {
        Ok(UsersByIdV1GetResponse::Status200(user)) => ResponsePlan {
            status: 200,
            content_type: Some("application/json".to_owned()),
            x_span_id: true,
            body: ResponseBody::User(user),
        },
        Ok(UsersByIdV1GetResponse::Status404(text)) => ResponsePlan {
            status: 404,
            content_type: Some("applicatoin/json".to_owned()),
            x_span_id: true,
            body: ResponseBody::Text(text),
        },
        Ok(UsersByIdV1GetResponse::Status500(text)) => ResponsePlan {
            status: 500,
            content_type: Some("applicatoin/json".to_owned()),
            x_span_id: true,
            body: ResponseBody::Text(text),
        },
        Err(_) => ResponsePlan {
            status: 500,
            content_type: None,
            x_span_id: true,
            body: ResponseBody::Text("An internal error occurred".to_owned()),
        },
    }
}

/// Turns the outcome of the user-list operation into the response: the
/// records as JSON with status 200, the text of a 500 answer with that
/// status, and status 500 with a fixed JSON string when the operation failed.
pub fn users_v1_get_response<E>(result: Result<UsersV1GetResponse, E>) -> (res: ResponsePlan)
    ensures
        res@ == users_v1_get_plan(result),
{
    match result {
        Ok(UsersV1GetResponse::Status200(users)) => ResponsePlan {
            status: 200,
            content_type: Some("application/json".to_owned()),
            x_span_id: true,
            body: ResponseBody::Users(users),
        },
        Ok(UsersV1GetResponse::Status500(text)) => ResponsePlan {
            status: 500,
            content_type: Some("applicatoin/json".to_owned()),
            x_span_id: true,
            body: ResponseBody::Text(text),
        },
        Err(_) => {
            let text = match json_to_string("{'msg': 'Success!!!!'}") {
                Ok(text) => text,
                Err(_) => String::new(),
            };
            ResponsePlan {
                status: 500,
                content_type: None,
                x_span_id: true,
                body: ResponseBody::Text(text),
            }
        },
    }
}

} // verus!
