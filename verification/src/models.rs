//! The values the API exchanges: a user record, the two operations' responses
//! and the HTTP method of a request.
use vstd::prelude::*;

verus! {

/// A user record, as the API returns it.
#[derive(Debug, PartialEq)]
pub struct UsersV1Get200ResponseInner {
    pub id: Option<String>,
    pub name: Option<String>,
}

/// The abstract value of a user record.
pub struct UserView {
    pub id: Option<Seq<char>>,
    pub name: Option<Seq<char>>,
}

/// The view of an optional string.
pub open spec fn opt_view(s: Option<String>) -> Option<Seq<char>> {
    match s {
        Some(v) => Some(v@),
        None => None,
    }
}

impl View for UsersV1Get200ResponseInner {
    type V = UserView;

    open spec fn view(&self) -> UserView {
        UserView { id: opt_view(self.id), name: opt_view(self.name) }
    }
}

/// The views of a list of user records.
pub open spec fn users_view(users: Seq<UsersV1Get200ResponseInner>) -> Seq<UserView> {
    users.map_values(|u: UsersV1Get200ResponseInner| u@)
}

/// What the user-detail operation answers.
#[derive(Debug, PartialEq)]
#[must_use]
pub enum UsersByIdV1GetResponse {
    /// 成功
    Status200(UsersV1Get200ResponseInner),
    /// 失敗
    Status404(String),
    /// 失敗
    Status500(String),
}

/// What the user-list operation answers.
#[derive(Debug, PartialEq)]
#[must_use]
pub enum UsersV1GetResponse {
    /// 成功
    Status200(Vec<UsersV1Get200ResponseInner>),
    /// 失敗
    Status500(String),
}

/// The method of an HTTP request. Methods outside the standard set are `Other`.
#[derive(PartialEq, Eq, Structural, Clone, Copy, Debug)]
pub enum HttpMethod {
    Get,
    Head,
    Post,
    Put,
    Delete,
    Connect,
    Options,
    Trace,
    Patch,
    Other,
}

} // verus!
