//! A small HTTP service for looking up users: `GET /v1/users` lists them and
//! `GET /v1/users/{user_id}` fetches one. The library decides how a request is
//! routed, decodes the path parameter, and turns each API outcome into the
//! response that is sent back.
use vstd::prelude::*;

pub mod models;
pub mod outside;
pub mod response;
pub mod routing;
pub mod laws;

pub use models::{HttpMethod, UsersByIdV1GetResponse, UsersV1Get200ResponseInner, UsersV1GetResponse};
pub use response::{ResponseBody, ResponsePlan};
pub use routing::{ApiRequestParser, RouteAction, RouteFault};

verus! {

/// The path that all the API's paths are relative to.
pub const BASE_PATH: &'static str = "";

/// The version of the API.
pub const API_VERSION: &'static str = "1.0";

} // verus!
