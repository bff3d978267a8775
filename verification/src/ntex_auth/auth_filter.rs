//! The bearer-token filter: which requests pass, and how a request with a
//! bad token is answered.
use vstd::prelude::*;

use crate::common::biz_error::BizError;
use crate::common::biz_resp::RespData;
use crate::common::text::str_eq;

verus! {

broadcast use vstd::string::group_string_axioms;

/// The path of the login endpoint, which needs no token.
pub open spec fn login_path_text() -> Seq<char> {
    "/api/auth/token"@
}

/// The filter placed in front of the services.
pub struct JwtFilter;

/// The filter wrapped around a service.
pub struct JwtFilterMiddleware<S> {
    service: S,
}

/// What the filter does with a request.
pub enum FilterDecision {
    /// Passes the request on unchanged.
    Forward,
    /// Passes the request on with the authenticated user, as JSON text, in
    /// the user header.
    ForwardWithUser(String),
    /// Answers the request with the given response.
    Reject(RespData<()>),
}

impl JwtFilter {
    /// Wraps a service in the filter.
    pub fn create<S>(&self, service: S) -> (r: JwtFilterMiddleware<S>)
        ensures
            r.inner() == service,
    {
        JwtFilterMiddleware { service }
    }
}

impl<S> JwtFilterMiddleware<S> {
    /// The wrapped service.
    pub closed spec fn inner(&self) -> S {
        self.service
    }

    /// The wrapped service.
    pub fn service(&self) -> (r: &S)
        ensures
            *r == self.inner(),
    {
        &self.service
    }

    /// Whether a request to `path` passes without a token.
    pub fn skips_auth(&self, path: &str) -> (r: bool)
        ensures
            r == (path@ == login_path_text()),
    {
        str_eq(path, "/api/auth/token")
    }

    /// What happens to a request that needs a token, given the user the
    /// token names (as JSON text) or the error found in it.
    pub fn decide(&self, jwt_user: Result<String, BizError>) -> (r: FilterDecision)
        ensures
            match jwt_user {
                Ok(user) => r matches FilterDecision::ForwardWithUser(u) && u == user,
                Err(err) => r matches FilterDecision::Reject(resp) && resp.code@
                    == err.biz_code.code_text() && resp.msg@ == err.biz_code.reason_text()
                    && resp.data is None,
            },
    {
        match jwt_user {
            Ok(user) => FilterDecision::ForwardWithUser(user),
            Err(err) => FilterDecision::Reject(RespData::with_biz_code(err.biz_code)),
        }
    }

    /// The decision for a request to `path`: the login endpoint passes
    /// unchanged; any other request passes with its user or is refused.
    pub fn call(&self, path: &str, jwt_user: Result<String, BizError>) -> (r: FilterDecision)
        ensures
            path@ == login_path_text() ==> r is Forward,
            path@ != login_path_text() ==> match jwt_user {
                Ok(user) => r matches FilterDecision::ForwardWithUser(u) && u == user,
                Err(err) => r matches FilterDecision::Reject(resp) && resp.code@
                    == err.biz_code.code_text() && resp.msg@ == err.biz_code.reason_text()
                    && resp.data is None,
            },
    {
        if self.skips_auth(path) {
            return FilterDecision::Forward;
        }
        self.decide(jwt_user)
    }
}

} // verus!
