//! What a request is entitled to, once its capability has been verified.

use vstd::prelude::*;
use crate::signed_url::service::{
    authorized, str_text, AvailableActions, ClaimsView, Fault, SignedUrlError, SignedUrlServiceImpl,
};
use crate::signer::Signer;
use crate::utils::Time;

verus! {

/// What a verified capability entitles a request to: one action on the
/// object `path.1` of the destination `path.0`.
#[derive(Debug)]
pub struct Claims {
    pub action: AvailableActions,
    pub path: (String, String),
}

impl View for Claims {
    type V = ClaimsView;

    open spec fn view(&self) -> ClaimsView {
        ClaimsView { action: self.action, path: (self.path.0@, self.path.1@) }
    }
}

impl Clone for Claims {
    fn clone(&self) -> (r: Self)
        ensures
            r@ == self@,
    {
        Claims { action: self.action, path: (self.path.0.clone(), self.path.1.clone()) }
    }
}

/// A request whose capability has been verified, with what it is
/// entitled to.
#[derive(Debug)]
pub struct SignedUrl(pub Claims);

/// The outcome of verifying a request, as text.
pub open spec fn request_outcome(r: Result<SignedUrl, SignedUrlError>) -> Result<ClaimsView, Fault> {
    match r {
        Ok(s) => Ok(s.0@),
        Err(e) => Err(e@),
    }
}

impl SignedUrl {
    /// Verifies the capability of a request before anything else looks at
    /// it: the request's path and query must present a capability that
    /// `service` honours for the request's own HTTP method.
    pub fn from_request_parts<S, T>(
        service: &SignedUrlServiceImpl<S, T>,
        method: &str,
        path: &str,
        query: Option<&str>,
    ) -> (r: Result<Self, SignedUrlError>) where S: Signer, T: Time
        ensures
            exists|now: i64|
                request_outcome(r) == #[trigger] authorized(
                    service.signer(),
                    service.base(),
                    now as int,
                    path@,
                    str_text(query),
                    Some(method@),
                ),
    {
        match service.verify_parts(path, query, Some(method)) {
            Ok(claims) => Ok(SignedUrl(claims)),
            Err(e) => Err(e),
        }
    }
}

} // verus!
