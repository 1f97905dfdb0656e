//! The error that handlers return: an HTTP status and a message.

use vstd::prelude::*;

use crate::middleware::{rejection_status, rejection_text, Rejection};

verus! {

/// A handler's failure, as the client sees it.
#[derive(Debug)]
pub struct AppError {
    status_code: u16,
    message: String,
}

impl View for AppError {
    type V = (u16, Seq<char>);

    closed spec fn view(&self) -> (u16, Seq<char>) {
        (self.status_code, self.message@)
    }
}

/// A status code that HTTP allows: three digits.
pub open spec fn is_status_code(c: u16) -> bool {
    100 <= c <= 999
}

impl AppError {
    #[verifier::type_invariant]
    closed spec fn well_formed(self) -> bool {
        is_status_code(self.status_code)
    }

    pub fn new(status_code: u16, message: String) -> (r: AppError)
        requires
            is_status_code(status_code),
        ensures
            r@ == (status_code, message@),
    {
        AppError { status_code, message }
    }

    /// 400.
    pub fn bad_request(message: &str) -> (r: AppError)
        ensures
            r@ == (400u16, message@),
    {
        AppError::new(400, message.to_owned())
    }

    /// 401.
    pub fn unauthorized(message: &str) -> (r: AppError)
        ensures
            r@ == (401u16, message@),
    {
        AppError::new(401, message.to_owned())
    }

    /// 404.
    pub fn not_found(message: &str) -> (r: AppError)
        ensures
            r@ == (404u16, message@),
    {
        AppError::new(404, message.to_owned())
    }

    /// 500.
    pub fn internal_error(message: &str) -> (r: AppError)
        ensures
            r@ == (500u16, message@),
    {
        AppError::new(500, message.to_owned())
    }

    /// The response for a rejected request: 401 or 503, with the
    /// rejection's uniform message.
    pub fn from_rejection(rejection: Rejection) -> (r: AppError)
        ensures
            r@.0 == rejection_status(rejection),
            r@.1 == rejection_text(rejection),
    {
        AppError::new(rejection.status_code(), rejection.message().to_owned())
    }

    pub fn status_code(&self) -> (r: u16)
        ensures
            r == self@.0,
            is_status_code(r),
    {
        proof {
            use_type_invariant(self);
        }
        self.status_code
    }

    pub fn message(&self) -> (r: &str)
        ensures
            r@ == self@.1,
    {
        self.message.as_str()
    }
}

} // verus!
