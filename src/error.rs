use vstd::prelude::*;
use crate::text::{concat, copy_text};

verus! {

broadcast use vstd::string::group_string_axioms;

/// Error code of a failed page render.
pub const TERA_RENDER_EXP_CODE: &'static str = "TERA500";

/// Error code of a rejected request or a failed setup step.
pub const BUS_EXP_CODE: &'static str = "BUS500";

/// Error code of an upstream query that timed out or failed while awaited.
pub const QUERY_DNS_TIMEOUT: &'static str = "QUERY_DNS_TIMEOUT";

/// An error reported to the caller as a code and a message.
#[derive(Debug)]
pub struct AppError {
    pub code: String,
    pub msg: String,
}

impl AppError {
    pub fn new(code: String, msg: String) -> (r: AppError)
        ensures
            r.code@ == code@,
            r.msg@ == msg@,
    {
        AppError { code, msg }
    }

    /// A page-rendering failure, carrying the renderer's own description.
    pub fn tera(msg: String) -> (r: AppError)
        ensures
            r.code@ == TERA_RENDER_EXP_CODE@,
            r.msg@ == msg@,
    {
        AppError { code: copy_text(TERA_RENDER_EXP_CODE), msg }
    }

    /// A business error: bad input or a setup step that failed.
    pub fn bus(msg: String) -> (r: AppError)
        ensures
            r.code@ == BUS_EXP_CODE@,
            r.msg@ == msg@,
    {
        AppError { code: copy_text(BUS_EXP_CODE), msg }
    }

    /// The upstream query did not complete: timeout or protocol failure.
    pub fn query_dns_timeout(msg: String) -> (r: AppError)
        ensures
            r.code@ == QUERY_DNS_TIMEOUT@,
            r.msg@ == msg@,
    {
        AppError { code: copy_text(QUERY_DNS_TIMEOUT), msg }
    }

    /// A one-line description: `AppError: code = <code> msg = <msg> `.
    pub fn describe(&self) -> (r: String)
        ensures
            r@ == "AppError: code = "@ + self.code@ + " msg = "@ + self.msg@ + " "@,
    {
        let s = concat(copy_text("AppError: code = "), self.code.as_str());
        let s = concat(s, " msg = ");
        let s = concat(s, self.msg.as_str());
        concat(s, " ")
    }
}

} // verus!
