use vstd::prelude::*;
use crate::error::AppError;
use crate::text::copy_text;

verus! {

broadcast use vstd::string::group_string_axioms;

/// Code of a successful response.
pub const OKAY_CODE: &'static str = "1";

/// Code of a generic failure.
pub const ERR_CODE: &'static str = "0";

/// Message of a successful response.
pub const OKAY_MSG: &'static str = "operation succeeded";

/// The uniform envelope of every answer: a code, a message, the data if any,
/// and a total count for paged data.
#[derive(Debug)]
pub struct ApiResponse<T> {
    pub code: String,
    pub msg: String,
    pub data: Option<T>,
    pub total: Option<i64>,
}

impl<T> ApiResponse<T> {
    /// Success, carrying `data`.
    pub fn okay(data: T) -> (r: Self)
        ensures
            r.code@ == OKAY_CODE@,
            r.msg@ == OKAY_MSG@,
            r.data == Some(data),
            r.total is None,
    {
        ApiResponse { code: copy_text(OKAY_CODE), msg: copy_text(OKAY_MSG), data: Some(data), total: None }
    }

    /// The given code and message, carrying `data`.
    pub fn full(code: String, msg: String, data: T) -> (r: Self)
        ensures
            r.code@ == code@,
            r.msg@ == msg@,
            r.data == Some(data),
            r.total is None,
    {
        ApiResponse { code, msg, data: Some(data), total: None }
    }

    /// The given code and message, without data.
    pub fn full_not_data(code: String, msg: String) -> (r: Self)
        ensures
            r.code@ == code@,
            r.msg@ == msg@,
            r.data is None,
            r.total is None,
    {
        ApiResponse { code, msg, data: None, total: None }
    }

    /// Success, carrying one page of data and the total count.
    pub fn ok_page(total: i64, data: T) -> (r: Self)
        ensures
            r.code@ == OKAY_CODE@,
            r.msg@ == OKAY_MSG@,
            r.data == Some(data),
            r.total == Some(total),
    {
        ApiResponse {
            code: copy_text(OKAY_CODE),
            msg: copy_text(OKAY_MSG),
            data: Some(data),
            total: Some(total),
        }
    }

    /// A generic failure, carrying `data`.
    pub fn err_with_data(msg: String, data: T) -> (r: Self)
        ensures
            r.code@ == ERR_CODE@,
            r.msg@ == msg@,
            r.data == Some(data),
            r.total is None,
    {
        ApiResponse { code: copy_text(ERR_CODE), msg, data: Some(data), total: None }
    }

    /// A generic failure, without data.
    pub fn err_without_data(msg: String) -> (r: Self)
        ensures
            r.code@ == ERR_CODE@,
            r.msg@ == msg@,
            r.data is None,
            r.total is None,
    {
        ApiResponse { code: copy_text(ERR_CODE), msg, data: None, total: None }
    }
}

impl AppError {
    /// The envelope that reports this error: its code and message, no data.
    pub fn envelope<T>(&self) -> (r: ApiResponse<T>)
        ensures
            r.code@ == self.code@,
            r.msg@ == self.msg@,
            r.data is None,
            r.total is None,
    {
        ApiResponse::full_not_data(copy_text(self.code.as_str()), copy_text(self.msg.as_str()))
    }
}

} // verus!
