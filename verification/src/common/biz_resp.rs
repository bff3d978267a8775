//! The response envelope of the HTTP services: a code, a message and
//! optional data.
use vstd::prelude::*;

use crate::common::biz_code::BizCode;
use crate::common::biz_error::BizError;
use crate::common::text::{concat2, owned};

verus! {

broadcast use vstd::string::group_string_axioms;

/// The result of a business code with an appended error text.
pub open spec fn err_msg_text(biz_code: BizCode, err: Seq<char>) -> Seq<char> {
    biz_code.reason_text() + ": "@ + err
}

/// An empty payload.
pub struct Empty {}

/// A response: the code text, a message, and the data when there is any.
#[derive(Clone)]
pub struct RespData<T> {
    pub code: String,
    pub msg: String,
    pub data: Option<T>,
}

impl<T> RespData<T> {
    /// A successful response carrying `data`.
    pub fn with_success(data: T) -> (r: RespData<T>)
        ensures
            r.code@ == BizCode::SUCCESS.code_text(),
            r.msg@ == BizCode::SUCCESS.reason_text(),
            r.data == Some(data),
    {
        let biz_code = BizCode::SUCCESS;
        let msg = owned(biz_code.reason().unwrap());
        RespData { code: owned(biz_code.code()), msg, data: Some(data) }
    }
}

impl RespData<()> {
    /// A successful response without data.
    pub fn success() -> (r: RespData<()>)
        ensures
            r.code@ == BizCode::SUCCESS.code_text(),
            r.msg@ == BizCode::SUCCESS.reason_text(),
            r.data is None,
    {
        let biz_code = BizCode::SUCCESS;
        let msg = owned(biz_code.reason().unwrap());
        RespData { code: owned(biz_code.code()), msg, data: None }
    }

    /// A response for a business code, with its reason as the message.
    pub fn with_biz_code(biz_code: BizCode) -> (r: RespData<()>)
        ensures
            r.code@ == biz_code.code_text(),
            r.msg@ == biz_code.reason_text(),
            r.data is None,
    {
        let msg = owned(biz_code.reason().unwrap());
        RespData { code: owned(biz_code.code()), msg, data: None }
    }

    /// A response for a business code whose message is `reason: err`.
    pub fn with_biz_code_err(biz_code: BizCode, err: &String) -> (r: RespData<()>)
        ensures
            r.code@ == biz_code.code_text(),
            r.msg@ == err_msg_text(biz_code, err@),
            r.data is None,
    {
        let mut err_msg = concat2(biz_code.reason().unwrap(), ": ");
        err_msg.append(err.as_str());
        RespData { code: owned(biz_code.code()), msg: err_msg, data: None }
    }

    /// The response that reports a business error.
    pub fn from_biz_error(biz_error: &BizError) -> (r: RespData<()>)
        ensures
            r.code@ == biz_error.biz_code.code_text(),
            r.msg@ == biz_error.display_text(),
            r.data is None,
    {
        RespData { code: owned(biz_error.biz_code.code()), msg: biz_error.to_string(), data: None }
    }
}

/// A business error answered as a response carries the same code and
/// message as the response built from its code and error text.
pub proof fn law_error_response_matches_code_response(e: BizError)
    ensures
        e.display_text() == err_msg_text(e.biz_code, e.err_text()),
{
}

/// An error made without a text answers with its reason followed by `": "`.
pub proof fn law_plain_error_message(c: BizCode, e: BizError)
    requires
        e.biz_code == c,
        e.err_text() == Seq::<char>::empty(),
    ensures
        e.display_text() == c.reason_text() + ": "@,
{
    assert(e.display_text() =~= c.reason_text() + ": "@);
}

} // verus!
