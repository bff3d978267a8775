//! The business error: a business code with an optional error text.
use vstd::prelude::*;

use crate::common::biz_code::BizCode;
use crate::common::text::concat2;

verus! {

broadcast use vstd::string::group_string_axioms;

/// A failure reported with a business code and a free error text.
pub struct BizError {
    pub biz_code: BizCode,
    pub err_str: String,
}

impl BizError {
    /// The error text carried beside the code.
    pub open spec fn err_text(&self) -> Seq<char> {
        self.err_str@
    }

    /// `reason: error text`, what the error displays as.
    pub open spec fn display_text(&self) -> Seq<char> {
        self.biz_code.reason_text() + ": "@ + self.err_text()
    }

    /// `code: reason: error text`, the debugging form of the error.
    pub open spec fn debug_text(&self) -> Seq<char> {
        self.biz_code.code_reason_text() + ": "@ + self.err_text()
    }

    /// An error with the given code and an empty error text.
    pub fn new(biz_code: BizCode) -> (r: BizError)
        ensures
            r.biz_code == biz_code,
            r.err_text() == Seq::<char>::empty(),
    {
        BizError { biz_code, err_str: String::new() }
    }

    /// An error with the given code and error text.
    pub fn with_err(biz_code: BizCode, err_str: String) -> (r: BizError)
        ensures
            r.biz_code == biz_code,
            r.err_text() == err_str@,
    {
        BizError { biz_code, err_str }
    }

    /// `code: reason` of the error's business code.
    pub fn code_reason(&self) -> (r: String)
        ensures
            r@ == self.biz_code.code_reason_text(),
    {
        self.biz_code.code_reason()
    }

    /// The displayed form, `reason: error text`.
    pub fn to_string(&self) -> (r: String)
        ensures
            r@ == self.display_text(),
    {
        let reason = self.biz_code.reason().unwrap();
        let mut r = concat2(reason, ": ");
        r.append(self.err_str.as_str());
        r
    }

    /// The debugging form, `code: reason: error text`.
    pub fn to_debug_string(&self) -> (r: String)
        ensures
            r@ == self.debug_text(),
    {
        let mut r = self.code_reason();
        r.append(": ");
        r.append(self.err_str.as_str());
        r
    }
}

} // verus!
