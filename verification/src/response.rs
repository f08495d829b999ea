//! The `Response` message sent back to the client.
//!
//! A response carries exactly one field: the result code. The field is
//! optional in the message struct (a decoded message may lack it), and the
//! message counts as initialized only once it is set.

use vstd::prelude::*;

verus! {

/// The client-visible result of a command: success, or one of three error
/// codes. Kernel statuses map onto these through
/// `dispatch::to_response_result`.
#[allow(non_camel_case_types)]
#[derive(Clone, Copy, PartialEq, Eq, Structural, Debug)]
pub enum Response_Result {
    OK,
    ERROR_MODULE_SYSTEM,
    ERROR_MODULE_NO_PATH,
    ERROR_MODULE_COMMUNICATION,
}

impl Response_Result {
    /// The numeric value a result code carries on the wire.
    pub open spec fn spec_value(self) -> i32 {
        match self {
            Response_Result::OK => 0,
            Response_Result::ERROR_MODULE_SYSTEM => 1,
            Response_Result::ERROR_MODULE_NO_PATH => 2,
            Response_Result::ERROR_MODULE_COMMUNICATION => 3,
        }
    }

    /// The result code that a numeric wire value stands for, if any.
    pub open spec fn spec_from_i32(value: i32) -> Option<Response_Result> {
        if value == 0 {
            Some(Response_Result::OK)
        } else if value == 1 {
            Some(Response_Result::ERROR_MODULE_SYSTEM)
        } else if value == 2 {
            Some(Response_Result::ERROR_MODULE_NO_PATH)
        } else if value == 3 {
            Some(Response_Result::ERROR_MODULE_COMMUNICATION)
        } else {
            None
        }
    }

    pub fn value(&self) -> (v: i32)
        ensures
            v == self.spec_value(),
    {
        match self {
            Response_Result::OK => 0,
            Response_Result::ERROR_MODULE_SYSTEM => 1,
            Response_Result::ERROR_MODULE_NO_PATH => 2,
            Response_Result::ERROR_MODULE_COMMUNICATION => 3,
        }
    }

    pub fn from_i32(value: i32) -> (r: Option<Response_Result>)
        ensures
            r == Response_Result::spec_from_i32(value),
    {
        if value == 0 {
            Some(Response_Result::OK)
        } else if value == 1 {
            Some(Response_Result::ERROR_MODULE_SYSTEM)
        } else if value == 2 {
            Some(Response_Result::ERROR_MODULE_NO_PATH)
        } else if value == 3 {
            Some(Response_Result::ERROR_MODULE_COMMUNICATION)
        } else {
            None
        }
    }

    /// All result codes, in wire-value order.
    pub fn values() -> (v: Vec<Response_Result>)
        ensures
            v@ == seq![
                Response_Result::OK,
                Response_Result::ERROR_MODULE_SYSTEM,
                Response_Result::ERROR_MODULE_NO_PATH,
                Response_Result::ERROR_MODULE_COMMUNICATION,
            ],
    {
        let mut v: Vec<Response_Result> = Vec::new();
        v.push(Response_Result::OK);
        v.push(Response_Result::ERROR_MODULE_SYSTEM);
        v.push(Response_Result::ERROR_MODULE_NO_PATH);
        v.push(Response_Result::ERROR_MODULE_COMMUNICATION);
        proof {
            assert(v@ =~= seq![
                Response_Result::OK,
                Response_Result::ERROR_MODULE_SYSTEM,
                Response_Result::ERROR_MODULE_NO_PATH,
                Response_Result::ERROR_MODULE_COMMUNICATION,
            ]);
        }
        v
    }
}

impl Default for Response_Result {
    fn default() -> (r: Self)
        ensures
            r == Response_Result::OK,
    {
        Response_Result::OK
    }
}

/// One response message: the single, required result field, unset on a
/// freshly made message.
pub struct Response {
    result: Option<Response_Result>,
}

impl Response {
    /// The result field as it stands: `None` until `set_result` is called.
    pub closed spec fn spec_result(self) -> Option<Response_Result> {
        self.result
    }

    pub fn new() -> (r: Response)
        ensures
            r.spec_result() is None,
    {
        Response { result: None }
    }

    /// The result field, or the default `OK` when the field is unset.
    pub fn get_result(&self) -> (r: Response_Result)
        ensures
            r == match self.spec_result() {
                Some(v) => v,
                None => Response_Result::OK,
            },
    {
        match self.result {
            Some(v) => v,
            None => Response_Result::OK,
        }
    }

    pub fn clear_result(&mut self)
        ensures
            final(self).spec_result() is None,
    {
        self.result = None;
    }

    pub fn has_result(&self) -> (b: bool)
        ensures
            b == (self.spec_result() is Some),
    {
        self.result.is_some()
    }

    pub fn set_result(&mut self, v: Response_Result)
        ensures
            final(self).spec_result() == Some(v),
    {
        self.result = Some(v);
    }

    /// A message is initialized once its required result field is set;
    /// only an initialized message can be encoded.
    pub fn is_initialized(&self) -> (b: bool)
        ensures
            b == (self.spec_result() is Some),
    {
        if self.result.is_none() {
            return false;
        }
        true
    }
}

impl Default for Response {
    fn default() -> (r: Self)
        ensures
            r.spec_result() is None,
    {
        Response::new()
    }
}

} // verus!
