use vstd::prelude::*;

verus! {

/// An HTTP status code as it appeared on the status line.
#[derive(Clone, Copy, Debug, PartialEq, Eq, Structural)]
pub struct StatusCode {
    pub code: u16,
}

impl StatusCode {
    pub open spec fn is_success_spec(self) -> bool {
        200 <= self.code <= 299
    }

    pub fn new(code: u16) -> (r: StatusCode)
        ensures
            r.code == code,
    {
        StatusCode { code }
    }

    /// The numeric code.
    pub fn as_u16(&self) -> (r: u16)
        ensures
            r == self.code,
    {
        self.code
    }

    /// True exactly for the codes of the 2xx class.
    pub fn is_success(&self) -> (r: bool)
        ensures
            r == self.is_success_spec(),
            r <==> (200 <= self.code && self.code <= 299),
    {
        200 <= self.code && self.code <= 299
    }
}

} // verus!
