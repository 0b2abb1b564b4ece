//! The structured error the server returns for a failed call.

use crate::text::dec_str;
use crate::text::u64_to_decimal;
use vstd::prelude::*;

verus! {

/// An API error returned by the backend: the HTTP status, a short error
/// code, and a human-readable message.
pub struct B2ApiError {
    pub status: u16,
    pub code: String,
    pub message: String,
}

impl B2ApiError {
    /// A readable rendering of the error, naming the status, the short
    /// code and the message.
    pub fn describe(&self) -> (r: String)
        ensures
            r@ == "B2ApiError: error code "@ + dec_str(self.status as int) + " - "@ + self.code@
                + ". Message: "@ + self.message@,
    {
        let mut out = "B2ApiError: error code ".to_owned();
        let status_digits = u64_to_decimal(self.status as u64);
        out.append(status_digits.as_str());
        out.append(" - ");
        out.append(self.code.as_str());
        out.append(". Message: ");
        out.append(self.message.as_str());
        out
    }
}

} // verus!
