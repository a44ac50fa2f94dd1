//! The status answer.
use vstd::prelude::*;

verus! {

/// A status message.
pub struct Status {
    pub message: String,
}

impl Status {
    pub fn new(msg: &str) -> (r: Status)
        ensures
            r.message@ == msg@,
    {
        Status { message: msg.to_owned() }
    }
}

impl Default for Status {
    /// The status "Ok".
    fn default() -> (r: Status)
        ensures
            r.message@ == "Ok"@,
    {
        Status { message: "Ok".to_owned() }
    }
}

} // verus!
