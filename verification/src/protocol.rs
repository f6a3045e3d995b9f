//! The two failures that the launcher protocol hands to the command layer,
//! held as the plain values that the error taxonomy reads of them.

use vstd::prelude::*;

verus! {

/// A failure of the protocol codec to encode or decode a message, as the
/// description that the codec gives of it.
#[derive(Debug)]
pub struct Error {
    pub reason: String,
}

impl Error {
    /// The text of this failure: the codec's own description.
    pub open spec fn text(self) -> Seq<char> {
        self.reason@
    }

    pub fn message(&self) -> (s: String)
        ensures
            s@ == self.text(),
    {
        self.reason.clone()
    }
}

/// The launcher's negative acknowledgment of a command: it understood the
/// request and declined it. The code is for the caller's own logic; the
/// message is the launcher's explanation.
#[derive(Debug)]
pub struct NetErr {
    pub code: i32,
    pub msg: String,
}

impl NetErr {
    /// The text of this rejection: the launcher's explanation.
    pub open spec fn text(self) -> Seq<char> {
        self.msg@
    }

    pub fn message(&self) -> (s: String)
        ensures
            s@ == self.text(),
    {
        self.msg.clone()
    }
}

} // verus!
