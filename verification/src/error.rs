//! The error that a handler gives up with.

use vstd::prelude::*;

verus! {

/// Why a command could not be carried out. The message is what the client
/// is shown.
#[derive(Clone, Debug, PartialEq, Eq)]
pub struct CubeError {
    pub message: String,
}

impl View for CubeError {
    type V = Seq<char>;

    open spec fn view(&self) -> Seq<char> {
        self.message@
    }
}

impl CubeError {
    pub fn internal(message: String) -> (error: Self)
        ensures
            error@ == message@,
    {
        CubeError { message }
    }

    /// The text of the error.
    pub fn to_string(&self) -> (text: String)
        ensures
            text@ == self@,
    {
        self.message.clone()
    }
}

} // verus!
