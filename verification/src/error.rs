use vstd::prelude::*;

verus! {

/// The reason a record was rejected, as text.
#[derive(Debug, Clone, PartialEq)]
pub struct Error {
    pub message: String,
}

impl Error {
    /// An error that carries `message`.
    pub fn new(message: &str) -> (e: Error)
        ensures
            e.message@ == message@,
    {
        Error { message: message.to_owned() }
    }
}

} // verus!
