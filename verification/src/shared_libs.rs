//! The error reported when a shared library cannot be opened or a symbol is not found in it.
use vstd::prelude::*;

verus! {

/// Returns an error from DLib::open() or DLib::sym().
#[derive(Debug)]
pub struct DLError(String);

impl DLError {
    /// The error message.
    pub closed spec fn view(&self) -> Seq<char> {
        self.0@
    }

    /// An error with the message `message`, as libuv reports it for a library.
    pub fn new(message: String) -> (r: DLError)
        ensures
            r@ == message@,
    {
        DLError(message)
    }

    /// Retrieve the error message.
    pub fn message(&self) -> (r: String)
        ensures
            r@ == self@,
    {
        self.0.clone()
    }
}

/// The outcome of a call of the dynamic-library loader: success when the status is not
/// negative, otherwise an error with the message that libuv gives for the library.
pub fn dlret(result: i32, message: String) -> (r: Result<(), DLError>)
    ensures
        r is Ok <==> result >= 0,
        r matches Err(e) ==> e@ == message@,
{
    if result < 0 {
        Err(DLError::new(message))
    } else {
        Ok(())
    }
}

} // verus!
