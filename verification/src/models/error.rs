use vstd::prelude::*;

verus! {

/// An error of the board, carrying its message.
#[derive(Debug)]
pub struct CustomError {
    message: String,
}

impl CustomError {
    /// The message this error carries.
    pub closed spec fn message(&self) -> Seq<char> {
        self.message@
    }

    pub fn new(message: String) -> (e: Self)
        ensures
            e.message() == message@,
    {
        CustomError { message }
    }

    /// The error as it is shown: `Error: ` and its message.
    pub fn to_string(&self) -> (s: String)
        ensures
            s@ == "Error: "@ + self.message(),
    {
        "Error: ".to_owned().concat(self.message.as_str())
    }
}

impl Clone for CustomError {
    fn clone(&self) -> (r: Self)
        ensures
            r.message() == self.message(),
    {
        CustomError { message: self.message.clone() }
    }
}

} // verus!
