use vstd::prelude::*;

verus! {

/// The error type of the bot: a message meant for people.
#[derive(Debug, Clone)]
pub struct Error {
    pub message: String,
}

impl Error {
    /// Builds an error that carries `msg` as its message.
    pub fn new(msg: &str) -> (e: Error)
        ensures
            e.message@ == msg@,
    {
        Error { message: msg.to_string() }
    }

    /// The error as it is displayed: its message.
    pub fn to_string(&self) -> (s: String)
        ensures
            s@ == self.message@,
    {
        self.message.clone()
    }

    /// The error's description: its message.
    pub fn description(&self) -> (s: &str)
        ensures
            s@ == self.message@,
    {
        self.message.as_str()
    }
}

} // verus!
