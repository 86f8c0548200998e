use vstd::prelude::*;

verus! {

/// Why a session ended early. Every one of these ends the session in which it
/// occurs.
#[derive(Clone, Copy, Debug, PartialEq, Eq, Structural)]
pub enum Error {
    /// A socket could not be bound, or the multicast group could not be joined.
    SocketBind,
    /// A unicast connection could not be opened.
    Connection,
    /// An expected payload could not be read.
    ReadData,
    /// A payload could not be written or sent.
    SendData,
    /// The command line named no known mode.
    BadArguments,
    /// The operator's input could not be read.
    StdIn,
}

impl Error {
    /// The line shown to the operator for this error.
    pub fn message(&self) -> (r: &'static str)
        ensures
            *self == Error::SocketBind ==> r@ == "Failed to bind to a socket"@,
            *self == Error::Connection ==> r@ == "Failed to connect to a peer"@,
            *self == Error::ReadData ==> r@ == "Failed to read data from a peer!"@,
            *self == Error::SendData ==> r@
                == "Failed to respond with data to a caster, check your connection!"@,
            *self == Error::BadArguments ==> r@ == "Invalid CLI arguments were supplied!"@,
            *self == Error::StdIn ==> r@ == "Failed to read data from the command line!"@,
    {
        match self {
            Error::SocketBind => "Failed to bind to a socket",
            Error::Connection => "Failed to connect to a peer",
            Error::ReadData => "Failed to read data from a peer!",
            Error::SendData => "Failed to respond with data to a caster, check your connection!",
            Error::BadArguments => "Invalid CLI arguments were supplied!",
            Error::StdIn => "Failed to read data from the command line!",
        }
    }
}

} // verus!
