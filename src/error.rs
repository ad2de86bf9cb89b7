use vstd::prelude::*;
use vstd::string::*;

verus! {

/// The five kinds of failure a client operation can report, each with a
/// human-readable message.
#[derive(Debug)]
pub enum Error {
    /// Malformed or unusable configuration.
    ConfigError(String),
    /// Network, transport or protocol failure, including every lower-level
    /// failure of the transport engine, key loading and I/O.
    ConnectionError(String),
    /// Failure specific to running a command.
    CommandError(String),
    /// The remote side rejected the credential.
    AuthenticationError(String),
    /// Failure reported by the socket layer.
    SocketError(String),
}

/// The message carried by an error, whatever its kind.
pub open spec fn message_of(e: Error) -> Seq<char> {
    match e {
        Error::ConfigError(m) => m@,
        Error::ConnectionError(m) => m@,
        Error::CommandError(m) => m@,
        Error::AuthenticationError(m) => m@,
        Error::SocketError(m) => m@,
    }
}

/// The prefix naming the kind of an error in its report.
pub open spec fn kind_label(e: Error) -> Seq<char> {
    match e {
        Error::ConfigError(_) => "Config error: "@,
        Error::ConnectionError(_) => "Connection error: "@,
        Error::CommandError(_) => "Command error: "@,
        Error::AuthenticationError(_) => "Authentication error: "@,
        Error::SocketError(_) => "Socket Error: "@,
    }
}

/// Two errors of the same kind with the same message.
pub open spec fn same_error(a: Error, b: Error) -> bool {
    &&& kind_label(a) == kind_label(b)
    &&& message_of(a) == message_of(b)
}

impl Error {
    /// The error that a lower-level failure (transport engine, key loading,
    /// I/O) becomes: a connection error carrying that failure's message.
    pub fn from_transport(message: String) -> (r: Error)
        ensures
            r == Error::ConnectionError(message),
    {
        Error::ConnectionError(message)
    }

    /// The message carried by this error.
    pub fn message(&self) -> (r: &str)
        ensures
            r@ == message_of(*self),
    {
        match self {
            Error::ConfigError(m) => m.as_str(),
            Error::ConnectionError(m) => m.as_str(),
            Error::CommandError(m) => m.as_str(),
            Error::AuthenticationError(m) => m.as_str(),
            Error::SocketError(m) => m.as_str(),
        }
    }

    /// The human-readable report of this error: its kind, then its message.
    pub fn to_string(&self) -> (r: String)
        ensures
            r@ == kind_label(*self) + message_of(*self),
    {
        let label = match self {
            Error::ConfigError(_) => "Config error: ",
            Error::ConnectionError(_) => "Connection error: ",
            Error::CommandError(_) => "Command error: ",
            Error::AuthenticationError(_) => "Authentication error: ",
            Error::SocketError(_) => "Socket Error: ",
        };
        let mut r = String::from_str(label);
        r.append(self.message());
        r
    }

    /// An error of the same kind with a copy of the same message.
    pub fn duplicate(&self) -> (r: Error)
        ensures
            same_error(r, *self),
            r is ConnectionError <==> *self is ConnectionError,
            r is AuthenticationError <==> *self is AuthenticationError,
    {
        let m = String::from_str(self.message());
        match self {
            Error::ConfigError(_) => Error::ConfigError(m),
            Error::ConnectionError(_) => Error::ConnectionError(m),
            Error::CommandError(_) => Error::CommandError(m),
            Error::AuthenticationError(_) => Error::AuthenticationError(m),
            Error::SocketError(_) => Error::SocketError(m),
        }
    }
}

} // verus!
