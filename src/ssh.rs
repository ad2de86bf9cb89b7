use vstd::prelude::*;
use vstd::string::*;

use core::time::Duration;

use crate::error::{message_of, Error};

verus! {

/// Marker for a session that is connected.
pub struct Connected;

/// Marker for a session that is disconnected.
pub struct Disconnected;

/// An IP address, version 4 or version 6.
#[derive(Clone, Copy, PartialEq, Eq, Debug)]
pub enum IpAddress {
    V4([u8; 4]),
    V6([u16; 8]),
}

/// A concrete address of a remote endpoint: an IP address and a port.
#[derive(Clone, Copy, PartialEq, Eq, Debug)]
pub struct SocketAddress {
    pub ip: IpAddress,
    pub port: u16,
}

/// The address a configuration is bound to, given what resolving its host
/// produced: the first address of the answer, or nothing if resolution failed
/// or gave no address.
pub open spec fn chosen_address(lookup: Result<Vec<SocketAddress>, String>) -> Option<SocketAddress> {
    match lookup {
        Ok(v) => if v@.len() > 0 {
            Some(v@[0])
        } else {
            None
        },
        Err(_) => None,
    }
}

/// The failure reported when resolution produced no address: the resolver's
/// own message if it failed, else a message saying the address could not be
/// parsed.
pub open spec fn resolution_failure(lookup: Result<Vec<SocketAddress>, String>) -> Seq<char> {
    match lookup {
        Ok(_) => "Error Parsing Socket"@,
        Err(m) => m@,
    }
}

/// Picks the address a configuration is bound to. Fails with a connection
/// error exactly when there is none.
pub fn first_address(lookup: Result<Vec<SocketAddress>, String>) -> (r: Result<SocketAddress, Error>)
    ensures
        r is Ok <==> chosen_address(lookup) is Some,
        r is Ok ==> r->Ok_0 == chosen_address(lookup)->Some_0,
        r is Err ==> r->Err_0 is ConnectionError && message_of(r->Err_0) == resolution_failure(
            lookup,
        ),
{
    match lookup {
        Ok(v) => {
            if v.len() > 0 {
                Ok(v[0])
            } else {
                Err(Error::ConnectionError(String::from_str("Error Parsing Socket")))
            }
        },
        Err(m) => Err(Error::from_transport(m)),
    }
}

/// How the server's host key is checked before authenticating.
pub enum HostKeyPolicy {
    /// Every presented key is accepted: nothing guards against a server
    /// impersonating the intended one.
    AcceptAny,
    /// Only the key whose encoded public-key bytes are exactly these is
    /// accepted.
    Pinned(Vec<u8>),
}

/// Whether a policy accepts a presented key, given by its encoded bytes.
pub open spec fn policy_accepts(p: HostKeyPolicy, presented: Seq<u8>) -> bool {
    match p {
        HostKeyPolicy::AcceptAny => true,
        HostKeyPolicy::Pinned(k) => k@ == presented,
    }
}

/// The bytes a policy pins, if it pins any.
pub open spec fn pinned_bytes(p: HostKeyPolicy) -> Option<Seq<u8>> {
    match p {
        HostKeyPolicy::AcceptAny => None,
        HostKeyPolicy::Pinned(k) => Some(k@),
    }
}

impl HostKeyPolicy {
    /// Decides whether the server's presented key is trusted.
    pub fn accepts(&self, presented: &[u8]) -> (r: bool)
        ensures
            r == policy_accepts(*self, presented@),
    {
        match self {
            HostKeyPolicy::AcceptAny => true,
            HostKeyPolicy::Pinned(k) => {
                if k.len() != presented.len() {
                    return false;
                }
                let mut i: usize = 0;
                while i < k.len()
                    invariant
                        i <= k@.len(),
                        k@.len() == presented@.len(),
                        k@.take(i as int) == presented@.take(i as int),
                        policy_accepts(*self, presented@) == (k@ == presented@),
                    decreases k@.len() - i,
                {
                    if k[i] != presented[i] {
                        assert(k@ != presented@) by {
                            if k@ == presented@ {
                                assert(k@[i as int] == presented@[i as int]);
                            }
                        }
                        return false;
                    }
                    assert(k@.take(i + 1) =~= k@.take(i as int).push(k@[i as int]));
                    assert(presented@.take(i + 1) =~= presented@.take(i as int).push(presented@[i as int]));
                    i = i + 1;
                }
                assert(k@ =~= k@.take(i as int));
                assert(presented@ =~= presented@.take(i as int));
                true
            },
        }
    }

    /// A policy that accepts exactly the same keys.
    pub fn duplicate(&self) -> (r: HostKeyPolicy)
        ensures
            pinned_bytes(r) == pinned_bytes(*self),
            forall|presented: Seq<u8>| policy_accepts(r, presented) == policy_accepts(*self, presented),
    {
        match self {
            HostKeyPolicy::AcceptAny => HostKeyPolicy::AcceptAny,
            HostKeyPolicy::Pinned(k) => {
                let mut copy: Vec<u8> = Vec::new();
                let mut i: usize = 0;
                while i < k.len()
                    invariant
                        i <= k@.len(),
                        copy@ == k@.take(i as int),
                    decreases k@.len() - i,
                {
                    copy.push(k[i]);
                    assert(k@.take(i + 1) =~= k@.take(i as int).push(k@[i as int]));
                    i = i + 1;
                }
                assert(k@ =~= k@.take(i as int));
                HostKeyPolicy::Pinned(copy)
            },
        }
    }
}

/// How to reach and authenticate to a secure-shell server.
pub enum SSHConfig {
    /// Public-key authentication with the private key stored at `key_path`.
    Key {
        username: String,
        socket: SocketAddress,
        key_path: String,
        inactivity_timeout: Duration,
        host_key: HostKeyPolicy,
    },
    /// Password authentication.
    Password {
        username: String,
        socket: SocketAddress,
        password: String,
        inactivity_timeout: Duration,
        host_key: HostKeyPolicy,
    },
}

/// A step of connection setup that the transport reports back.
pub enum SetupEvent {
    /// Setup is about to begin.
    Start,
    /// The transport connection to the server is open.
    Connected,
    /// The private key has been loaded.
    KeyLoaded,
    /// The server answered an authentication attempt: accepted or rejected.
    Authenticated(bool),
    /// A lower-level failure of the transport, key loading or I/O, with its
    /// message.
    Failed(String),
}

/// What the transport is to do next during connection setup.
pub enum SetupAction {
    /// Open a connection to the configured address, with the configured
    /// inactivity timeout.
    Connect,
    /// Load the private key from the configured path, without a passphrase.
    LoadKey,
    /// Attempt public-key authentication with the loaded key.
    AuthenticateWithKey,
    /// Attempt password authentication.
    AuthenticateWithPassword,
    /// The session is connected and authenticated.
    Finish,
    /// Setup failed with this error.
    Abort(Error),
}

/// The message reported when the server rejects the credential.
pub open spec fn rejection_message(c: SSHConfig) -> Seq<char> {
    match c {
        SSHConfig::Key { .. } => "Failed to authenticate with public key"@,
        SSHConfig::Password { .. } => "Failed to authenticate with password"@,
    }
}

/// The host-key policy of a configuration.
pub open spec fn host_key_of(c: SSHConfig) -> HostKeyPolicy {
    match c {
        SSHConfig::Key { host_key, .. } => host_key,
        SSHConfig::Password { host_key, .. } => host_key,
    }
}

/// Two configurations that reach the same server in the same way, whatever
/// their host-key policies.
pub open spec fn same_target(a: SSHConfig, b: SSHConfig) -> bool {
    match (a, b) {
        (
            SSHConfig::Key { username: u1, socket: s1, key_path: k1, inactivity_timeout: t1, .. },
            SSHConfig::Key { username: u2, socket: s2, key_path: k2, inactivity_timeout: t2, .. },
        ) => u1@ == u2@ && s1 == s2 && k1@ == k2@ && t1 == t2,
        (
            SSHConfig::Password { username: u1, socket: s1, password: p1, inactivity_timeout: t1, .. },
            SSHConfig::Password { username: u2, socket: s2, password: p2, inactivity_timeout: t2, .. },
        ) => u1@ == u2@ && s1 == s2 && p1@ == p2@ && t1 == t2,
        _ => false,
    }
}

impl SSHConfig {
    /// The same configuration, trusting only the host key with these encoded
    /// public-key bytes.
    pub fn pin_host_key(self, key: Vec<u8>) -> (r: SSHConfig)
        ensures
            same_target(r, self),
            pinned_bytes(host_key_of(r)) == Some(key@),
    {
        match self {
            SSHConfig::Key { username, socket, key_path, inactivity_timeout, .. } => SSHConfig::Key {
                username,
                socket,
                key_path,
                inactivity_timeout,
                host_key: HostKeyPolicy::Pinned(key),
            },
            SSHConfig::Password { username, socket, password, inactivity_timeout, .. } => {
                SSHConfig::Password {
                    username,
                    socket,
                    password,
                    inactivity_timeout,
                    host_key: HostKeyPolicy::Pinned(key),
                }
            },
        }
    }

    /// The policy that decides whether the server's host key is trusted.
    pub fn host_key(&self) -> (r: &HostKeyPolicy)
        ensures
            *r == host_key_of(*self),
    {
        match self {
            SSHConfig::Key { host_key, .. } => host_key,
            SSHConfig::Password { host_key, .. } => host_key,
        }
    }

    /// A configuration for public-key authentication, bound to the first
    /// address that resolving the host produced. Fails with a connection
    /// error, and builds nothing, when there is no such address. The
    /// configuration accepts any host key until one is pinned with
    /// `pin_host_key`.
    pub fn key(
        username: &str,
        lookup: Result<Vec<SocketAddress>, String>,
        key_path: &str,
        inactivity_timeout: Duration,
    ) -> (r: Result<SSHConfig, Error>)
        ensures
            r is Ok <==> chosen_address(lookup) is Some,
            r is Ok ==> (r->Ok_0 matches SSHConfig::Key { username: u, socket: s, key_path: k, inactivity_timeout: t, host_key: h }
                && u@ == username@ && s == chosen_address(lookup)->Some_0 && k@ == key_path@
                && t == inactivity_timeout && h is AcceptAny),
            r is Err ==> r->Err_0 is ConnectionError && message_of(r->Err_0) == resolution_failure(
                lookup,
            ),
    {
        let socket = first_address(lookup)?;
        Ok(
            SSHConfig::Key {
                username: String::from_str(username),
                socket,
                key_path: String::from_str(key_path),
                inactivity_timeout,
                host_key: HostKeyPolicy::AcceptAny,
            },
        )
    }

    /// A configuration for password authentication, bound to the first
    /// address that resolving the host produced. Fails with a connection
    /// error, and builds nothing, when there is no such address. The
    /// configuration accepts any host key until one is pinned with
    /// `pin_host_key`.
    pub fn password(
        username: &str,
        lookup: Result<Vec<SocketAddress>, String>,
        password: &str,
        inactivity_timeout: Duration,
    ) -> (r: Result<SSHConfig, Error>)
        ensures
            r is Ok <==> chosen_address(lookup) is Some,
            r is Ok ==> (r->Ok_0 matches SSHConfig::Password { username: u, socket: s, password: p, inactivity_timeout: t, host_key: h }
                && u@ == username@ && s == chosen_address(lookup)->Some_0 && p@ == password@
                && t == inactivity_timeout && h is AcceptAny),
            r is Err ==> r->Err_0 is ConnectionError && message_of(r->Err_0) == resolution_failure(
                lookup,
            ),
    {
        let socket = first_address(lookup)?;
        Ok(
            SSHConfig::Password {
                username: String::from_str(username),
                socket,
                password: String::from_str(password),
                inactivity_timeout,
                host_key: HostKeyPolicy::AcceptAny,
            },
        )
    }

    /// Decides the next step of connection setup from the last event. Setup
    /// connects, loads the key when authenticating by key, then
    /// authenticates with the configured method. A rejected credential is an
    /// authentication error naming the method; any lower-level failure is a
    /// connection error.
    pub fn setup_step(&self, event: SetupEvent) -> (r: SetupAction)
        ensures
            event is Start ==> r is Connect,
            event is Connected && *self is Key ==> r is LoadKey,
            event is Connected && *self is Password ==> r is AuthenticateWithPassword,
            event is KeyLoaded && *self is Key ==> r is AuthenticateWithKey,
            event is KeyLoaded && *self is Password ==> r is AuthenticateWithPassword,
            event == SetupEvent::Authenticated(true) ==> r is Finish,
            event == SetupEvent::Authenticated(false) ==> (r is Abort && r->Abort_0 is AuthenticationError
                && message_of(r->Abort_0) == rejection_message(*self)),
            event is Failed ==> r == SetupAction::Abort(Error::ConnectionError(event->Failed_0)),
    {
        match event {
            SetupEvent::Start => SetupAction::Connect,
            SetupEvent::Connected => match self {
                SSHConfig::Key { .. } => SetupAction::LoadKey,
                SSHConfig::Password { .. } => SetupAction::AuthenticateWithPassword,
            },
            SetupEvent::KeyLoaded => match self {
                SSHConfig::Key { .. } => SetupAction::AuthenticateWithKey,
                SSHConfig::Password { .. } => SetupAction::AuthenticateWithPassword,
            },
            SetupEvent::Authenticated(accepted) => {
                if accepted {
                    SetupAction::Finish
                } else {
                    let message = match self {
                        SSHConfig::Key { .. } => "Failed to authenticate with public key",
                        SSHConfig::Password { .. } => "Failed to authenticate with password",
                    };
                    SetupAction::Abort(Error::AuthenticationError(String::from_str(message)))
                }
            },
            SetupEvent::Failed(m) => SetupAction::Abort(Error::from_transport(m)),
        }
    }
}

} // verus!
