//! [`TransportEndpoint`]: how to reach a service (Unix socket, TCP or mesh relay).

use vstd::prelude::*;
use crate::text::{
    ascii_lowercase, contains_char, decimal, ends_with, ends_with_sock_ignore_ascii_case,
    parse_u16, parse_unsigned, push_decimal, rfind_char, rsplit_once, sock_suffix,
    starts_with_char, str_equal, substring,
};
use super::paths::{SocketEnv, socket_path_for_primal, socket_path_for_primal_spec};

verus! {

/// Structured transport endpoint, wire-compatible with the ecosystem standard.
#[derive(Clone, Debug, PartialEq, Eq, Hash)]
pub enum TransportEndpoint {
    /// Unix domain socket.
    Uds {
        /// Filesystem path to the socket.
        path: String,
    },
    /// TCP connection.
    Tcp {
        /// Host address.
        host: String,
        /// TCP port number.
        port: u16,
    },
    /// Mesh relay.
    MeshRelay {
        /// Mesh peer identifier.
        peer_id: String,
        /// Capability being resolved.
        capability: String,
    },
}

/// The contents of a [`TransportEndpoint`] as character sequences.
pub enum EndpointView {
    Uds { path: Seq<char> },
    Tcp { host: Seq<char>, port: u16 },
    MeshRelay { peer_id: Seq<char>, capability: Seq<char> },
}

impl View for TransportEndpoint {
    type V = EndpointView;

    open spec fn view(&self) -> EndpointView {
        match self {
            TransportEndpoint::Uds { path } => EndpointView::Uds { path: path@ },
            TransportEndpoint::Tcp { host, port } => EndpointView::Tcp { host: host@, port: *port },
            TransportEndpoint::MeshRelay { peer_id, capability } => EndpointView::MeshRelay {
                peer_id: peer_id@,
                capability: capability@,
            },
        }
    }
}

/// The loopback host `127.0.0.1`.
pub open spec fn loopback_v4() -> Seq<char> {
    seq!['1', '2', '7', '.', '0', '.', '0', '.', '1']
}

/// The loopback host `::1`.
pub open spec fn loopback_v6() -> Seq<char> {
    seq![':', ':', '1']
}

/// The host name `localhost`.
pub open spec fn localhost() -> Seq<char> {
    seq!['l', 'o', 'c', 'a', 'l', 'h', 'o', 's', 't']
}

/// A local endpoint: any Unix socket, or TCP to a loopback host.
pub open spec fn is_local_spec(e: EndpointView) -> bool {
    match e {
        EndpointView::Uds { .. } => true,
        EndpointView::Tcp { host, .. } => host == loopback_v4() || host == loopback_v6() || host
            == localhost(),
        EndpointView::MeshRelay { .. } => false,
    }
}

/// `s` names a socket file: ends with `.sock`, ignoring ASCII case.
pub open spec fn names_socket_file(s: Seq<char>) -> bool {
    ends_with(ascii_lowercase(s), sock_suffix())
}

/// The `host:port` reading of `s`: split at the last `:`, port read as a `u16`.
pub open spec fn host_port(s: Seq<char>) -> Option<(Seq<char>, u16)> {
    match rsplit_once(s, ':') {
        Some((host, port)) => match parse_unsigned(port, u16::MAX as nat) {
            Some(p) => Some((host, p as u16)),
            None => None,
        },
        None => None,
    }
}

/// Strict address reading: a path (starts with `/` or names a socket file) is a Unix
/// socket, `host:port` with a non-empty host is TCP, anything else is no address.
pub open spec fn try_parse_address_spec(s: Seq<char>) -> Option<EndpointView> {
    if (s.len() > 0 && s[0] == '/') || names_socket_file(s) {
        Some(EndpointView::Uds { path: s })
    } else {
        match host_port(s) {
            Some((host, port)) => if host.len() > 0 {
                Some(EndpointView::Tcp { host, port })
            } else {
                None
            },
            None => None,
        }
    }
}

/// Lenient address reading: anything holding `/` or naming a socket file is a Unix
/// socket, `host:port` is TCP, anything else is taken as a Unix socket path.
pub open spec fn parse_address_spec(s: Seq<char>) -> EndpointView {
    if s.contains('/') || names_socket_file(s) {
        EndpointView::Uds { path: s }
    } else {
        match host_port(s) {
            Some((host, port)) => EndpointView::Tcp { host, port },
            None => EndpointView::Uds { path: s },
        }
    }
}

/// Where the strict reading accepts an address, the lenient reading gives the same
/// endpoint, provided the address holds no `/` past its first character (with one, the
/// lenient reading takes a path where the strict one may take `host:port`).
pub proof fn lemma_strict_reading_agrees_with_lenient(s: Seq<char>)
    requires
        try_parse_address_spec(s) is Some,
        (s.len() > 0 && s[0] == '/') || !s.contains('/'),
    ensures
        try_parse_address_spec(s) == Some(parse_address_spec(s)),
{
    if s.len() > 0 && s[0] == '/' {
        assert(s.contains('/'));
    }
}

/// Display form: `unix://path`, `tcp://host:port` or `mesh://peer/capability`.
pub open spec fn endpoint_text(e: EndpointView) -> Seq<char> {
    match e {
        EndpointView::Uds { path } => "unix://"@ + path,
        EndpointView::Tcp { host, port } => "tcp://"@ + host + ":"@ + decimal(port as nat),
        EndpointView::MeshRelay { peer_id, capability } => "mesh://"@ + peer_id + "/"@
            + capability,
    }
}

/// Reads `s` as `host:port`.
fn split_host_port(s: &str) -> (r: Option<(String, u16)>)
    ensures
        match r {
            Some((h, p)) => host_port(s@) == Some((h@, p)),
            None => host_port(s@) is None,
        },
{
    match rfind_char(s, ':') {
        Some(i) => {
            let n = s.unicode_len();
            let port_text = substring(s, i + 1, n);
            match parse_u16(port_text.as_str()) {
                Some(port) => Some((substring(s, 0, i), port)),
                None => None,
            }
        },
        None => None,
    }
}

impl TransportEndpoint {
    /// A TCP endpoint.
    pub fn tcp(host: &str, port: u16) -> (r: Self)
        ensures
            r@ == (EndpointView::Tcp { host: host@, port }),
    {
        TransportEndpoint::Tcp { host: String::from_str(host), port }
    }

    /// A Unix socket endpoint.
    pub fn uds(path: &str) -> (r: Self)
        ensures
            r@ == (EndpointView::Uds { path: path@ }),
    {
        TransportEndpoint::Uds { path: String::from_str(path) }
    }

    /// `(host, port)` for a TCP endpoint, `None` for the others.
    pub fn tcp_addr(&self) -> (r: Option<(&str, u16)>)
        ensures
            match (r, self@) {
                (Some((h, p)), EndpointView::Tcp { host, port }) => h@ == host && p == port,
                (None, EndpointView::Tcp { .. }) => false,
                (Some(_), _) => false,
                (None, _) => true,
            },
    {
        match self {
            TransportEndpoint::Tcp { host, port } => Some((host.as_str(), *port)),
            _ => None,
        }
    }

    /// Whether the endpoint is local: a Unix socket, or TCP to `127.0.0.1`, `::1` or
    /// `localhost`.
    pub fn is_local(&self) -> (r: bool)
        ensures
            r == is_local_spec(self@),
    {
        match self {
            TransportEndpoint::Uds { .. } => true,
            TransportEndpoint::Tcp { host, .. } => {
                proof {
                    reveal_strlit("127.0.0.1");
                    reveal_strlit("::1");
                    reveal_strlit("localhost");
                }
                let a = str_equal(host.as_str(), "127.0.0.1");
                let b = str_equal(host.as_str(), "::1");
                let c = str_equal(host.as_str(), "localhost");
                proof {
                    assert("127.0.0.1"@ =~= loopback_v4());
                    assert("::1"@ =~= loopback_v6());
                    assert("localhost"@ =~= localhost());
                }
                a || b || c
            },
            TransportEndpoint::MeshRelay { .. } => false,
        }
    }

    /// Strict reading of an address string; `None` where it is neither a path nor
    /// `host:port` with a non-empty host.
    pub fn try_parse_address(s: &str) -> (r: Option<Self>)
        ensures
            match r {
                Some(e) => try_parse_address_spec(s@) == Some(e@),
                None => try_parse_address_spec(s@) is None,
            },
    {
        if starts_with_char(s, '/') || ends_with_sock_ignore_ascii_case(s) {
            return Some(TransportEndpoint::Uds { path: String::from_str(s) });
        }
        match split_host_port(s) {
            Some((host, port)) => {
                if host.as_str().unicode_len() > 0 {
                    Some(TransportEndpoint::Tcp { host, port })
                } else {
                    None
                }
            },
            None => None,
        }
    }

    /// Lenient reading of an address string: a path, else `host:port`, else a path.
    pub fn parse_address(s: &str) -> (r: Self)
        ensures
            r@ == parse_address_spec(s@),
    {
        if contains_char(s, '/') || ends_with_sock_ignore_ascii_case(s) {
            return TransportEndpoint::Uds { path: String::from_str(s) };
        }
        match split_host_port(s) {
            Some((host, port)) => TransportEndpoint::Tcp { host, port },
            None => TransportEndpoint::Uds { path: String::from_str(s) },
        }
    }

    /// The platform default endpoint of a primal: the Unix socket at its socket path
    /// where the platform has path-based sockets, else TCP to `127.0.0.1` on
    /// `default_port`.
    pub fn platform_default(primal_name: &str, default_port: u16, env: &SocketEnv) -> (r: Self)
        ensures
            r@ == (match socket_path_for_primal_spec(primal_name@, env@) {
                Some(path) => EndpointView::Uds { path },
                None => EndpointView::Tcp { host: loopback_v4(), port: default_port },
            }),
    {
        match socket_path_for_primal(primal_name, env) {
            Some(path) => TransportEndpoint::Uds { path },
            None => {
                proof {
                    reveal_strlit("127.0.0.1");
                    assert("127.0.0.1"@ =~= loopback_v4());
                }
                Self::tcp("127.0.0.1", default_port)
            },
        }
    }

    /// The endpoint a primal is configured with: a `TRANSPORT_ENDPOINT` value already
    /// read as an endpoint wins, then a `{PREFIX}_ADDRESS` value read leniently, then the
    /// platform default.
    pub fn from_env_or_default(
        endpoint_setting: Option<TransportEndpoint>,
        address_setting: Option<&str>,
        primal_name: &str,
        default_port: u16,
        env: &SocketEnv,
    ) -> (r: Self)
        ensures
            r@ == (match endpoint_setting {
                Some(e) => e@,
                None => match address_setting {
                    Some(a) => parse_address_spec(a@),
                    None => match socket_path_for_primal_spec(primal_name@, env@) {
                        Some(path) => EndpointView::Uds { path },
                        None => EndpointView::Tcp { host: loopback_v4(), port: default_port },
                    },
                },
            }),
    {
        match endpoint_setting {
            Some(e) => e,
            None => match address_setting {
                Some(a) => Self::parse_address(a),
                None => Self::platform_default(primal_name, default_port, env),
            },
        }
    }

    /// Display form: `unix://path`, `tcp://host:port` or `mesh://peer/capability`.
    pub fn to_string(&self) -> (s: String)
        ensures
            s@ == endpoint_text(self@),
    {
        match self {
            TransportEndpoint::Uds { path } => {
                let mut s = String::from_str("unix://");
                s.append(path.as_str());
                s
            },
            TransportEndpoint::Tcp { host, port } => {
                let mut s = String::from_str("tcp://");
                s.append(host.as_str());
                s.append(":");
                push_decimal(&mut s, *port as u64);
                s
            },
            TransportEndpoint::MeshRelay { peer_id, capability } => {
                let mut s = String::from_str("mesh://");
                s.append(peer_id.as_str());
                s.append("/");
                s.append(capability.as_str());
                s
            },
        }
    }
}

/// The name of the variable that holds a primal's address: `{prefix}_ADDRESS`.
pub fn address_env_key(primal_env_prefix: &str) -> (r: String)
    ensures
        r@ == primal_env_prefix@ + "_ADDRESS"@,
{
    let mut r = String::from_str(primal_env_prefix);
    r.append("_ADDRESS");
    r
}

} // verus!
