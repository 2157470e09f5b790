//! Endpoint resolution: decides whether this handler is reachable over the
//! network or over a local Unix domain socket, computes the literal endpoint
//! string, and builds the registration request advertised to the agent.

use vstd::prelude::*;
use vstd::string::StringExecFns;

verus! {

/// Transport family over which a discovery handler is reachable.
#[derive(Clone, Copy, PartialEq, Eq, Structural, Debug)]
pub enum EndpointType {
    UnixSocket,
    Network,
}

/// Fixed well-known port at which every networked discovery handler serves.
/// Its decimal rendering is the suffix appended to the pod address.
pub const DISCOVERY_PORT: u16 = 10000;

/// Capacity of the channel over which the discovery service signals that the
/// handler should re-register because the agent dropped its connection.
/// Capacity one makes overlapping signals coalesce into a single one.
pub const REGISTER_AGAIN_CHANNEL_CAPACITY: usize = 1;

/// Capacity of the channel over which a discovery capability sends device
/// updates to the response stream. The consumer is assumed to be always
/// listening; the slack only absorbs delays in receiving.
pub const DISCOVERED_DEVICES_CHANNEL_CAPACITY: usize = 4;

/// A resolved serving endpoint: the transport family together with the
/// literal address (socket path, or `host:port`) at which the server binds.
pub struct ResolvedEndpoint {
    pub endpoint_type: EndpointType,
    pub endpoint: String,
}

/// Required environment configuration is missing; fatal at startup.
#[derive(Debug)]
pub struct ConfigError {
    pub detail: String,
}

impl ConfigError {
    /// Human-readable description of the failure.
    pub fn message(&self) -> (r: String)
        ensures
            r@ == self.detail@,
    {
        self.detail.clone()
    }
}

/// The endpoint string of a handler reachable over the network:
/// the pod address followed by the fixed discovery port.
pub open spec fn network_endpoint_spec(pod_address: Seq<char>) -> Seq<char> {
    pod_address + ":10000"@
}

/// The endpoint string of a handler reachable over a local socket:
/// a socket file named after the protocol, under the handlers directory.
pub open spec fn socket_endpoint_spec(directory: Seq<char>, protocol_name: Seq<char>) -> Seq<char> {
    directory + "/"@ + protocol_name + ".sock"@
}

/// Decides, from the process environment, where this handler is reachable.
///
/// A present pod network address means the handler serves over the network at
/// that address and the fixed discovery port; otherwise it serves on a local
/// socket under the handlers directory, which must then be configured.
pub fn resolve_endpoint(
    pod_address: Option<String>,
    handlers_directory: Option<String>,
    protocol_name: &str,
) -> (r: Result<ResolvedEndpoint, ConfigError>)
    ensures
        (pod_address matches Some(ip) ==> r matches Ok(e) && e.endpoint_type
            == EndpointType::Network && e.endpoint@ == network_endpoint_spec(ip@)),
        (pod_address matches None ==> (handlers_directory matches Some(d) ==> r matches Ok(e)
            && e.endpoint_type == EndpointType::UnixSocket && e.endpoint@
            == socket_endpoint_spec(d@, protocol_name@))),
        ((pod_address matches None && handlers_directory matches None) ==> r matches Err(_)),
{
    match pod_address {
        Some(ip) => Ok(ResolvedEndpoint {
            endpoint_type: EndpointType::Network,
            endpoint: ip.concat(":10000"),
        }),
        None => match handlers_directory {
            Some(directory) => {
                let mut endpoint = directory;
                endpoint.append("/");
                endpoint.append(protocol_name);
                endpoint.append(".sock");
                Ok(ResolvedEndpoint { endpoint_type: EndpointType::UnixSocket, endpoint })
            },
            None => Err(
                ConfigError {
                    detail: String::from_str(
                        "discovery handlers directory is not configured and no pod network address is set",
                    ),
                },
            ),
        },
    }
}

/// The endpoint advertised to the agent: network endpoints carry the scheme
/// marker in front of the serving address, socket endpoints are advertised
/// verbatim.
pub open spec fn advertised_endpoint_spec(t: EndpointType, endpoint: Seq<char>) -> Seq<char> {
    match t {
        EndpointType::Network => "http://"@ + endpoint,
        EndpointType::UnixSocket => endpoint,
    }
}

/// Law: the advertised endpoint carries the scheme marker exactly for
/// network endpoints; a socket endpoint is advertised verbatim.
pub proof fn lemma_advertised_endpoint_marker(t: EndpointType, endpoint: Seq<char>)
    ensures
        t == EndpointType::Network ==> crate::server::is_prefix_of(
            "http://"@,
            advertised_endpoint_spec(t, endpoint),
        ),
        t == EndpointType::UnixSocket ==> advertised_endpoint_spec(t, endpoint) == endpoint,
{
    if t == EndpointType::Network {
        assert(("http://"@ + endpoint).subrange(0, "http://"@.len() as int) =~= "http://"@);
    }
}

/// Law: the endpoint resolved from a valid IPv4 pod address is itself a
/// valid socket address, so the transport planner accepts it for network
/// serving (provided it does not lie under the handlers directory).
pub proof fn lemma_network_endpoint_is_valid_addr(pod_address: Seq<char>)
    requires
        crate::addr::is_ipv4(pod_address),
    ensures
        crate::addr::is_socket_addr(network_endpoint_spec(pod_address)),
{
    let s = network_endpoint_spec(pod_address);
    let suffix = ":10000"@;
    reveal_strlit(":10000");
    assert(suffix.len() == 6);
    assert(suffix[0] == ':' && suffix[1] == '1' && suffix[2] == '0' && suffix[3] == '0'
        && suffix[4] == '0' && suffix[5] == '0');
    let pod_len = pod_address.len() as int;
    crate::addr::lemma_ipv4_chars(pod_address);
    assert(s[pod_len] == ':');
    assert forall|p: int| 0 <= p < pod_len implies s[p] != ':' by {
        assert(s[p] == pod_address[p]);
        assert(crate::addr::is_dec_digit(pod_address[p]) || pod_address[p] == '.');
    }
    crate::addr::lemma_find_first(s, ':', 0, pod_len);
    let c = crate::addr::find(s, ':', 0);
    assert(s.subrange(0, c) =~= pod_address);
    let port = s.subrange(c + 1, s.len() as int);
    assert(port =~= seq!['1', '0', '0', '0', '0']);
    lemma_port_10000_digits(port);
    let i = crate::addr::find(pod_address, '.', 0);
    crate::addr::lemma_find_bounds(pod_address, '.', 0);
    assert(crate::addr::is_dec_octet(pod_address.subrange(0, i)));
    assert(pod_address.subrange(0, i).len() >= 1);
    assert(pod_address.subrange(0, i)[0] == pod_address[0]);
    assert(crate::addr::is_dec_digit(pod_address[0]));
    assert(s[0] != '[');
    assert(crate::addr::is_ipv4_socket_addr(s));
}

/// The decimal rendering of the fixed discovery port is a valid port.
proof fn lemma_port_10000_digits(port: Seq<char>)
    requires
        port == seq!['1', '0', '0', '0', '0'],
    ensures
        crate::addr::is_port(port),
{
    let d1 = seq!['1'];
    let d2 = seq!['1', '0'];
    let d3 = seq!['1', '0', '0'];
    let d4 = seq!['1', '0', '0', '0'];
    assert(d1.drop_last() =~= Seq::<char>::empty());
    assert(d2.drop_last() =~= d1);
    assert(d3.drop_last() =~= d2);
    assert(d4.drop_last() =~= d3);
    assert(port.drop_last() =~= d4);
    assert(crate::addr::dec_val(Seq::<char>::empty()) == 0);
    assert(crate::addr::dec_val(d1) == 1);
    assert(crate::addr::dec_val(d2) == 10);
    assert(crate::addr::dec_val(d3) == 100);
    assert(crate::addr::dec_val(d4) == 1000);
    assert(crate::addr::dec_val(port) == 10000);
    assert(crate::addr::all_dec_digits(port));
}

/// The registration message sent to the agent. Immutable once constructed;
/// re-registration reuses the identical value.
pub struct RegisterDiscoveryHandlerRequest {
    pub name: String,
    pub endpoint: String,
    pub endpoint_type: EndpointType,
    pub shared: bool,
}

impl RegisterDiscoveryHandlerRequest {
    /// Builds the registration message for a resolved endpoint: the protocol
    /// name, the advertised form of the endpoint, its transport family, and
    /// whether several consumers may share this handler.
    pub fn new(protocol_name: &str, resolved: &ResolvedEndpoint, shared: bool) -> (r: Self)
        ensures
            r.name@ == protocol_name@,
            r.endpoint@ == advertised_endpoint_spec(resolved.endpoint_type, resolved.endpoint@),
            r.endpoint_type == resolved.endpoint_type,
            r.shared == shared,
    {
        let endpoint = match resolved.endpoint_type {
            EndpointType::Network => String::from_str("http://").concat(resolved.endpoint.as_str()),
            EndpointType::UnixSocket => resolved.endpoint.clone(),
        };
        RegisterDiscoveryHandlerRequest {
            name: protocol_name.to_owned(),
            endpoint,
            endpoint_type: resolved.endpoint_type,
            shared,
        }
    }
}

} // verus!
