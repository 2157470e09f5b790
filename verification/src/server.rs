//! Transport planning for the discovery server: decides, from the endpoint
//! string alone, whether to serve on a local Unix domain socket or on a
//! network listener, and fixes the socket-file lifecycle for the local case.

use crate::addr::is_socket_addr;
use crate::addr::validate_socket_addr;
use vstd::prelude::*;
use vstd::string::StrSliceExecFns;
use vstd::string::StringExecFns;

verus! {

/// `prefix` is a prefix of `s`.
pub open spec fn is_prefix_of(prefix: Seq<char>, s: Seq<char>) -> bool {
    prefix.len() <= s.len() && s.subrange(0, prefix.len() as int) == prefix
}

/// Whether `s` starts with `prefix`.
pub fn str_starts_with(s: &str, prefix: &str) -> (r: bool)
    ensures
        r == is_prefix_of(prefix@, s@),
{
    let n = prefix.unicode_len();
    if n > s.unicode_len() {
        return false;
    }
    let mut i: usize = 0;
    while i < n
        invariant
            i <= n,
            n == prefix@.len(),
            n <= s@.len(),
            forall|j: int| 0 <= j < i ==> s@[j] == prefix@[j],
        decreases n - i,
    {
        if s.get_char(i) != prefix.get_char(i) {
            assert(s@.subrange(0, n as int)[i as int] != prefix@[i as int]);
            return false;
        }
        i += 1;
    }
    proof {
        assert(s@.subrange(0, n as int) =~= prefix@);
    }
    true
}

/// The endpoint is served on a local socket file: it lies under the
/// discovery handlers directory.
pub open spec fn serves_on_socket(endpoint: Seq<char>, directory: Seq<char>) -> bool {
    is_prefix_of(directory, endpoint)
}

/// The endpoint is served on a network listener: it is not under the
/// handlers directory and it is a valid socket address.
pub open spec fn serves_on_network(endpoint: Seq<char>, directory: Seq<char>) -> bool {
    !is_prefix_of(directory, endpoint) && is_socket_addr(endpoint)
}

/// The endpoint is rejected: it is neither under the handlers directory nor
/// a valid socket address.
pub open spec fn rejected_endpoint(endpoint: Seq<char>, directory: Seq<char>) -> bool {
    !is_prefix_of(directory, endpoint) && !is_socket_addr(endpoint)
}

/// Law: transport dispatch is total and mutually exclusive. Every endpoint
/// string falls in exactly one of the three cases: served on the local
/// socket, served at a network address, or rejected as an invalid address.
pub proof fn lemma_transport_dispatch_total(endpoint: Seq<char>, directory: Seq<char>)
    ensures
        serves_on_socket(endpoint, directory) || serves_on_network(endpoint, directory)
            || rejected_endpoint(endpoint, directory),
        !(serves_on_socket(endpoint, directory) && serves_on_network(endpoint, directory)),
        !(serves_on_socket(endpoint, directory) && rejected_endpoint(endpoint, directory)),
        !(serves_on_network(endpoint, directory) && rejected_endpoint(endpoint, directory)),
{
}

/// How the discovery service will be served.
pub enum TransportPlan {
    /// Bind a listener on the local socket file at the endpoint path.
    UnixSocket { socket_path: String },
    /// Bind a network listener at the validated socket address.
    Network { address: String },
}

/// A transport failure that is fatal for the server.
#[derive(Debug)]
pub enum ServerError {
    /// The endpoint is neither under the handlers directory nor a valid
    /// socket address.
    InvalidAddress { endpoint: String },
    /// Preparing the socket directory or binding the listener failed.
    Bind { detail: String },
}

impl ServerError {
    /// Human-readable message. The wording for an invalid address is a
    /// compatibility contract and is kept exactly.
    pub fn message(&self) -> (r: String)
        ensures
            (self matches ServerError::InvalidAddress { .. } ==> r@
                == "invalid IP address syntax"@),
            (self matches ServerError::Bind { detail } ==> r@ == detail@),
    {
        match self {
            ServerError::InvalidAddress { .. } => String::from_str("invalid IP address syntax"),
            ServerError::Bind { detail } => detail.clone(),
        }
    }
}

/// Decides how to serve the given endpoint: endpoints under the handlers
/// directory are served on that socket file; all others must be valid socket
/// addresses and are served on a network listener; the rest are rejected.
pub fn plan_transport(endpoint: &str, handlers_directory: &str) -> (r: Result<
    TransportPlan,
    ServerError,
>)
    ensures
        serves_on_socket(endpoint@, handlers_directory@) ==> (r matches Ok(p) && p matches
            TransportPlan::UnixSocket { socket_path } && socket_path@ == endpoint@),
        serves_on_network(endpoint@, handlers_directory@) ==> (r matches Ok(p) && p matches
            TransportPlan::Network { address } && address@ == endpoint@),
        rejected_endpoint(endpoint@, handlers_directory@) ==> (r matches Err(e) && e matches
            ServerError::InvalidAddress { endpoint: rejected } && rejected@ == endpoint@),
{
    if str_starts_with(endpoint, handlers_directory) {
        Ok(TransportPlan::UnixSocket { socket_path: endpoint.to_owned() })
    } else if validate_socket_addr(endpoint) {
        Ok(TransportPlan::Network { address: endpoint.to_owned() })
    } else {
        Err(ServerError::InvalidAddress { endpoint: endpoint.to_owned() })
    }
}

/// One step of the Unix domain socket serving lifecycle.
#[derive(Clone, Copy, PartialEq, Eq, Structural, Debug)]
pub enum UdsAction {
    /// Create the socket file's parent directory if it is missing.
    EnsureParentDirectory,
    /// Remove a stale socket file left by an earlier run, if any.
    RemoveStaleSocket,
    /// Bind the listener, creating the socket file.
    BindListener,
    /// Serve requests until shutdown.
    Serve,
    /// Remove the socket file after the server stopped.
    RemoveSocket,
}

/// The order of the Unix domain socket serving lifecycle.
pub open spec fn uds_lifecycle_spec() -> Seq<UdsAction> {
    seq![
        UdsAction::EnsureParentDirectory,
        UdsAction::RemoveStaleSocket,
        UdsAction::BindListener,
        UdsAction::Serve,
        UdsAction::RemoveSocket,
    ]
}

/// The lifecycle steps for serving on a local socket file, in order.
pub fn uds_lifecycle() -> (r: Vec<UdsAction>)
    ensures
        r@ == uds_lifecycle_spec(),
{
    let mut v: Vec<UdsAction> = Vec::new();
    v.push(UdsAction::EnsureParentDirectory);
    v.push(UdsAction::RemoveStaleSocket);
    v.push(UdsAction::BindListener);
    v.push(UdsAction::Serve);
    v.push(UdsAction::RemoveSocket);
    proof {
        assert(v@ =~= uds_lifecycle_spec());
    }
    v
}

/// Whether the socket file exists after one lifecycle action, given whether
/// it existed before: removals delete it, binding creates it, the other
/// steps leave it alone.
pub open spec fn socket_after_action(present: bool, a: UdsAction) -> bool {
    match a {
        UdsAction::RemoveStaleSocket => false,
        UdsAction::RemoveSocket => false,
        UdsAction::BindListener => true,
        UdsAction::EnsureParentDirectory => present,
        UdsAction::Serve => present,
    }
}

/// Whether the socket file exists after a sequence of lifecycle actions.
pub open spec fn socket_after(actions: Seq<UdsAction>, present: bool) -> bool
    decreases actions.len(),
{
    if actions.len() == 0 {
        present
    } else {
        socket_after(actions.drop_first(), socket_after_action(present, actions[0]))
    }
}

/// Law: whatever was on disk at startup, a stale socket file is gone by the
/// moment the listener binds, and no socket file is left behind after a
/// graceful shutdown.
pub proof fn lemma_socket_file_lifecycle(stale_present: bool)
    ensures
        !socket_after(uds_lifecycle_spec().take(2), stale_present),
        !socket_after(uds_lifecycle_spec(), stale_present),
{
    let s = uds_lifecycle_spec();
    let empty = Seq::<UdsAction>::empty();
    let only_remove = seq![UdsAction::RemoveSocket];
    let from_serve = seq![UdsAction::Serve, UdsAction::RemoveSocket];
    let from_bind = seq![UdsAction::BindListener, UdsAction::Serve, UdsAction::RemoveSocket];
    let from_stale = seq![
        UdsAction::RemoveStaleSocket,
        UdsAction::BindListener,
        UdsAction::Serve,
        UdsAction::RemoveSocket,
    ];
    assert(only_remove.drop_first() =~= empty);
    assert(from_serve.drop_first() =~= only_remove);
    assert(from_bind.drop_first() =~= from_serve);
    assert(from_stale.drop_first() =~= from_bind);
    assert(s.drop_first() =~= from_stale);
    assert(!socket_after(empty, false));
    assert(!socket_after(only_remove, true));
    assert(!socket_after(from_serve, true));
    assert(!socket_after(from_bind, false));
    assert(!socket_after(from_stale, stale_present));
    assert(!socket_after(s, stale_present));
    let t2 = s.take(2);
    let only_stale = seq![UdsAction::RemoveStaleSocket];
    assert(only_stale.drop_first() =~= empty);
    assert(t2 =~= seq![UdsAction::EnsureParentDirectory, UdsAction::RemoveStaleSocket]);
    assert(t2.drop_first() =~= only_stale);
    assert(!socket_after(only_stale, stale_present));
    assert(!socket_after(t2, stale_present));
}

} // verus!
