//! Actor addresses: in-process handles and node-qualified remote paths.

use vstd::prelude::*;

verus! {

/// Network address of a peer node: the host as a 128-bit IP address
/// (IPv4 hosts in their IPv6-mapped form) and the port.
#[derive(Clone, Copy, Debug, PartialEq, Eq, Structural)]
pub struct PeerAddr {
    pub host: u128,
    pub port: u16,
}

/// Handle of an actor living in this process, as an index into the
/// runtime's table of actors.
#[derive(Clone, Copy, Debug, PartialEq, Eq, Structural)]
pub struct LocalHandle {
    pub id: u64,
}

/// Where a send ends up: directly in a local mailbox, or with the network
/// interface that owns the connection to a peer.
#[derive(Clone, Copy, Debug, PartialEq, Eq, Structural)]
pub enum Route {
    Mailbox(LocalHandle),
    Network(PeerAddr),
}

/// Address of an actor on some node: the node's network address, the
/// actor's path there, and a local handle once the path has been found to
/// live in this process.
#[derive(Debug)]
pub struct RemoteAddr {
    peer: PeerAddr,
    path: String,
    cached: Option<LocalHandle>,
}

/// The mathematical value of a `RemoteAddr`.
pub struct RemoteAddrView {
    pub peer: PeerAddr,
    pub path: Seq<char>,
    pub cached: Option<LocalHandle>,
}

impl View for RemoteAddr {
    type V = RemoteAddrView;

    closed spec fn view(&self) -> RemoteAddrView {
        RemoteAddrView { peer: self.peer, path: self.path@, cached: self.cached }
    }
}

/// The route a send to `a` takes: the cached local handle if there is one,
/// else the network interface of `a`'s peer.
pub open spec fn remote_route(a: RemoteAddrView) -> Route {
    match a.cached {
        Some(h) => Route::Mailbox(h),
        None => Route::Network(a.peer),
    }
}

/// The cache after offering handle `h` to `a`: it is set at most once.
pub open spec fn with_cache(a: RemoteAddrView, h: LocalHandle) -> RemoteAddrView {
    match a.cached {
        Some(_) => a,
        None => RemoteAddrView { cached: Some(h), ..a },
    }
}

impl Clone for RemoteAddr {
    fn clone(&self) -> (r: Self)
        ensures
            r@ == self@,
    {
        RemoteAddr { peer: self.peer, path: self.path.clone(), cached: self.cached }
    }
}

impl RemoteAddr {
    /// An unresolved address of the actor at `path` on node `peer`.
    pub fn new(peer: PeerAddr, path: String) -> (r: RemoteAddr)
        ensures
            r@ == (RemoteAddrView { peer, path: path@, cached: None }),
    {
        RemoteAddr { peer, path, cached: None }
    }

    /// The network address of the node the actor lives on.
    pub fn peer(&self) -> (r: PeerAddr)
        ensures
            r == self@.peer,
    {
        self.peer
    }

    /// The actor's path on its node.
    pub fn path(&self) -> (r: &String)
        ensures
            r@ == self@.path,
    {
        &self.path
    }

    /// The local handle cached in this address, if any.
    pub fn cached(&self) -> (r: Option<LocalHandle>)
        ensures
            r == self@.cached,
    {
        self.cached
    }

    /// Records that the actor lives in this process under `h`. An address
    /// that already holds a handle keeps it: the cache never changes once set.
    pub fn cache_local(&mut self, h: LocalHandle)
        ensures
            final(self)@ == with_cache(old(self)@, h),
    {
        if self.cached.is_none() {
            self.cached = Some(h);
        }
    }

    /// Where a send to this address goes.
    pub fn route(&self) -> (r: Route)
        ensures
            r == remote_route(self@),
    {
        match self.cached {
            Some(h) => Route::Mailbox(h),
            None => Route::Network(self.peer),
        }
    }

    /// Whether both addresses name the same member: they are compared by
    /// their peer's network address, never by a cached handle or path.
    pub fn same_member(&self, other: &RemoteAddr) -> (r: bool)
        ensures
            r == (self@.peer == other@.peer),
    {
        self.peer == other.peer
    }
}

/// An actor address that is either in-process or remote.
#[derive(Debug)]
pub enum AnyAddr {
    Local(LocalHandle),
    Remote(RemoteAddr),
}

/// The route a send to `a` takes.
pub open spec fn any_route(a: AnyAddr) -> Route {
    match a {
        AnyAddr::Local(h) => Route::Mailbox(h),
        AnyAddr::Remote(r) => remote_route(r@),
    }
}

impl Clone for AnyAddr {
    fn clone(&self) -> (r: Self)
        ensures
            any_route(r) == any_route(*self),
            match (r, *self) {
                (AnyAddr::Local(a), AnyAddr::Local(b)) => a == b,
                (AnyAddr::Remote(a), AnyAddr::Remote(b)) => a@ == b@,
                _ => false,
            },
    {
        match self {
            AnyAddr::Local(h) => AnyAddr::Local(*h),
            AnyAddr::Remote(r) => AnyAddr::Remote(r.clone()),
        }
    }
}

impl AnyAddr {
    /// Where a send to this address goes. A local address always goes to
    /// its mailbox and never to the network; a remote one without a cached
    /// handle always goes to the network interface of its peer.
    pub fn route(&self) -> (r: Route)
        ensures
            r == any_route(*self),
            self is Local ==> r is Mailbox && r->Mailbox_0 == self->Local_0,
            self is Remote && self->Remote_0@.cached is None ==> r == Route::Network(
                self->Remote_0@.peer,
            ),
    {
        match self {
            AnyAddr::Local(h) => Route::Mailbox(*h),
            AnyAddr::Remote(r) => r.route(),
        }
    }

    /// Offers a local handle to a remote address's cache; a local address
    /// is left as it is.
    pub fn cache_local(&mut self, h: LocalHandle)
        ensures
            match (*old(self), *final(self)) {
                (AnyAddr::Local(a), AnyAddr::Local(b)) => a == b,
                (AnyAddr::Remote(a), AnyAddr::Remote(b)) => b@ == with_cache(a@, h),
                _ => false,
            },
    {
        match self {
            AnyAddr::Local(_) => {},
            AnyAddr::Remote(r) => r.cache_local(h),
        }
    }
}

} // verus!
