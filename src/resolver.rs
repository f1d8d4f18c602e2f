//! Resolution of a symbolic actor path to an address, possibly by asking a
//! peer node.

use crate::addr::{AnyAddr, LocalHandle, PeerAddr};
use vstd::prelude::*;

verus! {

/// How far a request may look: only in this process, or also at a peer.
#[derive(Clone, Copy, Debug, PartialEq, Eq, Structural)]
pub enum AddrRepresentation {
    Local,
    Network,
}

/// A request to resolve the actor at `path`.
#[derive(Debug)]
pub struct AddrRequest {
    pub path: String,
    pub repr: AddrRepresentation,
}

/// Why a resolution failed.
#[derive(Clone, Copy, Debug, PartialEq, Eq, Structural)]
pub enum FailureReason {
    UnknownPath,
    Unreachable,
    Timeout,
}

/// A peer's answer to a forwarded request.
#[derive(Debug)]
pub enum AddrResponse {
    Resolved(AnyAddr),
    Failed(FailureReason),
}

/// The state of one resolution. `Requested` waits for `peer`'s answer since
/// time `issued_at`; the other two are final.
#[derive(Debug)]
pub enum Resolution {
    Requested { peer: PeerAddr, issued_at: u64 },
    Resolved(AnyAddr),
    Failed(FailureReason),
}

/// What can happen to a pending resolution.
#[derive(Debug)]
pub enum ResolverEvent {
    /// The peer asked answered.
    Answered(AddrResponse),
    /// The clock reads the given time.
    Tick(u64),
    /// The connection to the given peer was lost.
    PeerLost(PeerAddr),
}

/// Whether a request issued at `issued_at` has run out of time at `now`.
pub open spec fn expired(issued_at: u64, now: u64, timeout: u64) -> bool {
    now >= issued_at && now - issued_at >= timeout
}

/// The state after event `e`, with `timeout` as the longest a request may
/// stay pending. Final states never change.
pub open spec fn next_state(s: Resolution, e: ResolverEvent, timeout: u64) -> Resolution {
    match s {
        Resolution::Requested { peer, issued_at } => match e {
            ResolverEvent::Answered(AddrResponse::Resolved(a)) => Resolution::Resolved(a),
            ResolverEvent::Answered(AddrResponse::Failed(why)) => Resolution::Failed(why),
            ResolverEvent::Tick(now) => if expired(issued_at, now, timeout) {
                Resolution::Failed(FailureReason::Timeout)
            } else {
                s
            },
            ResolverEvent::PeerLost(p) => if p == peer {
                Resolution::Failed(FailureReason::Unreachable)
            } else {
                s
            },
        },
        _ => s,
    }
}

impl Resolution {
    /// Whether the resolution is over.
    pub open spec fn is_final(&self) -> bool {
        !(self is Requested)
    }

    /// Takes in one event.
    pub fn step(self, e: ResolverEvent, timeout: u64) -> (r: Resolution)
        ensures
            r == next_state(self, e, timeout),
    {
        match self {
            Resolution::Requested { peer, issued_at } => match e {
                ResolverEvent::Answered(AddrResponse::Resolved(a)) => Resolution::Resolved(a),
                ResolverEvent::Answered(AddrResponse::Failed(why)) => Resolution::Failed(why),
                ResolverEvent::Tick(now) => {
                    if now >= issued_at && now - issued_at >= timeout {
                        Resolution::Failed(FailureReason::Timeout)
                    } else {
                        Resolution::Requested { peer, issued_at }
                    }
                },
                ResolverEvent::PeerLost(p) => {
                    if p == peer {
                        Resolution::Failed(FailureReason::Unreachable)
                    } else {
                        Resolution::Requested { peer, issued_at }
                    }
                },
            },
            _ => self,
        }
    }
}

/// A final state stays as it is whatever happens next.
pub proof fn lemma_final_states_stay(s: Resolution, e: ResolverEvent, timeout: u64)
    requires
        s.is_final(),
    ensures
        next_state(s, e, timeout) == s,
{
}

/// A pending request whose time has run out fails with `Timeout` at the
/// next tick; it never waits past its bound.
pub proof fn lemma_pending_request_times_out(peer: PeerAddr, issued_at: u64, now: u64, timeout: u64)
    requires
        expired(issued_at, now, timeout),
    ensures
        next_state(
            Resolution::Requested { peer, issued_at },
            ResolverEvent::Tick(now),
            timeout,
        ) == Resolution::Failed(FailureReason::Timeout),
{
}

/// Whether no path occurs twice in `s`.
pub open spec fn unique_paths(s: Seq<(Seq<char>, LocalHandle)>) -> bool {
    forall|i: int, j: int| 0 <= i < j < s.len() ==> #[trigger] s[i].0 != #[trigger] s[j].0
}

/// Whether `path` is registered in `s`.
pub open spec fn has_path(s: Seq<(Seq<char>, LocalHandle)>, path: Seq<char>) -> bool {
    exists|i: int| 0 <= i < s.len() && #[trigger] s[i].0 == path
}

/// The actors of this process by path, and the resolutions that start from
/// them.
#[derive(Debug)]
pub struct AddrResolver {
    registry: Vec<(String, LocalHandle)>,
}

impl View for AddrResolver {
    type V = Seq<(Seq<char>, LocalHandle)>;

    closed spec fn view(&self) -> Seq<(Seq<char>, LocalHandle)> {
        self.registry@.map_values(|e: (String, LocalHandle)| (e.0@, e.1))
    }
}

/// The state a request starts in: answered here when the path is
/// registered in `reg`, failed when it may not or cannot leave this process,
/// and otherwise waiting for `peer` from `now` on.
pub open spec fn initial_state(
    reg: Seq<(Seq<char>, LocalHandle)>,
    path: Seq<char>,
    repr: AddrRepresentation,
    peer: Option<PeerAddr>,
    now: u64,
) -> Resolution {
    if has_path(reg, path) {
        Resolution::Resolved(AnyAddr::Local(reg[choose|i: int| 0 <= i < reg.len() && #[trigger] reg[i].0 == path].1))
    } else if repr == AddrRepresentation::Local {
        Resolution::Failed(FailureReason::UnknownPath)
    } else {
        match peer {
            None => Resolution::Failed(FailureReason::Unreachable),
            Some(p) => Resolution::Requested { peer: p, issued_at: now },
        }
    }
}

impl AddrResolver {
    /// Well-formed: a path is registered at most once.
    pub open spec fn wf(&self) -> bool {
        unique_paths(self@)
    }

    /// A resolver that knows no local actor.
    pub fn new() -> (r: AddrResolver)
        ensures
            r.wf(),
            r@.len() == 0,
    {
        AddrResolver { registry: Vec::new() }
    }

    /// The handle registered under `path`, if any.
    pub fn lookup(&self, path: &String) -> (r: Option<LocalHandle>)
        requires
            self.wf(),
        ensures
            r is None <==> !has_path(self@, path@),
            r is Some ==> exists|i: int|
                0 <= i < self@.len() && #[trigger] self@[i].0 == path@ && self@[i].1 == r->Some_0,
    {
        let mut i: usize = 0;
        while i < self.registry.len()
            invariant
                i <= self@.len(),
                self@.len() == self.registry@.len(),
                forall|k: int| 0 <= k < i ==> #[trigger] self@[k].0 != path@,
            decreases self.registry@.len() - i,
        {
            if self.registry[i].0 == *path {
                assert(self@[i as int].0 == path@);
                return Some(self.registry[i].1);
            }
            i = i + 1;
        }
        None
    }

    /// Registers a local actor under `path`. Returns false, changing
    /// nothing, when the path is taken.
    pub fn register(&mut self, path: String, h: LocalHandle) -> (r: bool)
        requires
            old(self).wf(),
        ensures
            final(self).wf(),
            r == !has_path(old(self)@, path@),
            r ==> final(self)@ == old(self)@.push((path@, h)),
            !r ==> final(self)@ == old(self)@,
    {
        match self.lookup(&path) {
            Some(_) => false,
            None => {
                let ghost before = self@;
                self.registry.push((path, h));
                assert(self@ =~= before.push((path@, h)));
                true
            },
        }
    }

    /// Starts resolving `req` at time `now`, with `peer` the node believed
    /// to host the path, if one is known.
    pub fn start(&self, req: &AddrRequest, peer: Option<PeerAddr>, now: u64) -> (r: Resolution)
        requires
            self.wf(),
        ensures
            r == initial_state(self@, req.path@, req.repr, peer, now),
    {
        match self.lookup(&req.path) {
            Some(h) => {
                let ghost i = choose|i: int| 0 <= i < self@.len() && #[trigger] self@[i].0 == req.path@;
                proof {
                    let j = choose|j: int|
                        0 <= j < self@.len() && #[trigger] self@[j].0 == req.path@ && self@[j].1 == h;
                    assert(i == j);
                }
                Resolution::Resolved(AnyAddr::Local(h))
            },
            None => match req.repr {
                AddrRepresentation::Local => Resolution::Failed(FailureReason::UnknownPath),
                AddrRepresentation::Network => match peer {
                    None => Resolution::Failed(FailureReason::Unreachable),
                    Some(p) => Resolution::Requested { peer: p, issued_at: now },
                },
            },
        }
    }
}

} // verus!
