//! Membership events and the record that a listener keeps of them.

use crate::addr::{LocalHandle, PeerAddr, RemoteAddr, RemoteAddrView, Route};
use crate::handler::Delivery;
use vstd::prelude::*;

verus! {

/// A change in cluster membership: a peer joined, with the address of its
/// network interface, or a peer left.
#[derive(Debug)]
pub enum ClusterLog {
    NewMember(PeerAddr, RemoteAddr),
    MemberLeft(PeerAddr),
}

/// The mathematical value of a `ClusterLog`.
pub enum ClusterLogView {
    NewMember(PeerAddr, RemoteAddrView),
    MemberLeft(PeerAddr),
}

impl View for ClusterLog {
    type V = ClusterLogView;

    open spec fn view(&self) -> ClusterLogView {
        match self {
            ClusterLog::NewMember(p, a) => ClusterLogView::NewMember(*p, a@),
            ClusterLog::MemberLeft(p) => ClusterLogView::MemberLeft(*p),
        }
    }
}

impl Clone for ClusterLog {
    fn clone(&self) -> (r: Self)
        ensures
            r@ == self@,
    {
        match self {
            ClusterLog::NewMember(addr, remote_addr) => ClusterLog::NewMember(*addr, remote_addr.clone()),
            ClusterLog::MemberLeft(addr) => ClusterLog::MemberLeft(*addr),
        }
    }
}

/// One copy of `e` for each listener, in the listeners' order.
pub open spec fn broadcast_to(listeners: Seq<LocalHandle>, e: ClusterLogView, out: Seq<
    Delivery<ClusterLog>,
>) -> bool {
    &&& out.len() == listeners.len()
    &&& forall|k: int|
        0 <= k < listeners.len() ==> {
            &&& (#[trigger] out[k]).route == Route::Mailbox(listeners[k])
            &&& out[k].message@ == e
        }
}

/// Hands `e` to every registered listener exactly once, in order.
pub fn broadcast(listeners: &Vec<LocalHandle>, e: &ClusterLog) -> (r: Vec<Delivery<ClusterLog>>)
    ensures
        broadcast_to(listeners@, e@, r@),
{
    let mut out: Vec<Delivery<ClusterLog>> = Vec::new();
    let mut i: usize = 0;
    while i < listeners.len()
        invariant
            i <= listeners@.len(),
            out@.len() == i,
            forall|k: int|
                0 <= k < i ==> {
                    &&& (#[trigger] out@[k]).route == Route::Mailbox(listeners@[k])
                    &&& out@[k].message@ == e@
                },
        decreases listeners@.len() - i,
    {
        out.push(Delivery { route: Route::Mailbox(listeners[i]), message: e.clone() });
        i = i + 1;
    }
    out
}

/// Whether no peer occurs twice in `s`.
pub open spec fn unique_peers(s: Seq<(PeerAddr, RemoteAddrView)>) -> bool {
    forall|i: int, j: int| 0 <= i < j < s.len() ==> #[trigger] s[i].0 != #[trigger] s[j].0
}

/// Whether `p` is recorded in `s`.
pub open spec fn has_peer(s: Seq<(PeerAddr, RemoteAddrView)>, p: PeerAddr) -> bool {
    exists|i: int| 0 <= i < s.len() && #[trigger] s[i].0 == p
}

/// The record after the event `e`, when `i` is the position of the event's
/// peer in `s` (or any value if the peer is not recorded). A join replaces
/// the peer's entry or appends one; a leave removes the entry if there is
/// one and otherwise changes nothing.
pub open spec fn applied(s: Seq<(PeerAddr, RemoteAddrView)>, e: ClusterLogView, i: int) -> Seq<
    (PeerAddr, RemoteAddrView),
> {
    match e {
        ClusterLogView::NewMember(p, a) => if has_peer(s, p) {
            s.update(i, (p, a))
        } else {
            s.push((p, a))
        },
        ClusterLogView::MemberLeft(p) => if has_peer(s, p) {
            s.remove(i)
        } else {
            s
        },
    }
}

/// The peer an event is about.
pub open spec fn event_peer(e: ClusterLogView) -> PeerAddr {
    match e {
        ClusterLogView::NewMember(p, _) => p,
        ClusterLogView::MemberLeft(p) => p,
    }
}

/// What a listener knows of the cluster: the members that joined and have
/// not left, each with its address, a peer at most once.
#[derive(Debug)]
pub struct Membership {
    members: Vec<(PeerAddr, RemoteAddr)>,
}

impl View for Membership {
    type V = Seq<(PeerAddr, RemoteAddrView)>;

    closed spec fn view(&self) -> Seq<(PeerAddr, RemoteAddrView)> {
        self.members@.map_values(|e: (PeerAddr, RemoteAddr)| (e.0, e.1@))
    }
}

impl Membership {
    /// Well-formed: a peer is recorded at most once.
    pub open spec fn wf(&self) -> bool {
        unique_peers(self@)
    }

    /// A record with no members.
    pub fn new() -> (r: Membership)
        ensures
            r.wf(),
            r@.len() == 0,
    {
        Membership { members: Vec::new() }
    }

    /// The number of members recorded.
    pub fn len(&self) -> (r: usize)
        ensures
            r == self@.len(),
    {
        self.members.len()
    }

    /// The position of `p` in the record, if it is there.
    pub fn position(&self, p: PeerAddr) -> (r: Option<usize>)
        requires
            self.wf(),
        ensures
            r is None <==> !has_peer(self@, p),
            r is Some ==> r->Some_0 < self@.len() && self@[r->Some_0 as int].0 == p,
    {
        let mut i: usize = 0;
        while i < self.members.len()
            invariant
                i <= self@.len(),
                self@.len() == self.members@.len(),
                forall|k: int| 0 <= k < i ==> #[trigger] self@[k].0 != p,
            decreases self.members@.len() - i,
        {
            if self.members[i].0 == p {
                assert(self@[i as int].0 == p);
                return Some(i);
            }
            i = i + 1;
        }
        None
    }

    /// The address recorded for `p`, if `p` is a member.
    pub fn get(&self, p: PeerAddr) -> (r: Option<&RemoteAddr>)
        requires
            self.wf(),
        ensures
            r is None <==> !has_peer(self@, p),
            r is Some ==> exists|i: int|
                0 <= i < self@.len() && self@[i].0 == p && #[trigger] self@[i].1 == r->Some_0@,
    {
        match self.position(p) {
            None => None,
            Some(i) => {
                assert(self@[i as int].1 == self.members@[i as int].1@);
                Some(&self.members[i].1)
            },
        }
    }

    /// Takes in a membership event.
    pub fn apply(&mut self, e: &ClusterLog)
        requires
            old(self).wf(),
        ensures
            final(self).wf(),
            !has_peer(old(self)@, event_peer(e@)) ==> final(self)@ == applied(old(self)@, e@, 0),
            has_peer(old(self)@, event_peer(e@)) ==> exists|i: int|
                0 <= i < old(self)@.len() && #[trigger] old(self)@[i].0 == event_peer(e@)
                    && final(self)@ == applied(old(self)@, e@, i),
    {
        let ghost before = self@;
        match e {
            ClusterLog::NewMember(p, a) => {
                match self.position(*p) {
                    Some(i) => {
                        self.members.set(i, (*p, a.clone()));
                        assert(self@ =~= before.update(i as int, (*p, a@)));
                    },
                    None => {
                        self.members.push((*p, a.clone()));
                        assert(self@ =~= before.push((*p, a@)));
                    },
                }
            },
            ClusterLog::MemberLeft(p) => {
                match self.position(*p) {
                    Some(i) => {
                        self.members.remove(i);
                        assert(self@ =~= before.remove(i as int));
                    },
                    None => {},
                }
            },
        }
    }
}

/// A leave for a peer that was never recorded changes nothing, for every
/// listener's record.
pub proof fn lemma_leave_of_unknown_peer(s: Seq<(PeerAddr, RemoteAddrView)>, p: PeerAddr, i: int)
    requires
        !has_peer(s, p),
    ensures
        applied(s, ClusterLogView::MemberLeft(p), i) == s,
{
}

/// Two leaves of the same peer leave the record as one does.
pub proof fn lemma_leave_idempotent(s: Seq<(PeerAddr, RemoteAddrView)>, p: PeerAddr, i: int, j: int)
    requires
        unique_peers(s),
        has_peer(s, p) ==> 0 <= i < s.len() && s[i].0 == p,
    ensures
        !has_peer(applied(s, ClusterLogView::MemberLeft(p), i), p),
        applied(applied(s, ClusterLogView::MemberLeft(p), i), ClusterLogView::MemberLeft(p), j)
            == applied(s, ClusterLogView::MemberLeft(p), i),
{
    let t = applied(s, ClusterLogView::MemberLeft(p), i);
    if has_peer(s, p) {
        assert forall|k: int| 0 <= k < t.len() implies #[trigger] t[k].0 != p by {
            if k < i {
                assert(t[k] == s[k]);
            } else {
                assert(t[k] == s[k + 1]);
            }
        }
    }
}

} // verus!
