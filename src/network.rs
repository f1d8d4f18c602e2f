//! The per-connection network interface: the one writer of a peer's
//! connection, which keeps outbound envelopes in the order they were sent.

use crate::addr::PeerAddr;
use crate::cluster::{ClusterLog, ClusterLogView};
use crate::dispatch::RemoteWrapper;
use vstd::prelude::*;

verus! {

/// The state of one peer connection as the interface sees it.
pub struct NetworkView {
    pub peer: PeerAddr,
    pub alive: bool,
    pub outbound: Seq<RemoteWrapper>,
}

/// The interface that owns the connection to one peer. Envelopes leave in
/// the order they were sent; once the connection is lost, sends are dropped.
#[derive(Debug)]
pub struct NetworkInterface {
    peer: PeerAddr,
    alive: bool,
    outbound: Vec<RemoteWrapper>,
}

impl View for NetworkInterface {
    type V = NetworkView;

    closed spec fn view(&self) -> NetworkView {
        NetworkView { peer: self.peer, alive: self.alive, outbound: self.outbound@ }
    }
}

/// The connection state after a send of `w`: queued at the back while the
/// connection lives, dropped once it is dead.
pub open spec fn after_send(n: NetworkView, w: RemoteWrapper) -> NetworkView {
    if n.alive {
        NetworkView { outbound: n.outbound.push(w), ..n }
    } else {
        n
    }
}

/// The connection state after the front envelope was written out.
pub open spec fn after_write(n: NetworkView) -> NetworkView {
    NetworkView { outbound: n.outbound.drop_first(), ..n }
}

impl NetworkInterface {
    /// The interface of a fresh, live connection to `peer`.
    pub fn new(peer: PeerAddr) -> (r: NetworkInterface)
        ensures
            r@ == (NetworkView { peer, alive: true, outbound: Seq::empty() }),
    {
        NetworkInterface { peer, alive: true, outbound: Vec::new() }
    }

    /// The peer this interface talks to.
    pub fn peer(&self) -> (r: PeerAddr)
        ensures
            r == self@.peer,
    {
        self.peer
    }

    /// Whether the connection is still up.
    pub fn is_alive(&self) -> (r: bool)
        ensures
            r == self@.alive,
    {
        self.alive
    }

    /// The number of envelopes waiting to be written.
    pub fn pending(&self) -> (r: usize)
        ensures
            r == self@.outbound.len(),
    {
        self.outbound.len()
    }

    /// Queues `w` for the peer. Returns whether it was queued: a send on a
    /// lost connection is dropped.
    pub fn send(&mut self, w: RemoteWrapper) -> (r: bool)
        ensures
            r == old(self)@.alive,
            final(self)@ == after_send(old(self)@, w),
    {
        if self.alive {
            self.outbound.push(w);
            true
        } else {
            false
        }
    }

    /// Takes the envelope that is next to be written, the oldest one sent.
    pub fn next_outbound(&mut self) -> (r: Option<RemoteWrapper>)
        ensures
            old(self)@.outbound.len() == 0 ==> r is None && final(self)@ == old(self)@,
            old(self)@.outbound.len() > 0 ==> r == Some(old(self)@.outbound[0]) && final(self)@
                == after_write(old(self)@),
    {
        if self.outbound.len() == 0 {
            None
        } else {
            let w = self.outbound.remove(0);
            Some(w)
        }
    }

    /// Marks the connection as lost: what was waiting is dropped, later
    /// sends are dropped, and the loss is reported as the peer leaving.
    pub fn connection_lost(&mut self) -> (r: ClusterLog)
        ensures
            final(self)@ == (NetworkView { alive: false, outbound: Seq::empty(), ..old(self)@ }),
            r@ == ClusterLogView::MemberLeft(old(self)@.peer),
    {
        self.alive = false;
        self.outbound = Vec::new();
        ClusterLog::MemberLeft(self.peer)
    }
}

/// Two sends `a` then `b` on a live connection are written out in that
/// order, after whatever was already waiting.
pub proof fn lemma_sends_keep_order(n: NetworkView, a: RemoteWrapper, b: RemoteWrapper)
    requires
        n.alive,
    ensures
        after_send(after_send(n, a), b).outbound.skip(n.outbound.len() as int) == seq![a, b],
        after_send(after_send(n, a), b).outbound.take(n.outbound.len() as int) == n.outbound,
{
    let q = after_send(after_send(n, a), b).outbound;
    assert(q.skip(n.outbound.len() as int) =~= seq![a, b]);
    assert(q.take(n.outbound.len() as int) =~= n.outbound);
}

/// The connection state after `k` envelopes were written out.
pub open spec fn after_writes(n: NetworkView, k: nat) -> NetworkView
    decreases k,
{
    if k == 0 {
        n
    } else {
        after_write(after_writes(n, (k - 1) as nat))
    }
}

/// Writing `k` envelopes takes the `k` oldest ones.
pub proof fn lemma_writes_take_from_front(n: NetworkView, k: nat)
    requires
        k <= n.outbound.len(),
    ensures
        after_writes(n, k).outbound == n.outbound.skip(k as int),
        after_writes(n, k).peer == n.peer,
        after_writes(n, k).alive == n.alive,
    decreases k,
{
    if k > 0 {
        lemma_writes_take_from_front(n, (k - 1) as nat);
        assert(n.outbound.skip((k - 1) as int).drop_first() =~= n.outbound.skip(k as int));
    } else {
        assert(n.outbound.skip(0) =~= n.outbound);
    }
}

/// Two sends `a` then `b` on a live connection are written out in that
/// order: once everything that was waiting before them has been written,
/// `a` is next, and `b` comes right after it.
pub proof fn lemma_writes_follow_sends(n: NetworkView, a: RemoteWrapper, b: RemoteWrapper)
    requires
        n.alive,
    ensures
        after_writes(after_send(after_send(n, a), b), n.outbound.len()).outbound[0] == a,
        after_writes(after_send(after_send(n, a), b), n.outbound.len() + 1).outbound[0] == b,
        after_writes(after_send(after_send(n, a), b), n.outbound.len() + 2).outbound.len() == 0,
{
    let m = after_send(after_send(n, a), b);
    let l = n.outbound.len();
    lemma_sends_keep_order(n, a, b);
    lemma_writes_take_from_front(m, l);
    lemma_writes_take_from_front(m, l + 1);
    lemma_writes_take_from_front(m, l + 2);
    assert(m.outbound.skip(l as int)[0] == seq![a, b][0]);
    assert(m.outbound.skip(l + 1 as int) =~= seq![b]);
}

} // verus!
