//! Replies to remote requests that are sent on without blocking the handler.

use crate::addr::{remote_route, RemoteAddr, RemoteAddrView, Route};
use crate::dispatch::Diagnostic;
use vstd::prelude::*;

verus! {

/// A message on its way: the route it takes and the message itself.
#[derive(Debug)]
pub struct Delivery<M> {
    pub route: Route,
    pub message: M,
}

/// What a handler returns once it has dispatched its reply itself; it
/// carries nothing.
#[derive(Debug)]
pub struct ResponseEnvelope(());

/// A message type whose handler answers with a message of type `Response`.
pub trait MessageWithResponse {
    type Response;
}

/// The views of a sequence of addresses.
pub open spec fn addr_views(addrs: Seq<RemoteAddr>) -> Seq<RemoteAddrView> {
    addrs.map_values(|a: RemoteAddr| a@)
}

/// `after` is `before` followed by one delivery of a clone of `m` to each of
/// `targets`, in order.
pub open spec fn sent_to_all<M: Clone>(
    before: Seq<Delivery<M>>,
    after: Seq<Delivery<M>>,
    targets: Seq<RemoteAddrView>,
    m: M,
) -> bool {
    &&& after.len() == before.len() + targets.len()
    &&& forall|k: int| 0 <= k < before.len() ==> #[trigger] after[k] == before[k]
    &&& forall|k: int|
        0 <= k < targets.len() ==> {
            &&& (#[trigger] after[before.len() + k]).route == remote_route(targets[k])
            &&& cloned(m, after[before.len() + k].message)
        }
}

/// Relies on the `Debug` impl of the error type, through `format!`, for a
/// readable description of the error; nothing is assumed of the text.
#[verifier::external_body]
fn debug_text<E: std::fmt::Debug>(e: &E) -> String {
    format!("{e:?}")
}

/// Appends one delivery of a clone of `message` to each address in `addrs`.
fn send_to_all<M: Clone>(addrs: &Vec<RemoteAddr>, message: &M, outbox: &mut Vec<Delivery<M>>)
    ensures
        sent_to_all(old(outbox)@, final(outbox)@, addr_views(addrs@), *message),
{
    let ghost before = outbox@;
    let mut i: usize = 0;
    while i < addrs.len()
        invariant
            i <= addrs@.len(),
            outbox@.len() == before.len() + i,
            forall|k: int| 0 <= k < before.len() ==> #[trigger] outbox@[k] == before[k],
            forall|k: int|
                0 <= k < i ==> {
                    &&& (#[trigger] outbox@[before.len() + k]).route == remote_route(addrs@[k]@)
                    &&& cloned(*message, outbox@[before.len() + k].message)
                },
        decreases addrs@.len() - i,
    {
        let route = addrs[i].route();
        let copy = message.clone();
        outbox.push(Delivery { route, message: copy });
        i = i + 1;
    }
    assert(addr_views(addrs@).len() == addrs@.len());
}

impl ResponseEnvelope {
    /// Calls `f` once, converts its output into the reply type and sends the
    /// reply to every address in `addrs`, in order.
    pub fn handle<F, M, I>(addrs: Vec<RemoteAddr>, f: F, outbox: &mut Vec<Delivery<M>>) -> (r:
        ResponseEnvelope) where F: Fn() -> I, M: Clone, I: Into<M>
        requires
            f.requires(()),
        ensures
            exists|i: I, m: M|
                f.ensures((), i) && call_ensures(I::into, (i,), m) && sent_to_all(
                    old(outbox)@,
                    final(outbox)@,
                    addr_views(addrs@),
                    m,
                ),
    {
        let produced = f();
        let message: M = produced.into();
        send_to_all(&addrs, &message, outbox);
        ResponseEnvelope(())
    }

    /// Calls `f` once and tries to convert its output into the reply type.
    /// On success the reply goes to every address in `addrs`; on failure the
    /// error is recorded in `diagnostics` and `default` goes to every address
    /// instead, so that each requester still gets an answer.
    pub fn try_handle<F, M, T, D>(
        addrs: Vec<RemoteAddr>,
        default: D,
        f: F,
        outbox: &mut Vec<Delivery<D>>,
        replies: &mut Vec<Delivery<M>>,
        diagnostics: &mut Vec<Diagnostic>,
    ) -> (r: ResponseEnvelope) where
        F: Fn() -> T,
        D: Clone,
        M: Clone,
        T: TryInto<M>,
        <T as TryInto<M>>::Error: std::fmt::Debug,
        requires
            f.requires(()),
        ensures
            exists|t: T, c: Result<M, <T as TryInto<M>>::Error>|
                f.ensures((), t) && call_ensures(T::try_into, (t,), c) && match c {
                    Ok(m) => {
                        &&& sent_to_all(old(replies)@, final(replies)@, addr_views(addrs@), m)
                        &&& final(outbox)@ == old(outbox)@
                        &&& final(diagnostics)@ == old(diagnostics)@
                    },
                    Err(_) => {
                        &&& sent_to_all(old(outbox)@, final(outbox)@, addr_views(addrs@), default)
                        &&& final(replies)@ == old(replies)@
                        &&& final(diagnostics)@.len() == old(diagnostics)@.len() + 1
                        &&& final(diagnostics)@.drop_last() == old(diagnostics)@
                        &&& final(diagnostics)@.last() is ConversionFailed
                    },
                },
    {
        let produced = f();
        match produced.try_into() {
            Ok(msg) => {
                send_to_all(&addrs, &msg, replies);
            },
            Err(err) => {
                diagnostics.push(Diagnostic::ConversionFailed(debug_text(&err)));
                send_to_all(&addrs, &default, outbox);
            },
        }
        ResponseEnvelope(())
    }
}

} // verus!
