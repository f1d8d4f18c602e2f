//! Wire envelopes and the per-actor tables that route them by identifier.

use crate::addr::RemoteAddr;
use vstd::prelude::*;

verus! {

/// Something worth reporting that happened to an inbound or outbound message.
#[derive(Debug)]
pub enum Diagnostic {
    /// An envelope carried an identifier that no table entry has; it names
    /// that identifier.
    UnknownIdentifier(String),
    /// The payload of a known identifier could not be decoded.
    DecodeFailed(String),
    /// A reply could not be converted into its declared type; the text
    /// describes the error.
    ConversionFailed(String),
}


/// The envelope a message crosses the network in: its type's identifier,
/// its encoded form, and the address of the sender where the type asks for it.
#[derive(Debug)]
pub struct RemoteWrapper {
    pub identifier: String,
    pub message_buffer: Vec<u8>,
    pub source: Option<RemoteAddr>,
}

impl RemoteWrapper {
    /// Wraps an encoded message. The sender's own address `own` goes along
    /// only when the message type tracks its source.
    pub fn new(identifier: String, message_buffer: Vec<u8>, wants_source: bool, own: &RemoteAddr) -> (r:
        RemoteWrapper)
        ensures
            r.identifier@ == identifier@,
            r.message_buffer@ == message_buffer@,
            wants_source ==> r.source is Some && r.source->Some_0@ == own@,
            !wants_source ==> r.source is None,
    {
        let source = if wants_source {
            Some(own.clone())
        } else {
            None
        };
        RemoteWrapper { identifier, message_buffer, source }
    }
}

/// Why a registration was refused.
#[derive(Debug, PartialEq, Eq, Structural)]
pub enum RegisterError {
    /// Another message type already holds this identifier.
    DuplicateIdentifier,
}

/// A message delivered to an actor's mailbox, with the sender's address
/// where the message type tracks it.
#[derive(Debug)]
pub struct Inbound<M> {
    pub message: M,
    pub source: Option<RemoteAddr>,
}

/// One entry of a dispatch table: the identifier of a message type and
/// whether that type records its source.
#[derive(Debug)]
pub struct DispatchEntry {
    pub identifier: String,
    pub wants_source: bool,
}

/// An actor type's table from message identifier to decode operation; the
/// operation of entry `i` is the caller's decoder called with `i`.
/// Identifiers are unique in a table.
#[derive(Debug)]
pub struct DispatchTable {
    entries: Vec<DispatchEntry>,
}

/// Whether no identifier occurs twice in `s`.
pub open spec fn unique_ids(s: Seq<(Seq<char>, bool)>) -> bool {
    forall|i: int, j: int| 0 <= i < j < s.len() ==> #[trigger] s[i].0 != #[trigger] s[j].0
}

/// Whether `id` is the identifier of some entry of `s`.
pub open spec fn has_id(s: Seq<(Seq<char>, bool)>, id: Seq<char>) -> bool {
    exists|i: int| 0 <= i < s.len() && #[trigger] s[i].0 == id
}

impl View for DispatchTable {
    type V = Seq<(Seq<char>, bool)>;

    closed spec fn view(&self) -> Seq<(Seq<char>, bool)> {
        self.entries@.map_values(|e: DispatchEntry| (e.identifier@, e.wants_source))
    }
}

impl DispatchTable {
    /// Well-formed: identifiers are unique.
    pub open spec fn wf(&self) -> bool {
        unique_ids(self@)
    }

    /// An empty table.
    pub fn new() -> (r: DispatchTable)
        ensures
            r.wf(),
            r@.len() == 0,
    {
        DispatchTable { entries: Vec::new() }
    }

    /// The number of registered message types.
    pub fn len(&self) -> (r: usize)
        ensures
            r == self@.len(),
    {
        self.entries.len()
    }

    /// The index of the entry with identifier `id`, if there is one.
    pub fn lookup(&self, id: &String) -> (r: Option<usize>)
        requires
            self.wf(),
        ensures
            r is None <==> !has_id(self@, id@),
            r is Some ==> r->Some_0 < self@.len() && self@[r->Some_0 as int].0 == id@,
    {
        let mut i: usize = 0;
        while i < self.entries.len()
            invariant
                i <= self@.len(),
                self@.len() == self.entries@.len(),
                forall|k: int| 0 <= k < i ==> #[trigger] self@[k].0 != id@,
            decreases self.entries@.len() - i,
        {
            if self.entries[i].identifier == *id {
                assert(self@[i as int].0 == id@);
                return Some(i);
            }
            i = i + 1;
        }
        None
    }

    /// Adds a message type under identifier `id`. Fails, leaving the table
    /// as it was, when `id` is already taken.
    pub fn register(&mut self, id: String, wants_source: bool) -> (r: Result<usize, RegisterError>)
        requires
            old(self).wf(),
        ensures
            final(self).wf(),
            has_id(old(self)@, id@) ==> r == Err::<usize, RegisterError>(
                RegisterError::DuplicateIdentifier,
            ) && final(self)@ == old(self)@,
            !has_id(old(self)@, id@) ==> r == Ok::<usize, RegisterError>(old(self)@.len() as usize)
                && final(self)@ == old(self)@.push((id@, wants_source)),
    {
        match self.lookup(&id) {
            Some(_) => Err(RegisterError::DuplicateIdentifier),
            None => {
                let n = self.entries.len();
                let ghost before = self@;
                self.entries.push(DispatchEntry { identifier: id, wants_source });
                assert(self@ =~= before.push((id@, wants_source)));
                Ok(n)
            },
        }
    }

    /// Whether entry `i` records the sender's address.
    pub fn wants_source(&self, i: usize) -> (r: bool)
        requires
            i < self@.len(),
        ensures
            r == self@[i as int].1,
    {
        self.entries[i].wants_source
    }

    /// Routes an inbound envelope. An identifier that the table lacks is
    /// dropped with a diagnostic naming it, and the mailbox is left alone.
    /// Otherwise the payload goes to `decode` with the entry's index, and
    /// only to it; a decoded message is appended to the mailbox, with the
    /// envelope's source where the entry asks for it, and a payload that
    /// does not decode is dropped with a diagnostic.
    pub fn deliver<M, F>(&self, w: RemoteWrapper, decode: F, mailbox: &mut Vec<Inbound<M>>) -> (r:
        Option<Diagnostic>) where F: Fn(usize, Vec<u8>) -> Option<M>
        requires
            self.wf(),
            forall|i: usize, b: Vec<u8>| #[trigger] decode.requires((i, b)),
        ensures
            !has_id(self@, w.identifier@) ==> {
                &&& final(mailbox)@ == old(mailbox)@
                &&& r is Some
                &&& r->Some_0 is UnknownIdentifier
                &&& r->Some_0->UnknownIdentifier_0@ == w.identifier@
            },
            has_id(self@, w.identifier@) ==> exists|i: usize, d: Option<M>|
                {
                    &&& i < self@.len()
                    &&& self@[i as int].0 == w.identifier@
                    &&& #[trigger] call_ensures(decode, (i, w.message_buffer), d)
                    &&& match d {
                        Some(m) => {
                            &&& r is None
                            &&& final(mailbox)@ == old(mailbox)@.push(
                                Inbound { message: m, source: if self@[i as int].1 {
                                    w.source
                                } else {
                                    None
                                } },
                            )
                        },
                        None => {
                            &&& final(mailbox)@ == old(mailbox)@
                            &&& r is Some
                            &&& r->Some_0 is DecodeFailed
                            &&& r->Some_0->DecodeFailed_0@ == w.identifier@
                        },
                    }
                },
    {
        let RemoteWrapper { identifier, message_buffer, source } = w;
        match self.lookup(&identifier) {
            None => Some(Diagnostic::UnknownIdentifier(identifier)),
            Some(i) => {
                let wants = self.wants_source(i);
                let decoded = decode(i, message_buffer);
                assert(call_ensures(decode, (i, w.message_buffer), decoded));
                assert(self@[i as int].0 == w.identifier@);
                match decoded {
                    Some(message) => {
                        let source = if wants {
                            source
                        } else {
                            None
                        };
                        mailbox.push(Inbound { message, source });
                        None
                    },
                    None => Some(Diagnostic::DecodeFailed(identifier)),
                }
            },
        }
    }
}

} // verus!
