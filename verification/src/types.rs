//! Plain data carried through the channel: message envelopes, recipient sets,
//! the shared error kind, and the stamp clock that records call order.

use vstd::prelude::*;

verus! {

/// The single error kind shared by both transports. The channel never
/// synthesizes an error of its own: every error a caller sees was returned by
/// one of the transports.
#[derive(Clone, Copy, Debug, PartialEq, Eq, Structural)]
pub enum NetworkError {
    /// The transport is not yet ready to carry traffic.
    NotReady,
    /// The transport has been shut down.
    ShutDown,
    /// The message could not be delivered.
    CouldNotDeliver,
    /// The requested peer is unknown to the transport.
    NoSuchNode,
    /// The operation took too long inside the transport.
    Timeout,
}

/// Selects which logical inbound queue a receive drains.
#[derive(Clone, Copy, Debug, PartialEq, Eq, Structural)]
pub enum TransmitType {
    /// Messages that arrived via broadcast.
    Broadcast,
    /// Messages that were sent point-to-point.
    Direct,
}

/// A message envelope: an opaque payload plus the view number used to derive
/// the recipient set of a broadcast.
#[derive(Debug)]
pub struct Message {
    /// The consensus round this message belongs to.
    pub view_number: u64,
    /// The opaque payload; this layer never reads it.
    pub payload: Vec<u8>,
}

/// The mathematical value of a [`Message`].
pub struct MessageModel {
    pub view_number: u64,
    pub payload: Seq<u8>,
}

impl View for Message {
    type V = MessageModel;

    open spec fn view(&self) -> MessageModel {
        MessageModel { view_number: self.view_number, payload: self.payload@ }
    }
}

/// An unordered set of identity keys, as produced by the membership oracle.
/// May be empty. Viewed as a `Set<u64>`.
pub struct RecipientSet {
    keys: Vec<u64>,
}

impl View for RecipientSet {
    type V = Set<u64>;

    closed spec fn view(&self) -> Set<u64> {
        self.keys@.to_set()
    }
}

proof fn lemma_push_to_set(s: Seq<u64>, x: u64)
    ensures
        s.push(x).to_set() == s.to_set().insert(x),
{
    let a = s.push(x).to_set();
    let b = s.to_set().insert(x);
    assert forall|k: u64| a.contains(k) implies b.contains(k) by {
        let i = choose|i: int| 0 <= i < s.push(x).len() && s.push(x)[i] == k;
        if i < s.len() {
            assert(s[i] == k);
        }
    };
    assert forall|k: u64| b.contains(k) implies a.contains(k) by {
        if k == x {
            assert(s.push(x)[s.len() as int] == x);
        } else {
            let i = choose|i: int| 0 <= i < s.len() && s[i] == k;
            assert(s.push(x)[i] == k);
        }
    };
    assert(a =~= b);
}

impl RecipientSet {
    /// The empty recipient set.
    pub fn new() -> (r: RecipientSet)
        ensures
            r@ == Set::<u64>::empty(),
    {
        proof {
            assert(Seq::<u64>::empty().to_set() =~= Set::<u64>::empty());
        }
        RecipientSet { keys: Vec::new() }
    }

    /// Adds one identity key to the set.
    pub fn insert(&mut self, key: u64)
        ensures
            final(self)@ == old(self)@.insert(key),
    {
        proof {
            lemma_push_to_set(self.keys@, key);
        }
        self.keys.push(key);
    }

    /// Whether the set holds the given identity key.
    pub fn contains(&self, key: u64) -> (b: bool)
        ensures
            b == self@.contains(key),
    {
        let n = self.keys.len();
        let mut i: usize = 0;
        while i < n
            invariant
                n == self.keys.len(),
                0 <= i <= n,
                forall|j: int| 0 <= j < i ==> self.keys@[j] != key,
            decreases n - i,
        {
            if self.keys[i] == key {
                assert(self.keys@.contains(key));
                return true;
            }
            i += 1;
        }
        assert(!self.keys@.contains(key));
        false
    }

    /// A copy of the set with the same mathematical value.
    pub fn duplicate(&self) -> (r: RecipientSet)
        ensures
            r@ == self@,
    {
        let n = self.keys.len();
        let mut out: Vec<u64> = Vec::new();
        let mut i: usize = 0;
        while i < n
            invariant
                n == self.keys.len(),
                0 <= i <= n,
                out@ == self.keys@.subrange(0, i as int),
            decreases n - i,
        {
            out.push(self.keys[i]);
            i += 1;
        }
        proof {
            assert(out@ =~= self.keys@);
        }
        RecipientSet { keys: out }
    }
}

/// Issues strictly increasing stamps. Each transport stamps every call it
/// records, so the recorded logs of the two transports carry one global call
/// order that contracts (and tests) can speak about.
pub struct Clock {
    /// The stamp the next call will receive.
    pub now: u64,
}

impl Clock {
    /// A clock whose first stamp is zero.
    pub fn new() -> (c: Clock)
        ensures
            c.now == 0,
    {
        Clock { now: 0 }
    }

    /// Hands out the current stamp and advances.
    pub fn tick(&mut self) -> (t: u64)
        requires
            old(self).now < u64::MAX,
        ensures
            t == old(self).now,
            final(self).now == old(self).now + 1,
    {
        let t = self.now;
        self.now = self.now + 1;
        t
    }
}

} // verus!
