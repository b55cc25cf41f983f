//! A scripted transport: a deterministic test double that records every call
//! it receives and answers each operation from a per-operation script, plus a
//! fixed-committee membership oracle. Together they let a harness drive the
//! failover channel through any combination of transport outcomes and then
//! inspect exactly which transport was invoked, with which arguments, in
//! which order.

use vstd::prelude::*;

use crate::transport::{msgs_model, recv_model, Event, Membership, Transport};
use crate::types::{Clock, Message, MessageModel, NetworkError, RecipientSet, TransmitType};

verus! {

/// One recorded call, in executable form; viewed as an [`Event`].
pub enum CallRecord {
    /// A broadcast send.
    Broadcast { stamp: u64, view_number: u64, payload: Vec<u8>, recipients: RecipientSet },
    /// A point-to-point send.
    Direct { stamp: u64, view_number: u64, payload: Vec<u8>, recipient: u64 },
    /// A drain of one inbound queue.
    Recv { stamp: u64, transmit: TransmitType },
    /// A lookup of one identity key.
    Lookup { stamp: u64, key: u64 },
    /// A wait on the readiness signal.
    WaitReady { stamp: u64 },
    /// A readiness query.
    ReadyQuery { stamp: u64 },
    /// A shutdown request.
    ShutDown { stamp: u64 },
    /// Auxiliary consensus context.
    Inject { stamp: u64, view_number: u64, syncing: bool, leader: bool },
}

impl View for CallRecord {
    type V = Event;

    open spec fn view(&self) -> Event {
        match self {
            CallRecord::Broadcast { stamp, view_number, payload, recipients } => Event::Broadcast {
                stamp: *stamp,
                view_number: *view_number,
                payload: payload@,
                recipients: recipients@,
            },
            CallRecord::Direct { stamp, view_number, payload, recipient } => Event::Direct {
                stamp: *stamp,
                view_number: *view_number,
                payload: payload@,
                recipient: *recipient,
            },
            CallRecord::Recv { stamp, transmit } => Event::Recv {
                stamp: *stamp,
                transmit: *transmit,
            },
            CallRecord::Lookup { stamp, key } => Event::Lookup { stamp: *stamp, key: *key },
            CallRecord::WaitReady { stamp } => Event::WaitReady { stamp: *stamp },
            CallRecord::ReadyQuery { stamp } => Event::ReadyQuery { stamp: *stamp },
            CallRecord::ShutDown { stamp } => Event::ShutDown { stamp: *stamp },
            CallRecord::Inject { stamp, view_number, syncing, leader } => Event::Inject {
                stamp: *stamp,
                view_number: *view_number,
                syncing: *syncing,
                leader: *leader,
            },
        }
    }
}

/// The events a sequence of records stands for.
pub open spec fn log_of(calls: Seq<CallRecord>) -> Seq<Event> {
    Seq::new(calls.len(), |i: int| calls[i]@)
}

proof fn lemma_log_push(calls: Seq<CallRecord>, record: CallRecord)
    ensures
        log_of(calls.push(record)) == log_of(calls).push(record@),
{
    assert(log_of(calls.push(record)) =~= log_of(calls).push(record@));
}

/// The outcome the head of a unit-result script determines: an exhausted
/// script means success, a `None` head means success, a `Some` head means
/// that error.
pub open spec fn scripted_outcome(script: Seq<Option<NetworkError>>) -> Result<(), NetworkError> {
    if script.len() == 0 {
        Ok(())
    } else {
        match script[0] {
            None => Ok(()),
            Some(e) => Err(e),
        }
    }
}

/// The outcome the head of a receive script determines: an exhausted script
/// means an empty drain.
pub open spec fn scripted_recv_outcome(script: Seq<Result<Vec<Message>, NetworkError>>) -> Result<
    Seq<MessageModel>,
    NetworkError,
> {
    if script.len() == 0 {
        Ok(Seq::empty())
    } else {
        recv_model(script[0])
    }
}

/// A deterministic transport for test harnesses: every call is recorded, and
/// each fallible operation consumes the head of its own script — an exhausted
/// script answers success (an empty drain, for receives).
pub struct ScriptedTransport {
    /// Every call received so far, oldest first.
    pub calls: Vec<CallRecord>,
    /// The answer to readiness queries; waiting for readiness sets it.
    pub ready: bool,
    /// Outcomes for broadcast sends, consumed front first.
    pub broadcast_script: Vec<Option<NetworkError>>,
    /// Outcomes for direct sends, consumed front first.
    pub direct_script: Vec<Option<NetworkError>>,
    /// Outcomes for lookups, consumed front first.
    pub lookup_script: Vec<Option<NetworkError>>,
    /// Outcomes for consensus-info injections, consumed front first.
    pub inject_script: Vec<Option<NetworkError>>,
    /// Outcomes for drains of the broadcast queue, consumed front first.
    pub recv_broadcast_script: Vec<Result<Vec<Message>, NetworkError>>,
    /// Outcomes for drains of the direct queue, consumed front first.
    pub recv_direct_script: Vec<Result<Vec<Message>, NetworkError>>,
}

impl ScriptedTransport {
    /// A transport with no recorded calls and empty scripts: not ready, and
    /// every operation succeeds.
    pub fn new() -> (t: ScriptedTransport)
        ensures
            t.calls@ == Seq::<CallRecord>::empty(),
            t.log() == Seq::<Event>::empty(),
            !t.ready,
            t.broadcast_script@ == Seq::<Option<NetworkError>>::empty(),
            t.direct_script@ == Seq::<Option<NetworkError>>::empty(),
            t.lookup_script@ == Seq::<Option<NetworkError>>::empty(),
            t.inject_script@ == Seq::<Option<NetworkError>>::empty(),
            t.recv_broadcast_script@ == Seq::<Result<Vec<Message>, NetworkError>>::empty(),
            t.recv_direct_script@ == Seq::<Result<Vec<Message>, NetworkError>>::empty(),
    {
        let t = ScriptedTransport {
            calls: Vec::new(),
            ready: false,
            broadcast_script: Vec::new(),
            direct_script: Vec::new(),
            lookup_script: Vec::new(),
            inject_script: Vec::new(),
            recv_broadcast_script: Vec::new(),
            recv_direct_script: Vec::new(),
        };
        proof {
            assert(t.log() =~= Seq::<Event>::empty());
        }
        t
    }

    /// How many calls this transport has received.
    pub fn call_count(&self) -> (n: usize)
        ensures
            n == self.log().len(),
    {
        self.calls.len()
    }

    /// Pops the head of a unit-result script; an exhausted script answers
    /// success.
    fn take_step(script: &mut Vec<Option<NetworkError>>) -> (r: Result<(), NetworkError>)
        ensures
            r == scripted_outcome(old(script)@),
    {
        if script.len() == 0 {
            Ok(())
        } else {
            match script.remove(0) {
                None => Ok(()),
                Some(e) => Err(e),
            }
        }
    }
}

/// Copies a byte vector.
fn copy_bytes(bytes: &Vec<u8>) -> (r: Vec<u8>)
    ensures
        r@ == bytes@,
{
    let n = bytes.len();
    let mut out: Vec<u8> = Vec::new();
    let mut i: usize = 0;
    while i < n
        invariant
            n == bytes.len(),
            0 <= i <= n,
            out@ == bytes@.subrange(0, i as int),
        decreases n - i,
    {
        out.push(bytes[i]);
        i += 1;
    }
    proof {
        assert(out@ =~= bytes@);
    }
    out
}

impl Transport for ScriptedTransport {
    open spec fn log(&self) -> Seq<Event> {
        log_of(self.calls@)
    }

    open spec fn readiness(&self) -> bool {
        self.ready
    }

    open spec fn next_broadcast(&self) -> Result<(), NetworkError> {
        scripted_outcome(self.broadcast_script@)
    }

    open spec fn next_direct(&self) -> Result<(), NetworkError> {
        scripted_outcome(self.direct_script@)
    }

    open spec fn next_recv(&self, transmit: TransmitType) -> Result<
        Seq<MessageModel>,
        NetworkError,
    > {
        match transmit {
            TransmitType::Broadcast => scripted_recv_outcome(self.recv_broadcast_script@),
            TransmitType::Direct => scripted_recv_outcome(self.recv_direct_script@),
        }
    }

    open spec fn next_lookup(&self) -> Result<(), NetworkError> {
        scripted_outcome(self.lookup_script@)
    }

    open spec fn next_inject(&self) -> Result<(), NetworkError> {
        scripted_outcome(self.inject_script@)
    }

    fn broadcast_message(
        &mut self,
        message: &Message,
        recipients: &RecipientSet,
        clock: &mut Clock,
    ) -> (r: Result<(), NetworkError>) {
        let stamp = clock.tick();
        let record = CallRecord::Broadcast {
            stamp,
            view_number: message.view_number,
            payload: copy_bytes(&message.payload),
            recipients: recipients.duplicate(),
        };
        proof {
            lemma_log_push(self.calls@, record);
        }
        self.calls.push(record);
        Self::take_step(&mut self.broadcast_script)
    }

    fn direct_message(&mut self, message: &Message, recipient: u64, clock: &mut Clock) -> (r:
        Result<(), NetworkError>) {
        let stamp = clock.tick();
        let record = CallRecord::Direct {
            stamp,
            view_number: message.view_number,
            payload: copy_bytes(&message.payload),
            recipient,
        };
        proof {
            lemma_log_push(self.calls@, record);
        }
        self.calls.push(record);
        Self::take_step(&mut self.direct_script)
    }

    fn recv_msgs(&mut self, transmit: TransmitType, clock: &mut Clock) -> (r: Result<
        Vec<Message>,
        NetworkError,
    >) {
        let stamp = clock.tick();
        let record = CallRecord::Recv { stamp, transmit };
        proof {
            lemma_log_push(self.calls@, record);
        }
        self.calls.push(record);
        let script = match transmit {
            TransmitType::Broadcast => &mut self.recv_broadcast_script,
            TransmitType::Direct => &mut self.recv_direct_script,
        };
        if script.len() == 0 {
            let drained: Vec<Message> = Vec::new();
            proof {
                assert(msgs_model(drained@) =~= Seq::<MessageModel>::empty());
            }
            Ok(drained)
        } else {
            script.remove(0)
        }
    }

    fn lookup_node(&mut self, key: u64, clock: &mut Clock) -> (r: Result<(), NetworkError>) {
        let stamp = clock.tick();
        let record = CallRecord::Lookup { stamp, key };
        proof {
            lemma_log_push(self.calls@, record);
        }
        self.calls.push(record);
        Self::take_step(&mut self.lookup_script)
    }

    fn wait_for_ready(&mut self, clock: &mut Clock) {
        let stamp = clock.tick();
        let record = CallRecord::WaitReady { stamp };
        proof {
            lemma_log_push(self.calls@, record);
        }
        self.calls.push(record);
        self.ready = true;
    }

    fn is_ready(&mut self, clock: &mut Clock) -> (r: bool) {
        let stamp = clock.tick();
        let record = CallRecord::ReadyQuery { stamp };
        proof {
            lemma_log_push(self.calls@, record);
        }
        self.calls.push(record);
        self.ready
    }

    fn shut_down(&mut self, clock: &mut Clock) {
        let stamp = clock.tick();
        let record = CallRecord::ShutDown { stamp };
        proof {
            lemma_log_push(self.calls@, record);
        }
        self.calls.push(record);
    }

    fn inject_consensus_info(&mut self, info: (u64, bool, bool), clock: &mut Clock) -> (r: Result<
        (),
        NetworkError,
    >) {
        let stamp = clock.tick();
        let record = CallRecord::Inject {
            stamp,
            view_number: info.0,
            syncing: info.1,
            leader: info.2,
        };
        proof {
            lemma_log_push(self.calls@, record);
        }
        self.calls.push(record);
        Self::take_step(&mut self.inject_script)
    }
}

/// A membership oracle with one fixed committee: every view maps to the same
/// recipient set.
pub struct StaticMembership {
    members: RecipientSet,
}

impl StaticMembership {
    /// An oracle whose committee, for every view, is the given set.
    pub fn new(members: RecipientSet) -> (m: StaticMembership)
        ensures
            forall|view_number: u64| m.committee(view_number) == members@,
    {
        StaticMembership { members }
    }
}

impl Membership for StaticMembership {
    closed spec fn committee(&self, view_number: u64) -> Set<u64> {
        self.members@
    }

    fn get_committee(&self, view_number: u64) -> (r: RecipientSet) {
        self.members.duplicate()
    }
}

} // verus!
