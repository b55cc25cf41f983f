//! The transport capability set the channel is built over, and the membership
//! oracle that derives broadcast recipients from a view number.
//!
//! A transport is modelled as a deterministic state machine: a spec-level log
//! of the calls it has received (each stamped by the shared [`Clock`]) and,
//! for each fallible operation, the outcome its current state determines. The
//! contracts below bind every implementation to that model, which is what lets
//! the channel's own contracts pin down exactly which transport was invoked,
//! with which arguments, in which order, and whose outcome the caller sees.

use vstd::prelude::*;

use crate::types::{Clock, Message, MessageModel, NetworkError, RecipientSet, TransmitType};

verus! {

/// One recorded transport call, stamped with its position in the global call
/// order.
pub enum Event {
    /// A broadcast send: the envelope and the recipient set it was fanned to.
    Broadcast { stamp: u64, view_number: u64, payload: Seq<u8>, recipients: Set<u64> },
    /// A point-to-point send to one identity key.
    Direct { stamp: u64, view_number: u64, payload: Seq<u8>, recipient: u64 },
    /// A drain of one inbound queue.
    Recv { stamp: u64, transmit: TransmitType },
    /// A lookup of one identity key.
    Lookup { stamp: u64, key: u64 },
    /// A wait on the transport's readiness signal.
    WaitReady { stamp: u64 },
    /// A readiness query.
    ReadyQuery { stamp: u64 },
    /// A shutdown request.
    ShutDown { stamp: u64 },
    /// Auxiliary consensus context: a view number and two flags.
    Inject { stamp: u64, view_number: u64, syncing: bool, leader: bool },
}

/// The mathematical value of a sequence of received messages.
pub open spec fn msgs_model(msgs: Seq<Message>) -> Seq<MessageModel> {
    Seq::new(msgs.len(), |i: int| msgs[i]@)
}

/// The mathematical value of a receive outcome.
pub open spec fn recv_model(r: Result<Vec<Message>, NetworkError>) -> Result<
    Seq<MessageModel>,
    NetworkError,
> {
    match r {
        Ok(msgs) => Ok(msgs_model(msgs@)),
        Err(e) => Err(e),
    }
}

/// One concrete network. Every operation records itself in the transport's
/// log with the next stamp of the shared clock; every fallible operation
/// returns the outcome its pre-state determines.
pub trait Transport: Sized {
    /// The calls this transport has received, oldest first.
    spec fn log(&self) -> Seq<Event>;

    /// Whether the transport would currently answer a readiness query with
    /// true.
    spec fn readiness(&self) -> bool;

    /// The outcome the current state determines for the next broadcast send.
    spec fn next_broadcast(&self) -> Result<(), NetworkError>;

    /// The outcome the current state determines for the next direct send.
    spec fn next_direct(&self) -> Result<(), NetworkError>;

    /// The outcome the current state determines for the next drain of the
    /// given inbound queue.
    spec fn next_recv(&self, transmit: TransmitType) -> Result<Seq<MessageModel>, NetworkError>;

    /// The outcome the current state determines for the next node lookup.
    spec fn next_lookup(&self) -> Result<(), NetworkError>;

    /// The outcome the current state determines for the next consensus-info
    /// injection.
    spec fn next_inject(&self) -> Result<(), NetworkError>;

    /// Sends one message to every key of the recipient set.
    fn broadcast_message(
        &mut self,
        message: &Message,
        recipients: &RecipientSet,
        clock: &mut Clock,
    ) -> (r: Result<(), NetworkError>)
        requires
            old(clock).now < u64::MAX,
        ensures
            r == old(self).next_broadcast(),
            final(self).log() == old(self).log().push(
                Event::Broadcast {
                    stamp: old(clock).now,
                    view_number: message@.view_number,
                    payload: message@.payload,
                    recipients: recipients@,
                },
            ),
            final(clock).now == old(clock).now + 1,
    ;

    /// Sends one message to one peer.
    fn direct_message(&mut self, message: &Message, recipient: u64, clock: &mut Clock) -> (r:
        Result<(), NetworkError>)
        requires
            old(clock).now < u64::MAX,
        ensures
            r == old(self).next_direct(),
            final(self).log() == old(self).log().push(
                Event::Direct {
                    stamp: old(clock).now,
                    view_number: message@.view_number,
                    payload: message@.payload,
                    recipient: recipient,
                },
            ),
            final(clock).now == old(clock).now + 1,
    ;

    /// Drains the inbound queue selected by the transmit type.
    fn recv_msgs(&mut self, transmit: TransmitType, clock: &mut Clock) -> (r: Result<
        Vec<Message>,
        NetworkError,
    >)
        requires
            old(clock).now < u64::MAX,
        ensures
            recv_model(r) == old(self).next_recv(transmit),
            final(self).log() == old(self).log().push(
                Event::Recv { stamp: old(clock).now, transmit: transmit },
            ),
            final(clock).now == old(clock).now + 1,
    ;

    /// Looks one peer up in the transport's view of the network.
    fn lookup_node(&mut self, key: u64, clock: &mut Clock) -> (r: Result<(), NetworkError>)
        requires
            old(clock).now < u64::MAX,
        ensures
            r == old(self).next_lookup(),
            final(self).log() == old(self).log().push(
                Event::Lookup { stamp: old(clock).now, key: key },
            ),
            final(clock).now == old(clock).now + 1,
    ;

    /// Blocks until the transport is ready; on return the transport answers
    /// readiness queries with true.
    fn wait_for_ready(&mut self, clock: &mut Clock)
        requires
            old(clock).now < u64::MAX,
        ensures
            final(self).readiness(),
            final(self).log() == old(self).log().push(Event::WaitReady { stamp: old(clock).now }),
            final(clock).now == old(clock).now + 1,
    ;

    /// Queries the transport's readiness without waiting.
    fn is_ready(&mut self, clock: &mut Clock) -> (r: bool)
        requires
            old(clock).now < u64::MAX,
        ensures
            r == old(self).readiness(),
            final(self).readiness() == old(self).readiness(),
            final(self).log() == old(self).log().push(Event::ReadyQuery { stamp: old(clock).now }),
            final(clock).now == old(clock).now + 1,
    ;

    /// Shuts the transport down, best-effort; reports no error.
    fn shut_down(&mut self, clock: &mut Clock)
        requires
            old(clock).now < u64::MAX,
        ensures
            final(self).log() == old(self).log().push(Event::ShutDown { stamp: old(clock).now }),
            final(clock).now == old(clock).now + 1,
    ;

    /// Hands auxiliary consensus context to the transport.
    fn inject_consensus_info(&mut self, info: (u64, bool, bool), clock: &mut Clock) -> (r: Result<
        (),
        NetworkError,
    >)
        requires
            old(clock).now < u64::MAX,
        ensures
            r == old(self).next_inject(),
            final(self).log() == old(self).log().push(
                Event::Inject {
                    stamp: old(clock).now,
                    view_number: info.0,
                    syncing: info.1,
                    leader: info.2,
                },
            ),
            final(clock).now == old(clock).now + 1,
    ;
}

/// The membership oracle: maps a view number to the recipient set of that
/// view's committee.
pub trait Membership: Sized {
    /// The committee of the given view.
    spec fn committee(&self, view_number: u64) -> Set<u64>;

    /// Computes the recipient set of the given view.
    fn get_committee(&self, view_number: u64) -> (r: RecipientSet)
        ensures
            r@ == self.committee(view_number),
    ;
}

} // verus!
