//! The failover channel: one reliable-looking channel composed from a
//! low-latency primary transport and a resilient secondary transport.
//!
//! Policy, per operation:
//! - broadcast goes to both transports and the results are joined: the call
//!   succeeds when either send succeeds, and on a double failure it surfaces
//!   the secondary's error (the primary's is discarded — a deliberate,
//!   documented asymmetry of this layer);
//! - direct sends, receives and lookups try the primary first and fall back to
//!   the secondary exactly once, returning the secondary's outcome verbatim;
//! - consensus-info injection goes to the primary only, with no fallback;
//! - readiness is the conjunction of both transports' readiness, re-queried
//!   live on every call, and waiting for readiness waits on the primary to
//!   completion before the secondary is approached.

use vstd::prelude::*;

use crate::transport::{recv_model, Event, Membership, Transport};
use crate::types::{Clock, Message, NetworkError, TransmitType};

verus! {

/// The joined outcome of a broadcast that was fanned out to both transports:
/// a success unless both sends failed, and on a double failure the secondary's
/// error.
pub open spec fn broadcast_outcome(
    primary: Result<(), NetworkError>,
    secondary: Result<(), NetworkError>,
) -> Result<(), NetworkError> {
    if primary is Err && secondary is Err {
        secondary
    } else {
        Ok(())
    }
}

/// The outcome of a one-level sequential fallback: the primary's result when
/// it succeeded, else the secondary's result verbatim.
pub open spec fn fallback_outcome<T>(
    primary: Result<T, NetworkError>,
    secondary: Result<T, NetworkError>,
) -> Result<T, NetworkError> {
    if primary is Ok {
        primary
    } else {
        secondary
    }
}

/// A broadcast outcome is `Ok` as soon as either transport succeeded; only a
/// double failure is an error, and then the error surfaced is the secondary
/// transport's, whatever the primary's was.
pub proof fn lemma_broadcast_outcome(
    primary: Result<(), NetworkError>,
    secondary: Result<(), NetworkError>,
)
    ensures
        (primary is Ok || secondary is Ok) ==> broadcast_outcome(primary, secondary) == Ok::<
            (),
            NetworkError,
        >(()),
        (primary is Err && secondary is Err) ==> broadcast_outcome(primary, secondary) == secondary,
{
}

/// A fallback outcome never alters what the deciding transport returned: a
/// primary success is returned as-is, and after a primary failure the
/// secondary's result — success or failure — is returned verbatim, so the
/// primary's error is discarded exactly when a fallback was attempted.
pub proof fn lemma_fallback_outcome<T>(
    primary: Result<T, NetworkError>,
    secondary: Result<T, NetworkError>,
)
    ensures
        primary is Ok ==> fallback_outcome(primary, secondary) == primary,
        primary is Err ==> fallback_outcome(primary, secondary) == secondary,
{
}

/// A communication channel over two networks: broadcasts are fanned out to
/// both, and every other operation prefers the primary (`networks.0`),
/// falling back to the secondary (`networks.1`) when the primary fails.
pub struct WebServerWithFallbackCommChannel<P: Transport, S: Transport> {
    /// The transport pair: primary first, secondary second. Built once and
    /// then only read; the channel keeps no other state.
    pub networks: (P, S),
}

impl<P: Transport, S: Transport> WebServerWithFallbackCommChannel<P, S> {
    /// Builds a channel over the given transport pair. This is also the hook
    /// a test harness uses to wire in scripted transports.
    pub fn new(networks: (P, S)) -> (c: Self)
        ensures
            c.networks == networks,
    {
        WebServerWithFallbackCommChannel { networks }
    }

    /// The construction hook a test harness uses: a builder that, applied to
    /// any supplied transport pair, wires it into a channel.
    pub fn generate_network() -> (f: impl Fn((P, S)) -> WebServerWithFallbackCommChannel<P, S>)
        ensures
            forall|pair: (P, S), c: WebServerWithFallbackCommChannel<P, S>|
                #[trigger] call_ensures(f, (pair,), c) ==> c.networks == pair,
            forall|pair: (P, S)| #[trigger] call_requires(f, (pair,)),
    {
        (|networks: (P, S)| -> (c: WebServerWithFallbackCommChannel<P, S>)
            ensures
                c.networks == networks,
            {
                WebServerWithFallbackCommChannel { networks }
            })
    }

    /// The primary transport.
    pub fn network(&self) -> (r: &P)
        ensures
            *r == self.networks.0,
    {
        &self.networks.0
    }

    /// The secondary (fallback) transport.
    pub fn fallback(&self) -> (r: &S)
        ensures
            *r == self.networks.1,
    {
        &self.networks.1
    }

    /// Waits until the channel is usable: waits the primary's readiness
    /// signal out to completion, then the secondary's. The recorded stamps
    /// show the primary's wait strictly before the secondary's.
    pub fn wait_for_ready(&mut self, clock: &mut Clock)
        requires
            old(clock).now + 2 <= u64::MAX,
        ensures
            final(self).networks.0.readiness(),
            final(self).networks.1.readiness(),
            final(self).networks.0.log() == old(self).networks.0.log().push(
                Event::WaitReady { stamp: old(clock).now },
            ),
            final(self).networks.1.log() == old(self).networks.1.log().push(
                Event::WaitReady { stamp: (old(clock).now + 1) as u64 },
            ),
            final(clock).now == old(clock).now + 2,
    {
        self.networks.0.wait_for_ready(clock);
        self.networks.1.wait_for_ready(clock);
    }

    /// Whether the channel is usable: true iff both transports are ready.
    /// Both transports are queried live on every call; nothing is cached.
    pub fn is_ready(&mut self, clock: &mut Clock) -> (r: bool)
        requires
            old(clock).now + 2 <= u64::MAX,
        ensures
            r == (old(self).networks.0.readiness() && old(self).networks.1.readiness()),
            final(self).networks.0.log() == old(self).networks.0.log().push(
                Event::ReadyQuery { stamp: old(clock).now },
            ),
            final(self).networks.1.log() == old(self).networks.1.log().push(
                Event::ReadyQuery { stamp: (old(clock).now + 1) as u64 },
            ),
            final(clock).now == old(clock).now + 2,
    {
        let primary_ready = self.networks.0.is_ready(clock);
        let secondary_ready = self.networks.1.is_ready(clock);
        primary_ready && secondary_ready
    }

    /// Shuts the primary down, then the secondary, best-effort and in that
    /// order; no error is surfaced even if either shutdown fails inside the
    /// transport.
    pub fn shut_down(&mut self, clock: &mut Clock)
        requires
            old(clock).now + 2 <= u64::MAX,
        ensures
            final(self).networks.0.log() == old(self).networks.0.log().push(
                Event::ShutDown { stamp: old(clock).now },
            ),
            final(self).networks.1.log() == old(self).networks.1.log().push(
                Event::ShutDown { stamp: (old(clock).now + 1) as u64 },
            ),
            final(clock).now == old(clock).now + 2,
    {
        self.networks.0.shut_down(clock);
        self.networks.1.shut_down(clock);
    }

    /// Broadcasts one message to the committee of the message's view: the
    /// recipient set is computed from the membership oracle, the send is
    /// issued on both transports, and both outcomes are awaited before the
    /// joined result is produced. The call succeeds when either transport
    /// succeeds; only a double failure is an error, and then the secondary's
    /// error is the one returned. Both transports receive the same envelope
    /// and the same recipient set; which send settles first is not promised,
    /// so the two stamps are only known to be the next two, in some order.
    pub fn broadcast_message<M: Membership>(
        &mut self,
        message: Message,
        election: &M,
        clock: &mut Clock,
    ) -> (r: Result<(), NetworkError>)
        requires
            old(clock).now + 2 <= u64::MAX,
        ensures
            r == broadcast_outcome(
                old(self).networks.0.next_broadcast(),
                old(self).networks.1.next_broadcast(),
            ),
            ({
                let recipients = election.committee(message@.view_number);
                let first = old(clock).now;
                let second = (old(clock).now + 1) as u64;
                ||| {
                    &&& final(self).networks.0.log() == old(self).networks.0.log().push(
                        Event::Broadcast {
                            stamp: first,
                            view_number: message@.view_number,
                            payload: message@.payload,
                            recipients: recipients,
                        },
                    )
                    &&& final(self).networks.1.log() == old(self).networks.1.log().push(
                        Event::Broadcast {
                            stamp: second,
                            view_number: message@.view_number,
                            payload: message@.payload,
                            recipients: recipients,
                        },
                    )
                }
                ||| {
                    &&& final(self).networks.0.log() == old(self).networks.0.log().push(
                        Event::Broadcast {
                            stamp: second,
                            view_number: message@.view_number,
                            payload: message@.payload,
                            recipients: recipients,
                        },
                    )
                    &&& final(self).networks.1.log() == old(self).networks.1.log().push(
                        Event::Broadcast {
                            stamp: first,
                            view_number: message@.view_number,
                            payload: message@.payload,
                            recipients: recipients,
                        },
                    )
                }
            }),
            final(clock).now == old(clock).now + 2,
    {
        let recipients = election.get_committee(message.view_number);
        let primary_result = self.networks.0.broadcast_message(&message, &recipients, clock);
        let secondary_result = self.networks.1.broadcast_message(&message, &recipients, clock);
        match (primary_result, secondary_result) {
            (Err(_), Err(e)) => Err(e),
            _ => Ok(()),
        }
    }

    /// Sends one message point-to-point: the primary transport is tried
    /// first; on a primary success the secondary is never approached and the
    /// call is a success; on a primary failure the secondary is tried exactly
    /// once and its outcome is returned verbatim, the primary's error being
    /// discarded.
    pub fn direct_message(&mut self, message: Message, recipient: u64, clock: &mut Clock) -> (r:
        Result<(), NetworkError>)
        requires
            old(clock).now + 2 <= u64::MAX,
        ensures
            r == fallback_outcome(
                old(self).networks.0.next_direct(),
                old(self).networks.1.next_direct(),
            ),
            final(self).networks.0.log() == old(self).networks.0.log().push(
                Event::Direct {
                    stamp: old(clock).now,
                    view_number: message@.view_number,
                    payload: message@.payload,
                    recipient: recipient,
                },
            ),
            old(self).networks.0.next_direct() is Ok ==> {
                &&& final(self).networks.1 == old(self).networks.1
                &&& final(clock).now == old(clock).now + 1
            },
            old(self).networks.0.next_direct() is Err ==> {
                &&& final(self).networks.1.log() == old(self).networks.1.log().push(
                    Event::Direct {
                        stamp: (old(clock).now + 1) as u64,
                        view_number: message@.view_number,
                        payload: message@.payload,
                        recipient: recipient,
                    },
                )
                &&& final(clock).now == old(clock).now + 2
            },
    {
        match self.networks.0.direct_message(&message, recipient, clock) {
            Ok(u) => Ok(u),
            Err(_) => self.networks.1.direct_message(&message, recipient, clock),
        }
    }

    /// Drains one inbound queue: the primary's queue for the given transmit
    /// type is tried first; on a primary failure the call falls back entirely
    /// to the secondary's queue for the same transmit type. Each call returns
    /// messages from exactly one transport — the two are never merged.
    pub fn recv_msgs(&mut self, transmit: TransmitType, clock: &mut Clock) -> (r: Result<
        Vec<Message>,
        NetworkError,
    >)
        requires
            old(clock).now + 2 <= u64::MAX,
        ensures
            recv_model(r) == fallback_outcome(
                old(self).networks.0.next_recv(transmit),
                old(self).networks.1.next_recv(transmit),
            ),
            final(self).networks.0.log() == old(self).networks.0.log().push(
                Event::Recv { stamp: old(clock).now, transmit: transmit },
            ),
            old(self).networks.0.next_recv(transmit) is Ok ==> {
                &&& final(self).networks.1 == old(self).networks.1
                &&& final(clock).now == old(clock).now + 1
            },
            old(self).networks.0.next_recv(transmit) is Err ==> {
                &&& final(self).networks.1.log() == old(self).networks.1.log().push(
                    Event::Recv { stamp: (old(clock).now + 1) as u64, transmit: transmit },
                )
                &&& final(clock).now == old(clock).now + 2
            },
    {
        match self.networks.0.recv_msgs(transmit, clock) {
            Ok(msgs) => Ok(msgs),
            Err(_) => self.networks.1.recv_msgs(transmit, clock),
        }
    }

    /// Looks one peer up: the primary transport is tried first; on a primary
    /// failure the secondary is tried exactly once and its outcome returned
    /// verbatim.
    pub fn lookup_node(&mut self, key: u64, clock: &mut Clock) -> (r: Result<(), NetworkError>)
        requires
            old(clock).now + 2 <= u64::MAX,
        ensures
            r == fallback_outcome(
                old(self).networks.0.next_lookup(),
                old(self).networks.1.next_lookup(),
            ),
            final(self).networks.0.log() == old(self).networks.0.log().push(
                Event::Lookup { stamp: old(clock).now, key: key },
            ),
            old(self).networks.0.next_lookup() is Ok ==> {
                &&& final(self).networks.1 == old(self).networks.1
                &&& final(clock).now == old(clock).now + 1
            },
            old(self).networks.0.next_lookup() is Err ==> {
                &&& final(self).networks.1.log() == old(self).networks.1.log().push(
                    Event::Lookup { stamp: (old(clock).now + 1) as u64, key: key },
                )
                &&& final(clock).now == old(clock).now + 2
            },
    {
        match self.networks.0.lookup_node(key, clock) {
            Ok(u) => Ok(u),
            Err(_) => self.networks.1.lookup_node(key, clock),
        }
    }

    /// Forwards auxiliary consensus context to the primary transport only:
    /// whatever the primary's outcome, the secondary never receives this call,
    /// and the primary's result is surfaced directly with no fallback.
    pub fn inject_consensus_info(&mut self, info: (u64, bool, bool), clock: &mut Clock) -> (r:
        Result<(), NetworkError>)
        requires
            old(clock).now + 1 <= u64::MAX,
        ensures
            r == old(self).networks.0.next_inject(),
            final(self).networks.0.log() == old(self).networks.0.log().push(
                Event::Inject {
                    stamp: old(clock).now,
                    view_number: info.0,
                    syncing: info.1,
                    leader: info.2,
                },
            ),
            final(self).networks.1 == old(self).networks.1,
            final(clock).now == old(clock).now + 1,
    {
        self.networks.0.inject_consensus_info(info, clock)
    }
}

} // verus!
