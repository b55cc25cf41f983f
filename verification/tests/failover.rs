//! Scenario tests driving the failover channel over scripted transports and
//! inspecting the recorded calls.

use failover_channel::{
    CallRecord, Clock, Message, NetworkError, RecipientSet, ScriptedTransport, StaticMembership,
    TransmitType, WebServerWithFallbackCommChannel,
};

fn msg(view_number: u64, payload: Vec<u8>) -> Message {
    Message { view_number, payload }
}

fn election_of(keys: &[u64]) -> StaticMembership {
    let mut members = RecipientSet::new();
    for &k in keys {
        members.insert(k);
    }
    StaticMembership::new(members)
}

fn channel(
    primary: ScriptedTransport,
    secondary: ScriptedTransport,
) -> WebServerWithFallbackCommChannel<ScriptedTransport, ScriptedTransport> {
    WebServerWithFallbackCommChannel::new((primary, secondary))
}

#[test]
fn broadcast_ok_when_both_succeed() {
    let mut chan = channel(ScriptedTransport::new(), ScriptedTransport::new());
    let mut clock = Clock::new();
    let election = election_of(&[1, 2, 3]);
    let r = chan.broadcast_message(msg(7, vec![1, 2]), &election, &mut clock);
    assert_eq!(r, Ok(()));
    assert_eq!(chan.networks.0.call_count(), 1);
    assert_eq!(chan.networks.1.call_count(), 1);
}

#[test]
fn broadcast_ok_when_only_primary_succeeds() {
    let mut secondary = ScriptedTransport::new();
    secondary.broadcast_script.push(Some(NetworkError::CouldNotDeliver));
    let mut chan = channel(ScriptedTransport::new(), secondary);
    let mut clock = Clock::new();
    let election = election_of(&[1]);
    let r = chan.broadcast_message(msg(7, vec![]), &election, &mut clock);
    assert_eq!(r, Ok(()));
}

#[test]
fn broadcast_ok_when_only_secondary_succeeds() {
    let mut primary = ScriptedTransport::new();
    primary.broadcast_script.push(Some(NetworkError::Timeout));
    let mut chan = channel(primary, ScriptedTransport::new());
    let mut clock = Clock::new();
    let election = election_of(&[1]);
    let r = chan.broadcast_message(msg(7, vec![]), &election, &mut clock);
    assert_eq!(r, Ok(()));
    // both transports were still sent to: a join, not an early return
    assert_eq!(chan.networks.0.call_count(), 1);
    assert_eq!(chan.networks.1.call_count(), 1);
}

#[test]
fn broadcast_double_failure_returns_secondary_error() {
    let mut primary = ScriptedTransport::new();
    primary.broadcast_script.push(Some(NetworkError::Timeout));
    let mut secondary = ScriptedTransport::new();
    secondary.broadcast_script.push(Some(NetworkError::CouldNotDeliver));
    let mut chan = channel(primary, secondary);
    let mut clock = Clock::new();
    let election = election_of(&[4, 5]);
    let r = chan.broadcast_message(msg(9, vec![8]), &election, &mut clock);
    assert_eq!(r, Err(NetworkError::CouldNotDeliver));
}

#[test]
fn broadcast_hands_both_transports_the_committee() {
    let mut chan = channel(ScriptedTransport::new(), ScriptedTransport::new());
    let mut clock = Clock::new();
    let election = election_of(&[10, 20]);
    let r = chan.broadcast_message(msg(42, vec![1, 2, 3]), &election, &mut clock);
    assert_eq!(r, Ok(()));
    for transport in [&chan.networks.0, &chan.networks.1] {
        assert_eq!(transport.calls.len(), 1);
        match &transport.calls[0] {
            CallRecord::Broadcast { view_number, payload, recipients, .. } => {
                assert_eq!(*view_number, 42);
                assert_eq!(payload, &vec![1, 2, 3]);
                assert!(recipients.contains(10));
                assert!(recipients.contains(20));
                assert!(!recipients.contains(30));
            }
            _ => panic!("expected a broadcast record"),
        }
    }
}

#[test]
fn direct_primary_success_never_touches_secondary() {
    let mut chan = channel(ScriptedTransport::new(), ScriptedTransport::new());
    let mut clock = Clock::new();
    let r = chan.direct_message(msg(1, vec![5]), 99, &mut clock);
    assert_eq!(r, Ok(()));
    assert_eq!(chan.networks.0.call_count(), 1);
    assert_eq!(chan.networks.1.call_count(), 0);
    assert_eq!(clock.now, 1);
}

#[test]
fn direct_primary_failure_falls_back_once() {
    let mut primary = ScriptedTransport::new();
    primary.direct_script.push(Some(NetworkError::NotReady));
    let mut secondary = ScriptedTransport::new();
    secondary.direct_script.push(Some(NetworkError::NoSuchNode));
    let mut chan = channel(primary, secondary);
    let mut clock = Clock::new();
    let r = chan.direct_message(msg(1, vec![]), 99, &mut clock);
    // the secondary's outcome is returned verbatim; the primary's error is gone
    assert_eq!(r, Err(NetworkError::NoSuchNode));
    assert_eq!(chan.networks.0.call_count(), 1);
    assert_eq!(chan.networks.1.call_count(), 1);
}

#[test]
fn direct_fallback_success_discards_primary_error() {
    // primary configured to fail; secondary succeeds
    let mut primary = ScriptedTransport::new();
    primary.direct_script.push(Some(NetworkError::NotReady));
    let mut chan = channel(primary, ScriptedTransport::new());
    let mut clock = Clock::new();
    let r = chan.direct_message(msg(3, vec![7, 7]), 21, &mut clock);
    assert_eq!(r, Ok(()));
    assert_eq!(chan.networks.1.call_count(), 1);
    match &chan.networks.1.calls[0] {
        CallRecord::Direct { view_number, payload, recipient, .. } => {
            assert_eq!(*view_number, 3);
            assert_eq!(payload, &vec![7, 7]);
            assert_eq!(*recipient, 21);
        }
        _ => panic!("expected a direct record"),
    }
}

#[test]
fn direct_fallback_is_ordered_after_primary() {
    let mut primary = ScriptedTransport::new();
    primary.direct_script.push(Some(NetworkError::Timeout));
    let mut chan = channel(primary, ScriptedTransport::new());
    let mut clock = Clock::new();
    chan.direct_message(msg(1, vec![]), 5, &mut clock).unwrap();
    let primary_stamp = match &chan.networks.0.calls[0] {
        CallRecord::Direct { stamp, .. } => *stamp,
        _ => panic!("expected a direct record"),
    };
    let secondary_stamp = match &chan.networks.1.calls[0] {
        CallRecord::Direct { stamp, .. } => *stamp,
        _ => panic!("expected a direct record"),
    };
    assert!(primary_stamp < secondary_stamp);
}

#[test]
fn recv_primary_success_returns_primary_queue_only() {
    let mut primary = ScriptedTransport::new();
    primary.recv_broadcast_script.push(Ok(vec![msg(4, vec![1]), msg(5, vec![2])]));
    let mut secondary = ScriptedTransport::new();
    secondary.recv_broadcast_script.push(Ok(vec![msg(6, vec![3])]));
    let mut chan = channel(primary, secondary);
    let mut clock = Clock::new();
    let msgs = chan.recv_msgs(TransmitType::Broadcast, &mut clock).unwrap();
    // the two queues are never merged in one call
    assert_eq!(msgs.len(), 2);
    assert_eq!(msgs[0].view_number, 4);
    assert_eq!(msgs[1].view_number, 5);
    assert_eq!(chan.networks.1.call_count(), 0);
}

#[test]
fn recv_falls_back_to_secondary_queue_on_primary_failure() {
    let mut primary = ScriptedTransport::new();
    primary.recv_direct_script.push(Err(NetworkError::ShutDown));
    let mut secondary = ScriptedTransport::new();
    secondary.recv_direct_script.push(Ok(vec![msg(8, vec![9])]));
    let mut chan = channel(primary, secondary);
    let mut clock = Clock::new();
    let msgs = chan.recv_msgs(TransmitType::Direct, &mut clock).unwrap();
    assert_eq!(msgs.len(), 1);
    assert_eq!(msgs[0].view_number, 8);
    assert_eq!(msgs[0].payload, vec![9]);
    assert_eq!(chan.networks.0.call_count(), 1);
    assert_eq!(chan.networks.1.call_count(), 1);
}

#[test]
fn recv_double_failure_returns_secondary_error() {
    let mut primary = ScriptedTransport::new();
    primary.recv_broadcast_script.push(Err(NetworkError::Timeout));
    let mut secondary = ScriptedTransport::new();
    secondary.recv_broadcast_script.push(Err(NetworkError::NotReady));
    let mut chan = channel(primary, secondary);
    let mut clock = Clock::new();
    let r = chan.recv_msgs(TransmitType::Broadcast, &mut clock);
    assert_eq!(r.unwrap_err(), NetworkError::NotReady);
}

#[test]
fn recv_transmit_types_use_their_own_queues() {
    let mut primary = ScriptedTransport::new();
    primary.recv_broadcast_script.push(Ok(vec![msg(1, vec![])]));
    primary.recv_direct_script.push(Err(NetworkError::Timeout));
    let mut secondary = ScriptedTransport::new();
    secondary.recv_direct_script.push(Ok(vec![msg(2, vec![]), msg(3, vec![])]));
    let mut chan = channel(primary, secondary);
    let mut clock = Clock::new();
    let broadcast_msgs = chan.recv_msgs(TransmitType::Broadcast, &mut clock).unwrap();
    assert_eq!(broadcast_msgs.len(), 1);
    assert_eq!(broadcast_msgs[0].view_number, 1);
    let direct_msgs = chan.recv_msgs(TransmitType::Direct, &mut clock).unwrap();
    assert_eq!(direct_msgs.len(), 2);
    assert_eq!(direct_msgs[0].view_number, 2);
}

#[test]
fn lookup_primary_success_never_touches_secondary() {
    let mut chan = channel(ScriptedTransport::new(), ScriptedTransport::new());
    let mut clock = Clock::new();
    let r = chan.lookup_node(77, &mut clock);
    assert_eq!(r, Ok(()));
    assert_eq!(chan.networks.0.call_count(), 1);
    assert_eq!(chan.networks.1.call_count(), 0);
    match &chan.networks.0.calls[0] {
        CallRecord::Lookup { key, .. } => assert_eq!(*key, 77),
        _ => panic!("expected a lookup record"),
    }
}

#[test]
fn lookup_falls_back_and_returns_secondary_outcome() {
    let mut primary = ScriptedTransport::new();
    primary.lookup_script.push(Some(NetworkError::NoSuchNode));
    let mut secondary = ScriptedTransport::new();
    secondary.lookup_script.push(Some(NetworkError::ShutDown));
    let mut chan = channel(primary, secondary);
    let mut clock = Clock::new();
    let r = chan.lookup_node(77, &mut clock);
    assert_eq!(r, Err(NetworkError::ShutDown));
    assert_eq!(chan.networks.1.call_count(), 1);
}

#[test]
fn inject_goes_to_primary_only() {
    let mut chan = channel(ScriptedTransport::new(), ScriptedTransport::new());
    let mut clock = Clock::new();
    let r = chan.inject_consensus_info((12, true, false), &mut clock);
    assert_eq!(r, Ok(()));
    assert_eq!(chan.networks.0.call_count(), 1);
    assert_eq!(chan.networks.1.call_count(), 0);
    match &chan.networks.0.calls[0] {
        CallRecord::Inject { view_number, syncing, leader, .. } => {
            assert_eq!(*view_number, 12);
            assert!(*syncing);
            assert!(!*leader);
        }
        _ => panic!("expected an inject record"),
    }
}

#[test]
fn inject_surfaces_primary_error_without_fallback() {
    let mut primary = ScriptedTransport::new();
    primary.inject_script.push(Some(NetworkError::ShutDown));
    let mut chan = channel(primary, ScriptedTransport::new());
    let mut clock = Clock::new();
    let r = chan.inject_consensus_info((1, false, false), &mut clock);
    assert_eq!(r, Err(NetworkError::ShutDown));
    // the secondary never receives this call, whatever the primary's outcome
    assert_eq!(chan.networks.1.call_count(), 0);
}

#[test]
fn is_ready_is_the_conjunction_of_both() {
    for (primary_ready, secondary_ready) in
        [(false, false), (false, true), (true, false), (true, true)]
    {
        let mut primary = ScriptedTransport::new();
        primary.ready = primary_ready;
        let mut secondary = ScriptedTransport::new();
        secondary.ready = secondary_ready;
        let mut chan = channel(primary, secondary);
        let mut clock = Clock::new();
        let r = chan.is_ready(&mut clock);
        assert_eq!(r, primary_ready && secondary_ready);
        // both transports are queried live, whatever the primary answered
        assert_eq!(chan.networks.0.call_count(), 1);
        assert_eq!(chan.networks.1.call_count(), 1);
    }
}

#[test]
fn wait_for_ready_waits_primary_out_before_secondary() {
    let mut chan = channel(ScriptedTransport::new(), ScriptedTransport::new());
    let mut clock = Clock::new();
    chan.wait_for_ready(&mut clock);
    let primary_stamp = match &chan.networks.0.calls[0] {
        CallRecord::WaitReady { stamp } => *stamp,
        _ => panic!("expected a wait record"),
    };
    let secondary_stamp = match &chan.networks.1.calls[0] {
        CallRecord::WaitReady { stamp } => *stamp,
        _ => panic!("expected a wait record"),
    };
    assert!(primary_stamp < secondary_stamp);
    assert!(chan.networks.0.ready);
    assert!(chan.networks.1.ready);
    assert!(chan.is_ready(&mut clock));
}

#[test]
fn shut_down_reaches_both_in_order() {
    let mut chan = channel(ScriptedTransport::new(), ScriptedTransport::new());
    let mut clock = Clock::new();
    chan.shut_down(&mut clock);
    let primary_stamp = match &chan.networks.0.calls[0] {
        CallRecord::ShutDown { stamp } => *stamp,
        _ => panic!("expected a shutdown record"),
    };
    let secondary_stamp = match &chan.networks.1.calls[0] {
        CallRecord::ShutDown { stamp } => *stamp,
        _ => panic!("expected a shutdown record"),
    };
    assert!(primary_stamp < secondary_stamp);
}

#[test]
fn accessors_return_the_pair() {
    let mut primary = ScriptedTransport::new();
    primary.ready = true;
    let chan = channel(primary, ScriptedTransport::new());
    assert!(chan.network().ready);
    assert!(!chan.fallback().ready);
}

#[test]
fn scripts_are_consumed_in_order() {
    let mut primary = ScriptedTransport::new();
    primary.direct_script.push(Some(NetworkError::Timeout));
    primary.direct_script.push(None);
    let mut secondary = ScriptedTransport::new();
    secondary.direct_script.push(Some(NetworkError::CouldNotDeliver));
    let mut chan = channel(primary, secondary);
    let mut clock = Clock::new();
    // first call: primary fails, secondary fails -> secondary's error
    let first = chan.direct_message(msg(1, vec![]), 2, &mut clock);
    assert_eq!(first, Err(NetworkError::CouldNotDeliver));
    // second call: primary's script now answers success
    let second = chan.direct_message(msg(1, vec![]), 2, &mut clock);
    assert_eq!(second, Ok(()));
    assert_eq!(chan.networks.0.call_count(), 2);
    assert_eq!(chan.networks.1.call_count(), 1);
}

#[test]
fn recipient_set_holds_inserted_keys() {
    let mut set = RecipientSet::new();
    assert!(!set.contains(5));
    set.insert(5);
    set.insert(6);
    set.insert(5);
    assert!(set.contains(5));
    assert!(set.contains(6));
    assert!(!set.contains(7));
    let copy = set.duplicate();
    assert!(copy.contains(5));
    assert!(copy.contains(6));
    assert!(!copy.contains(7));
}

#[test]
fn generate_network_builds_a_channel_over_the_pair() {
    let builder = WebServerWithFallbackCommChannel::<ScriptedTransport, ScriptedTransport>::generate_network();
    let mut primary = ScriptedTransport::new();
    primary.ready = true;
    let chan = builder((primary, ScriptedTransport::new()));
    assert!(chan.networks.0.ready);
    assert!(!chan.networks.1.ready);
}

#[test]
fn clock_stamps_increase_one_by_one() {
    let mut clock = Clock::new();
    assert_eq!(clock.tick(), 0);
    assert_eq!(clock.tick(), 1);
    assert_eq!(clock.now, 2);
}
