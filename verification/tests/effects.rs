use wg_client::decap::run_decap_loop;
use wg_client::dispatch::{plan_decap_step, plan_encapsulate, plan_timer, DecapStep, EncapPlan, TimerPlan};
use wg_client::events::{run_interface_read, run_read_events, ReadEvent};
use wg_client::netcfg::{select_bind_addr, AddrFamily};
use wg_client::outcome::{Effect, Outcome};

#[test]
fn timer_dispatch_table() {
    assert_eq!(plan_timer(Outcome::EmitNetwork(vec![1])), TimerPlan::Send(vec![1]));
    assert_eq!(plan_timer(Outcome::Done), TimerPlan::Nothing);
    assert_eq!(plan_timer(Outcome::Deliver4(vec![2])), TimerPlan::Deliver(vec![2]));
    assert_eq!(plan_timer(Outcome::Deliver6(vec![3])), TimerPlan::Deliver(vec![3]));
    assert_eq!(plan_timer(Outcome::Expired), TimerPlan::Reconnect);
    assert_eq!(plan_timer(Outcome::Other), TimerPlan::Warn);
}

#[test]
fn encapsulate_dispatch_table() {
    assert_eq!(plan_encapsulate(Outcome::EmitNetwork(vec![1])), EncapPlan::Send(vec![1]));
    assert_eq!(plan_encapsulate(Outcome::Done), EncapPlan::Nothing);
    assert_eq!(plan_encapsulate(Outcome::Deliver4(vec![2])), EncapPlan::Deliver(vec![2]));
    assert_eq!(plan_encapsulate(Outcome::Deliver6(vec![3])), EncapPlan::Deliver(vec![3]));
    // An expiry cannot come from encapsulate; it is only logged.
    assert_eq!(plan_encapsulate(Outcome::Expired), EncapPlan::Warn);
    assert_eq!(plan_encapsulate(Outcome::Other), EncapPlan::Warn);
}

#[test]
fn decap_step_table() {
    assert_eq!(
        plan_decap_step(Outcome::EmitNetwork(vec![1])),
        DecapStep::SendThenContinue(vec![1])
    );
    assert_eq!(plan_decap_step(Outcome::Done), DecapStep::Stop);
    assert_eq!(plan_decap_step(Outcome::Deliver4(vec![2])), DecapStep::DeliverThenStop(vec![2]));
    assert_eq!(plan_decap_step(Outcome::Deliver6(vec![3])), DecapStep::DeliverThenStop(vec![3]));
    assert_eq!(plan_decap_step(Outcome::Expired), DecapStep::WarnThenStop);
    assert_eq!(plan_decap_step(Outcome::Other), DecapStep::WarnThenStop);
}

#[test]
fn decap_deliver4_writes_exactly_that_packet() {
    // One datagram, one Deliver4 answer: one engine call, one interface
    // write of exactly the delivered packet, nothing further.
    let effects = run_decap_loop(vec![9, 9], vec![Outcome::Deliver4(vec![1, 2, 3])]);
    assert_eq!(
        effects,
        vec![
            Effect::CallDecapsulate(vec![9, 9]),
            Effect::WriteInterface(vec![1, 2, 3]),
        ]
    );
}

#[test]
fn decap_emit_run_sends_and_reinvokes_empty() {
    let effects = run_decap_loop(
        vec![8, 8, 8],
        vec![
            Outcome::EmitNetwork(vec![1]),
            Outcome::EmitNetwork(vec![2]),
            Outcome::Done,
        ],
    );
    assert_eq!(
        effects,
        vec![
            Effect::CallDecapsulate(vec![8, 8, 8]),
            Effect::SendTransport(vec![1]),
            Effect::CallDecapsulate(vec![]),
            Effect::SendTransport(vec![2]),
            Effect::CallDecapsulate(vec![]),
        ]
    );
}

#[test]
fn decap_done_stops_silently() {
    let effects = run_decap_loop(vec![5], vec![Outcome::Done]);
    assert_eq!(effects, vec![Effect::CallDecapsulate(vec![5])]);
}

#[test]
fn decap_unexpected_outcome_warns_and_stops() {
    let effects = run_decap_loop(vec![5], vec![Outcome::Other, Outcome::Done]);
    assert_eq!(effects, vec![Effect::CallDecapsulate(vec![5]), Effect::LogWarn]);
    let effects = run_decap_loop(vec![5], vec![Outcome::Expired]);
    assert_eq!(effects, vec![Effect::CallDecapsulate(vec![5]), Effect::LogWarn]);
}

#[test]
fn decap_deliver6_writes_and_stops() {
    let effects = run_decap_loop(
        vec![4],
        vec![Outcome::EmitNetwork(vec![6]), Outcome::Deliver6(vec![7, 8])],
    );
    assert_eq!(
        effects,
        vec![
            Effect::CallDecapsulate(vec![4]),
            Effect::SendTransport(vec![6]),
            Effect::CallDecapsulate(vec![]),
            Effect::WriteInterface(vec![7, 8]),
        ]
    );
}

#[test]
fn decap_with_empty_script_does_nothing() {
    let effects = run_decap_loop(vec![1, 2], vec![]);
    assert_eq!(effects, vec![]);
}

#[test]
fn interface_read_encapsulates_exactly_the_bytes_read() {
    // Seven bytes read: exactly one encapsulate call with those seven
    // bytes, then the emitted ciphertext goes to the transport.
    let packet = vec![1, 2, 3, 4, 5, 6, 7];
    let effects = run_interface_read(packet.clone(), Outcome::EmitNetwork(vec![9, 9]));
    assert_eq!(
        effects,
        vec![
            Effect::CallEncapsulate(packet),
            Effect::SendTransport(vec![9, 9]),
        ]
    );
}

#[test]
fn interface_read_of_zero_bytes_still_encapsulates_once() {
    let effects = run_interface_read(vec![], Outcome::Done);
    assert_eq!(effects, vec![Effect::CallEncapsulate(vec![])]);
}

#[test]
fn interface_read_at_buffer_capacity() {
    let packet = vec![0u8; wg_client::events::BUF_SIZE];
    let effects = run_interface_read(packet.clone(), Outcome::Done);
    assert_eq!(effects, vec![Effect::CallEncapsulate(packet)]);
}

#[test]
fn read_event_sequence_keeps_order_and_forwards_once() {
    let events = vec![
        ReadEvent::InterfaceData { packet: vec![1], outcome: Outcome::Done },
        ReadEvent::SocketData {
            packet: vec![2, 2],
            outcomes: vec![Outcome::Deliver4(vec![3])],
        },
        ReadEvent::InterfaceError,
        ReadEvent::InterfaceData {
            packet: vec![4, 4, 4],
            outcome: Outcome::EmitNetwork(vec![5]),
        },
        ReadEvent::SocketError,
    ];
    let effects = run_read_events(events);
    assert_eq!(
        effects,
        vec![
            Effect::CallEncapsulate(vec![1]),
            Effect::CallDecapsulate(vec![2, 2]),
            Effect::WriteInterface(vec![3]),
            Effect::LogError,
            Effect::CallEncapsulate(vec![4, 4, 4]),
            Effect::SendTransport(vec![5]),
            Effect::LogError,
        ]
    );
}

#[test]
fn bind_addr_matches_remote_family() {
    assert_eq!(select_bind_addr(Some(AddrFamily::V4)), "0.0.0.0:0");
    assert_eq!(select_bind_addr(Some(AddrFamily::V6)), "[::]:0");
    assert_eq!(select_bind_addr(None), "0.0.0.0:0");
}
