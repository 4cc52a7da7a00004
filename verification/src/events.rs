//! Dispatch of the two read sources of the event loop.
//!
//! Each loop iteration services exactly one ready source.  A successful
//! interface read of N bytes becomes one encapsulate call with exactly
//! those N bytes, followed by the single-shot outcome dispatch.  A
//! successful socket read becomes one run of the decapsulate loop.  A read
//! error on either source is logged and nothing else happens: read errors
//! are never fatal to the loop.

use vstd::prelude::*;
use crate::decap::{run_decap_loop, spec_decap_effects};
use crate::dispatch::{plan_encapsulate, EncapPlan};
use crate::outcome::{lemma_seq_add_assoc, models, Effect, EffectModel, Outcome};

verus! {

/// Capacity of the packet buffers: the maximum transport MTU plus protocol
/// overhead.  No packet handed to the engine is longer than this.
pub const BUF_SIZE: usize = 1600;

/// One readiness event of the two read sources, together with the engine
/// answers that servicing it will consume.
pub enum ReadEvent {
    /// The interface yielded one plaintext packet; `outcome` is the
    /// engine's answer to encapsulating it.
    InterfaceData { packet: Vec<u8>, outcome: Outcome },
    /// The interface read failed.
    InterfaceError,
    /// The socket yielded one ciphertext datagram; `outcomes` are the
    /// engine's answers to the decapsulate loop, one per call, in order.
    SocketData { packet: Vec<u8>, outcomes: Vec<Outcome> },
    /// The socket read failed.
    SocketError,
}

/// Packets handed to the engine fit the packet buffer.
pub open spec fn read_event_wf(ev: ReadEvent) -> bool {
    match ev {
        ReadEvent::InterfaceData { packet, outcome } => packet@.len() <= BUF_SIZE,
        ReadEvent::SocketData { packet, outcomes } => packet@.len() <= BUF_SIZE,
        _ => true,
    }
}

/// The effects of the single-shot dispatch after an encapsulate call.
pub open spec fn spec_encap_effects(o: Outcome) -> Seq<EffectModel> {
    match o {
        Outcome::EmitNetwork(b) => seq![EffectModel::SendTransport(b@)],
        Outcome::Done => seq![],
        Outcome::Deliver4(b) => seq![EffectModel::WriteInterface(b@)],
        Outcome::Deliver6(b) => seq![EffectModel::WriteInterface(b@)],
        _ => seq![EffectModel::LogWarn],
    }
}

/// The effects of servicing one read event.
pub open spec fn spec_read_event_effects(ev: ReadEvent) -> Seq<EffectModel> {
    match ev {
        ReadEvent::InterfaceData { packet, outcome } =>
            seq![EffectModel::CallEncapsulate(packet@)] + spec_encap_effects(outcome),
        ReadEvent::InterfaceError => seq![EffectModel::LogError],
        ReadEvent::SocketData { packet, outcomes } => spec_decap_effects(packet@, outcomes@),
        ReadEvent::SocketError => seq![EffectModel::LogError],
    }
}

/// The effects of servicing a whole sequence of read events, in order.
pub open spec fn spec_read_events_effects(events: Seq<ReadEvent>) -> Seq<EffectModel>
    decreases events.len(),
{
    if events.len() == 0 {
        Seq::empty()
    } else {
        spec_read_event_effects(events[0]) + spec_read_events_effects(events.drop_first())
    }
}

/// The inputs of the encapsulate calls in an effect list, in order.
pub open spec fn encap_call_inputs(effects: Seq<EffectModel>) -> Seq<Seq<u8>>
    decreases effects.len(),
{
    if effects.len() == 0 {
        seq![]
    } else {
        match effects[0] {
            EffectModel::CallEncapsulate(b) => seq![b] + encap_call_inputs(effects.drop_first()),
            _ => encap_call_inputs(effects.drop_first()),
        }
    }
}

/// The packets of the successful interface reads in an event list, in order.
pub open spec fn read_packets(events: Seq<ReadEvent>) -> Seq<Seq<u8>>
    decreases events.len(),
{
    if events.len() == 0 {
        seq![]
    } else {
        match events[0] {
            ReadEvent::InterfaceData { packet, outcome } =>
                seq![packet@] + read_packets(events.drop_first()),
            _ => read_packets(events.drop_first()),
        }
    }
}

proof fn lemma_encap_inputs_add(x: Seq<EffectModel>, y: Seq<EffectModel>)
    ensures
        encap_call_inputs(x + y) == encap_call_inputs(x) + encap_call_inputs(y),
    decreases x.len(),
{
    if x.len() == 0 {
        assert(x + y =~= y);
        assert(encap_call_inputs(x) + encap_call_inputs(y) =~= encap_call_inputs(y));
    } else {
        assert((x + y).drop_first() =~= x.drop_first() + y);
        lemma_encap_inputs_add(x.drop_first(), y);
        if x[0] is CallEncapsulate {
            lemma_seq_add_assoc(
                seq![x[0]->CallEncapsulate_0],
                encap_call_inputs(x.drop_first()),
                encap_call_inputs(y),
            );
        }
    }
}

proof fn lemma_encap_inputs_none(effects: Seq<EffectModel>)
    requires
        forall|i: int| 0 <= i < effects.len() ==> !(#[trigger] effects[i] is CallEncapsulate),
    ensures
        encap_call_inputs(effects) == Seq::<Seq<u8>>::empty(),
    decreases effects.len(),
{
    if effects.len() == 0 {
    } else {
        lemma_encap_inputs_none(effects.drop_first());
    }
}

/// Exactly-once forwarding: over any sequence of read events, the packets
/// handed to encapsulate are exactly the packets of the successful
/// interface reads, in order — one call per read, each with precisely the
/// bytes that the read yielded, and no encapsulate call from any other
/// source.
pub proof fn lemma_reads_encapsulate_exactly_once(events: Seq<ReadEvent>)
    ensures
        encap_call_inputs(spec_read_events_effects(events)) == read_packets(events),
    decreases events.len(),
{
    if events.len() == 0 {
    } else {
        let head = spec_read_event_effects(events[0]);
        let rest = spec_read_events_effects(events.drop_first());
        lemma_encap_inputs_add(head, rest);
        lemma_reads_encapsulate_exactly_once(events.drop_first());
        match events[0] {
            ReadEvent::InterfaceData { packet, outcome } => {
                let tail = spec_encap_effects(outcome);
                assert(forall|i: int| 0 <= i < tail.len()
                    ==> !(#[trigger] tail[i] is CallEncapsulate));
                lemma_encap_inputs_none(tail);
                assert(head.drop_first() =~= tail);
                assert(encap_call_inputs(head) =~= seq![packet@]);
                assert(encap_call_inputs(head + rest) =~= seq![packet@]
                    + encap_call_inputs(rest));
            }
            ReadEvent::InterfaceError => {
                assert(forall|i: int| 0 <= i < head.len()
                    ==> !(#[trigger] head[i] is CallEncapsulate));
                lemma_encap_inputs_none(head);
                assert(encap_call_inputs(head + rest) =~= encap_call_inputs(rest));
            }
            ReadEvent::SocketData { packet, outcomes } => {
                crate::decap::lemma_decap_effects_no_encap(packet@, outcomes@);
                lemma_encap_inputs_none(head);
                assert(encap_call_inputs(head + rest) =~= encap_call_inputs(rest));
            }
            ReadEvent::SocketError => {
                assert(forall|i: int| 0 <= i < head.len()
                    ==> !(#[trigger] head[i] is CallEncapsulate));
                lemma_encap_inputs_none(head);
                assert(encap_call_inputs(head + rest) =~= encap_call_inputs(rest));
            }
        }
    }
}

/// Service one successful interface read: exactly one encapsulate call
/// with exactly the bytes that were read, then the single-shot dispatch
/// of the engine's answer.
pub fn run_interface_read(packet: Vec<u8>, outcome: Outcome) -> (effects: Vec<Effect>)
    requires
        packet@.len() <= BUF_SIZE,
    ensures
        models(effects@) == seq![EffectModel::CallEncapsulate(packet@)]
            + spec_encap_effects(outcome),
{
    let ghost p0 = packet@;
    let mut effects: Vec<Effect> = Vec::new();
    effects.push(Effect::CallEncapsulate(packet));
    match plan_encapsulate(outcome) {
        EncapPlan::Send(b) => {
            let ghost s = b@;
            effects.push(Effect::SendTransport(b));
            proof {
                assert(models(effects@) =~= seq![EffectModel::CallEncapsulate(p0)]
                    + spec_encap_effects(outcome));
            }
        }
        EncapPlan::Nothing => {
            proof {
                assert(models(effects@) =~= seq![EffectModel::CallEncapsulate(p0)]
                    + spec_encap_effects(outcome));
            }
        }
        EncapPlan::Deliver(b) => {
            let ghost s = b@;
            effects.push(Effect::WriteInterface(b));
            proof {
                assert(models(effects@) =~= seq![EffectModel::CallEncapsulate(p0)]
                    + spec_encap_effects(outcome));
            }
        }
        EncapPlan::Warn => {
            effects.push(Effect::LogWarn);
            proof {
                assert(models(effects@) =~= seq![EffectModel::CallEncapsulate(p0)]
                    + spec_encap_effects(outcome));
            }
        }
    }
    effects
}

/// Service a sequence of read events, in order, and return every engine
/// call and I/O action performed.
pub fn run_read_events(events: Vec<ReadEvent>) -> (effects: Vec<Effect>)
    requires
        forall|i: int| 0 <= i < events@.len() ==> read_event_wf(#[trigger] events@[i]),
    ensures
        models(effects@) == spec_read_events_effects(events@),
{
    let ghost events0 = events@;
    let mut events = events;
    let mut effects: Vec<Effect> = Vec::new();
    while events.len() > 0
        invariant
            forall|i: int| 0 <= i < events@.len() ==> read_event_wf(#[trigger] events@[i]),
            spec_read_events_effects(events0) == models(effects@)
                + spec_read_events_effects(events@),
        decreases events@.len(),
    {
        let ghost events_before = events@;
        let ghost effects_before = effects@;
        let ev = events.remove(0);
        proof {
            assert(events_before.remove(0) =~= events_before.drop_first());
        }
        let mut sub: Vec<Effect> = match ev {
            ReadEvent::InterfaceData { packet, outcome } => run_interface_read(packet, outcome),
            ReadEvent::InterfaceError => vec![Effect::LogError],
            ReadEvent::SocketData { packet, outcomes } => run_decap_loop(packet, outcomes),
            ReadEvent::SocketError => vec![Effect::LogError],
        };
        let ghost sub0 = sub@;
        proof {
            assert(models(sub0) =~= spec_read_event_effects(events_before[0]));
        }
        effects.append(&mut sub);
        proof {
            assert(models(effects@) =~= models(effects_before) + models(sub0));
            lemma_seq_add_assoc(
                models(effects_before),
                models(sub0),
                spec_read_events_effects(events_before.drop_first()),
            );
        }
    }
    proof {
        assert(spec_read_events_effects(events@) =~= Seq::<EffectModel>::empty());
        assert(models(effects@) =~= spec_read_events_effects(events0));
    }
    effects
}

} // verus!
