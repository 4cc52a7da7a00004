//! The decapsulate loop.
//!
//! One ciphertext datagram from the transport is handed to the engine.  As
//! long as the engine answers with network bytes, the orchestrator sends
//! them and re-invokes the engine with an empty input (this services
//! engine-internal retransmissions such as handshake responses).  The loop
//! ends at the first outcome that is not `EmitNetwork`: silently on `Done`,
//! after a single interface write on a delivery, after a log line on
//! anything else.
//!
//! [`run_decap_loop`] is the loop over a scripted outcome sequence: it
//! computes, for a given datagram and a given sequence of engine answers,
//! exactly which engine calls and I/O actions the orchestrator performs.
//! The live loop in the surrounding process takes each answer from the real
//! engine instead and steps with [`crate::dispatch::plan_decap_step`]; its
//! per-answer behaviour is this function's by construction.

use vstd::prelude::*;
use crate::dispatch::{plan_decap_step, DecapStep};
use crate::outcome::{lemma_seq_add_assoc, models, Effect, EffectModel, Outcome};

verus! {

/// The effects of running the decapsulate loop on `input` when the engine
/// answers with `script`, one outcome per call, in order.  A script shorter
/// than the loop demands simply cuts the run off after its last outcome.
pub open spec fn spec_decap_effects(input: Seq<u8>, script: Seq<Outcome>) -> Seq<EffectModel>
    decreases script.len(),
{
    if script.len() == 0 {
        Seq::empty()
    } else {
        match script[0] {
            Outcome::EmitNetwork(b) => seq![
                EffectModel::CallDecapsulate(input),
                EffectModel::SendTransport(b@),
            ] + spec_decap_effects(Seq::empty(), script.drop_first()),
            Outcome::Done => seq![EffectModel::CallDecapsulate(input)],
            Outcome::Deliver4(b) => seq![
                EffectModel::CallDecapsulate(input),
                EffectModel::WriteInterface(b@),
            ],
            Outcome::Deliver6(b) => seq![
                EffectModel::CallDecapsulate(input),
                EffectModel::WriteInterface(b@),
            ],
            _ => seq![EffectModel::CallDecapsulate(input), EffectModel::LogWarn],
        }
    }
}

/// Length of the longest prefix of `script` made of `EmitNetwork` answers:
/// the number of loop rounds that send and then re-invoke the engine.
pub open spec fn emit_prefix_len(script: Seq<Outcome>) -> nat
    decreases script.len(),
{
    if script.len() == 0 {
        0
    } else {
        match script[0] {
            Outcome::EmitNetwork(_) => 1 + emit_prefix_len(script.drop_first()),
            _ => 0,
        }
    }
}

/// The inputs of the decapsulate calls in an effect list, in order.
pub open spec fn decap_call_inputs(effects: Seq<EffectModel>) -> Seq<Seq<u8>>
    decreases effects.len(),
{
    if effects.len() == 0 {
        seq![]
    } else {
        match effects[0] {
            EffectModel::CallDecapsulate(b) => seq![b] + decap_call_inputs(effects.drop_first()),
            _ => decap_call_inputs(effects.drop_first()),
        }
    }
}

/// The number of transport sends in an effect list.
pub open spec fn send_count(effects: Seq<EffectModel>) -> nat
    decreases effects.len(),
{
    if effects.len() == 0 {
        0
    } else {
        match effects[0] {
            EffectModel::SendTransport(_) => 1 + send_count(effects.drop_first()),
            _ => send_count(effects.drop_first()),
        }
    }
}

proof fn lemma_call_inputs_add(x: Seq<EffectModel>, y: Seq<EffectModel>)
    ensures
        decap_call_inputs(x + y) == decap_call_inputs(x) + decap_call_inputs(y),
    decreases x.len(),
{
    if x.len() == 0 {
        assert(x + y =~= y);
        assert(decap_call_inputs(x) + decap_call_inputs(y) =~= decap_call_inputs(y));
    } else {
        assert((x + y).drop_first() =~= x.drop_first() + y);
        lemma_call_inputs_add(x.drop_first(), y);
        if x[0] is CallDecapsulate {
            lemma_seq_add_assoc(
                seq![x[0]->CallDecapsulate_0],
                decap_call_inputs(x.drop_first()),
                decap_call_inputs(y),
            );
        }
    }
}

proof fn lemma_send_count_add(x: Seq<EffectModel>, y: Seq<EffectModel>)
    ensures
        send_count(x + y) == send_count(x) + send_count(y),
    decreases x.len(),
{
    if x.len() == 0 {
        assert(x + y =~= y);
    } else {
        assert((x + y).drop_first() =~= x.drop_first() + y);
        lemma_send_count_add(x.drop_first(), y);
    }
}

proof fn lemma_terminal_pair(input: Seq<u8>, x: EffectModel)
    requires
        !(x is CallDecapsulate),
    ensures
        decap_call_inputs(seq![EffectModel::CallDecapsulate(input), x]) == seq![input],
        send_count(seq![EffectModel::CallDecapsulate(input), x])
            == if x is SendTransport { 1nat } else { 0nat },
{
    let pair = seq![EffectModel::CallDecapsulate(input), x];
    let tail = pair.drop_first();
    assert(tail =~= seq![x]);
    assert(tail.drop_first() =~= Seq::<EffectModel>::empty());
    assert(decap_call_inputs(tail.drop_first()) == Seq::<Seq<u8>>::empty());
    assert(decap_call_inputs(tail) == Seq::<Seq<u8>>::empty());
    assert(decap_call_inputs(pair) =~= seq![input]);
    assert(send_count(Seq::<EffectModel>::empty()) == 0);
    assert(send_count(tail.drop_first()) == 0);
    assert(send_count(tail) == if x is SendTransport { 1nat } else { 0nat });
    assert(send_count(pair) == send_count(tail));
}

/// The quantitative shape of the decapsulate loop: on a script that opens
/// with `k` `EmitNetwork` answers, the loop performs exactly `k` transport
/// sends — one per `EmitNetwork` — and exactly `k + 1` engine calls (`k`
/// when the script ends inside the emit run), of which the first carries
/// the original datagram and every later one a zero-length input.  In
/// particular the loop stops at the first answer that is not `EmitNetwork`.
pub proof fn lemma_decap_loop_shape(input: Seq<u8>, script: Seq<Outcome>)
    ensures
        send_count(spec_decap_effects(input, script)) == emit_prefix_len(script),
        decap_call_inputs(spec_decap_effects(input, script)).len()
            == if emit_prefix_len(script) == script.len() {
                script.len()
            } else {
                emit_prefix_len(script) + 1
            },
        script.len() > 0 ==> decap_call_inputs(spec_decap_effects(input, script))[0] == input,
        forall|j: int|
            1 <= j < decap_call_inputs(spec_decap_effects(input, script)).len()
                ==> decap_call_inputs(spec_decap_effects(input, script))[j] == Seq::<u8>::empty(),
    decreases script.len(),
{
    if script.len() == 0 {
    } else {
        match script[0] {
            Outcome::EmitNetwork(b) => {
                let head = seq![
                    EffectModel::CallDecapsulate(input),
                    EffectModel::SendTransport(b@),
                ];
                let rest = spec_decap_effects(Seq::empty(), script.drop_first());
                lemma_call_inputs_add(head, rest);
                lemma_send_count_add(head, rest);
                lemma_terminal_pair(input, EffectModel::SendTransport(b@));
                lemma_decap_loop_shape(Seq::empty(), script.drop_first());
                assert(decap_call_inputs(head + rest) =~= seq![input]
                    + decap_call_inputs(rest));
            }
            Outcome::Done => {
                let single = seq![EffectModel::CallDecapsulate(input)];
                assert(single.drop_first() =~= Seq::<EffectModel>::empty());
                assert(decap_call_inputs(Seq::<EffectModel>::empty()) == Seq::<Seq<u8>>::empty());
                assert(decap_call_inputs(single.drop_first()) == Seq::<Seq<u8>>::empty());
                assert(decap_call_inputs(single) =~= seq![input]);
                assert(send_count(Seq::<EffectModel>::empty()) == 0);
                assert(send_count(single) == 0);
            }
            Outcome::Deliver4(b) => {
                lemma_terminal_pair(input, EffectModel::WriteInterface(b@));
            }
            Outcome::Deliver6(b) => {
                lemma_terminal_pair(input, EffectModel::WriteInterface(b@));
            }
            Outcome::Expired => {
                lemma_terminal_pair(input, EffectModel::LogWarn);
            }
            Outcome::Other => {
                lemma_terminal_pair(input, EffectModel::LogWarn);
            }
        }
    }
}

/// The decapsulate loop never asks the engine to encapsulate.
pub proof fn lemma_decap_effects_no_encap(input: Seq<u8>, script: Seq<Outcome>)
    ensures
        forall|i: int| 0 <= i < spec_decap_effects(input, script).len()
            ==> !(#[trigger] spec_decap_effects(input, script)[i] is CallEncapsulate),
    decreases script.len(),
{
    if script.len() == 0 {
    } else {
        match script[0] {
            Outcome::EmitNetwork(_) => {
                lemma_decap_effects_no_encap(Seq::empty(), script.drop_first());
            }
            _ => {}
        }
    }
}

/// Run the decapsulate loop on one datagram against a scripted sequence of
/// engine answers, and return every engine call and I/O action it performs.
pub fn run_decap_loop(packet: Vec<u8>, script: Vec<Outcome>) -> (effects: Vec<Effect>)
    ensures
        models(effects@) == spec_decap_effects(packet@, script@),
{
    let ghost packet0 = packet@;
    let ghost script0 = script@;
    let mut script = script;
    let mut effects: Vec<Effect> = Vec::new();
    let mut input = packet;
    let mut running = true;
    while running && script.len() > 0
        invariant
            running ==> spec_decap_effects(packet0, script0) == models(effects@)
                + spec_decap_effects(input@, script@),
            !running ==> spec_decap_effects(packet0, script0) == models(effects@),
        decreases script@.len(),
    {
        let ghost effects_before = effects@;
        let ghost input_before = input@;
        let ghost script_before = script@;
        let o = script.remove(0);
        proof {
            assert(script_before.remove(0) =~= script_before.drop_first());
        }
        effects.push(Effect::CallDecapsulate(input));
        input = Vec::new();
        match plan_decap_step(o) {
            DecapStep::SendThenContinue(b) => {
                let ghost sent = b@;
                effects.push(Effect::SendTransport(b));
                proof {
                    assert(models(effects@) =~= models(effects_before)
                        + seq![
                            EffectModel::CallDecapsulate(input_before),
                            EffectModel::SendTransport(sent),
                        ]);
                    lemma_seq_add_assoc(
                        models(effects_before),
                        seq![
                            EffectModel::CallDecapsulate(input_before),
                            EffectModel::SendTransport(sent),
                        ],
                        spec_decap_effects(Seq::empty(), script_before.drop_first()),
                    );
                }
            }
            DecapStep::Stop => {
                running = false;
                proof {
                    assert(models(effects@) =~= models(effects_before)
                        + seq![EffectModel::CallDecapsulate(input_before)]);
                }
            }
            DecapStep::DeliverThenStop(b) => {
                let ghost written = b@;
                effects.push(Effect::WriteInterface(b));
                running = false;
                proof {
                    assert(models(effects@) =~= models(effects_before)
                        + seq![
                            EffectModel::CallDecapsulate(input_before),
                            EffectModel::WriteInterface(written),
                        ]);
                }
            }
            DecapStep::WarnThenStop => {
                effects.push(Effect::LogWarn);
                running = false;
                proof {
                    assert(models(effects@) =~= models(effects_before)
                        + seq![EffectModel::CallDecapsulate(input_before), EffectModel::LogWarn]);
                }
            }
        }
    }
    proof {
        if running {
            assert(spec_decap_effects(input@, script@) =~= Seq::<EffectModel>::empty());
            assert(spec_decap_effects(packet0, script0) =~= models(effects@));
        }
    }
    effects
}

} // verus!
