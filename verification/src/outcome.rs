//! Engine outcomes and the observable effects of dispatching them.

use vstd::prelude::*;

verus! {

/// What the tunnel engine reports after one call
/// (encapsulate, decapsulate or a timer advance).
#[derive(Debug, PartialEq, Eq)]
pub enum Outcome {
    /// The engine produced ciphertext that must go to the remote peer.
    EmitNetwork(Vec<u8>),
    /// The engine produced a plaintext IPv4 packet for the local interface.
    Deliver4(Vec<u8>),
    /// The engine produced a plaintext IPv6 packet for the local interface.
    Deliver6(Vec<u8>),
    /// Nothing to do.
    Done,
    /// The engine declared the connection expired (timer advance only).
    Expired,
    /// Any other engine result; logged and otherwise ignored.
    Other,
}

/// One externally visible step the orchestrator takes while servicing an
/// event: an engine call it makes, or an I/O action it performs.
#[derive(Debug, PartialEq, Eq)]
pub enum Effect {
    /// The engine is asked to encapsulate exactly these plaintext bytes.
    CallEncapsulate(Vec<u8>),
    /// The engine is asked to decapsulate exactly these ciphertext bytes.
    CallDecapsulate(Vec<u8>),
    /// These bytes are written to the transport channel.
    SendTransport(Vec<u8>),
    /// These bytes are written to the interface channel.
    WriteInterface(Vec<u8>),
    /// A warning is logged; nothing else happens.
    LogWarn,
    /// A read error is logged; the event loop continues.
    LogError,
}

/// Mathematical model of an [`Effect`]: the same shape over byte sequences.
pub enum EffectModel {
    CallEncapsulate(Seq<u8>),
    CallDecapsulate(Seq<u8>),
    SendTransport(Seq<u8>),
    WriteInterface(Seq<u8>),
    LogWarn,
    LogError,
}

impl View for Effect {
    type V = EffectModel;

    open spec fn view(&self) -> EffectModel {
        match self {
            Effect::CallEncapsulate(b) => EffectModel::CallEncapsulate(b@),
            Effect::CallDecapsulate(b) => EffectModel::CallDecapsulate(b@),
            Effect::SendTransport(b) => EffectModel::SendTransport(b@),
            Effect::WriteInterface(b) => EffectModel::WriteInterface(b@),
            Effect::LogWarn => EffectModel::LogWarn,
            Effect::LogError => EffectModel::LogError,
        }
    }
}

/// The model of a whole effect list.
pub open spec fn models(effects: Seq<Effect>) -> Seq<EffectModel> {
    effects.map_values(|e: Effect| e@)
}

pub(crate) proof fn lemma_seq_add_assoc<A>(x: Seq<A>, y: Seq<A>, z: Seq<A>)
    ensures
        (x + y) + z == x + (y + z),
{
    assert((x + y) + z =~= x + (y + z));
}

} // verus!
