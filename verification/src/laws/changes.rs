//! What it means that an instruction writes a record.
use crate::account::EffectView;
use crate::builder::BuilderApproval;
use crate::coin::CoinConfig;
use crate::genesis::{GenesisConfig, GenesisDistribution, GenesisPosition};
use crate::laws::layout;
use vstd::prelude::*;

verus! {

/// The contents of the account at `index` are replaced: the bytes from `size` on stay as they were.
pub open spec fn replaces(effect: EffectView, index: usize, before: Seq<u8>, size: int) -> bool {
    &&& effect is Write
    &&& effect->account == index
    &&& effect->Write_data.len() == before.len()
    &&& forall|i: int| size <= i < before.len() ==> #[trigger] effect->Write_data[i] == before[i]
}

/// A new account at `index` is filled, all of its `size` bytes.
pub open spec fn fills(effect: EffectView, index: usize, size: int) -> bool {
    effect is Write && effect->account == index && effect->Write_data.len() == size
}

/// What is written holds a pool.
pub open spec fn holds_pool(effect: EffectView, cfg: GenesisConfig) -> bool {
    &&& GenesisConfig::decoded(effect->Write_data) is Ok
    &&& GenesisConfig::decoded(effect->Write_data)->Ok_0 == cfg
}

/// What is written holds a position.
pub open spec fn holds_position(effect: EffectView, position: GenesisPosition) -> bool {
    &&& GenesisPosition::decoded(effect->Write_data) is Ok
    &&& GenesisPosition::decoded(effect->Write_data)->Ok_0 == position
}

/// What is written holds a candidate.
pub open spec fn holds_candidate(effect: EffectView, candidate: GenesisDistribution) -> bool {
    &&& GenesisDistribution::decoded(effect->Write_data) is Ok
    &&& GenesisDistribution::decoded(effect->Write_data)->Ok_0 == candidate
}

/// What is written holds a COIN.
pub open spec fn holds_coin(effect: EffectView, coin: CoinConfig) -> bool {
    &&& CoinConfig::decoded(effect->Write_data) is Ok
    &&& CoinConfig::decoded(effect->Write_data)->Ok_0 == coin
}

/// What is written holds an approval.
pub open spec fn holds_approval(effect: EffectView, approval: BuilderApproval) -> bool {
    &&& BuilderApproval::decoded(effect->Write_data) is Ok
    &&& BuilderApproval::decoded(effect->Write_data)->Ok_0 == approval
}

proof fn lemma_kept(effect: EffectView, index: usize, before: Seq<u8>, size: int)
    requires
        0 <= size <= before.len(),
        effect is Write,
        effect->account == index,
        effect->Write_data.len() == before.len(),
        effect->Write_data.skip(size) == before.skip(size),
    ensures
        replaces(effect, index, before, size),
{
    let w = effect->Write_data;
    assert forall|i: int| size <= i < before.len() implies #[trigger] w[i] == before[i] by {
        assert(w.skip(size)[i - size] == before.skip(size)[i - size]);
    }
}

#[verifier::spinoff_prover]
pub proof fn lemma_pool_written(effect: EffectView, index: usize, before: Seq<u8>, cfg: GenesisConfig)
    requires
        cfg.finalized <= 1 && cfg.kicked <= 1,
        before.len() >= 192,
        effect == (EffectView::Write { account: index, data: cfg.written(before) }),
    ensures
        replaces(effect, index, before, 192),
        holds_pool(effect, cfg),
{
    cfg.round_trip(before);
    assert(cfg.written(before).skip(192) =~= before.skip(192));
    lemma_kept(effect, index, before, 192);
}

#[verifier::spinoff_prover]
pub proof fn lemma_position_written(
    effect: EffectView,
    index: usize,
    before: Seq<u8>,
    position: GenesisPosition,
)
    requires
        before.len() >= 112,
        effect == (EffectView::Write { account: index, data: position.written(before) }),
    ensures
        replaces(effect, index, before, 112),
        holds_position(effect, position),
{
    position.round_trip(before);
    assert(position.written(before).skip(112) =~= before.skip(112));
    lemma_kept(effect, index, before, 112);
}

#[verifier::spinoff_prover]
pub proof fn lemma_candidate_written(
    effect: EffectView,
    index: usize,
    before: Seq<u8>,
    candidate: GenesisDistribution,
)
    requires
        candidate.executed <= 1,
        before.len() >= 104,
        effect == (EffectView::Write { account: index, data: candidate.written(before) }),
    ensures
        replaces(effect, index, before, 104),
        holds_candidate(effect, candidate),
{
    candidate.round_trip(before);
    assert(candidate.written(before).skip(104) =~= before.skip(104));
    lemma_kept(effect, index, before, 104);
}

#[verifier::spinoff_prover]
pub proof fn lemma_coin_written(effect: EffectView, index: usize, before: Seq<u8>, coin: CoinConfig)
    requires
        coin.phase <= 1,
        before.len() >= 72,
        effect == (EffectView::Write { account: index, data: coin.written(before) }),
    ensures
        replaces(effect, index, before, 72),
        holds_coin(effect, coin),
{
    coin.round_trip(before);
    assert(coin.written(before).skip(72) =~= before.skip(72));
    lemma_kept(effect, index, before, 72);
}

#[verifier::spinoff_prover]
pub proof fn lemma_approval_written(
    effect: EffectView,
    index: usize,
    before: Seq<u8>,
    approval: BuilderApproval,
)
    requires
        approval.enabled <= 1,
        before.len() >= 152,
        effect == (EffectView::Write { account: index, data: approval.written(before) }),
    ensures
        replaces(effect, index, before, 152),
        holds_approval(effect, approval),
{
    approval.round_trip(before);
    assert(approval.written(before).skip(152) =~= before.skip(152));
    lemma_kept(effect, index, before, 152);
}

/// The records that are read: how long they are, and what their flags can be.
pub proof fn lemma_read(data: Seq<u8>)
    ensures
        GenesisConfig::decoded(data) matches Ok(cfg) ==> data.len() >= 192 && cfg.finalized <= 1
            && cfg.kicked <= 1,
        GenesisPosition::decoded(data) is Ok ==> data.len() >= 112,
        GenesisDistribution::decoded(data) matches Ok(c) ==> data.len() >= 104 && c.executed <= 1,
        CoinConfig::decoded(data) matches Ok(coin) ==> data.len() >= 72 && coin.phase <= 1,
        BuilderApproval::decoded(data) is Ok ==> data.len() >= 152,
{
    layout::where_a_pool_stands(data);
    layout::where_a_position_stands(data);
    layout::where_a_candidate_stands(data);
    layout::where_a_coin_stands(data);
    layout::where_an_approval_stands(data);
}

} // verus!
