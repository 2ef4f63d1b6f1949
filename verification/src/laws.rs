use vstd::prelude::*;

use crate::addressing::pda_of;
use crate::errors::VaultError;
use crate::vault::Vault;

verus! {

/// One deposit or withdrawal request, by the amount it names.
#[derive(Clone, Copy, Debug, PartialEq, Eq, Structural)]
pub enum VaultOp {
    Deposit(u64),
    Withdraw(u64),
}

/// The state after one request, co-signed by `signer`, is applied to `v`.
pub open spec fn apply_op(v: Vault, signer: Seq<u8>, op: VaultOp) -> Vault {
    match op {
        VaultOp::Deposit(amount) => v.deposit_step(signer, amount),
        VaultOp::Withdraw(amount) => v.withdraw_step(signer, amount),
    }
}

/// The state after a sequence of requests is applied in order.
pub open spec fn apply_ops(v: Vault, signer: Seq<u8>, ops: Seq<VaultOp>) -> Vault
    decreases ops.len(),
{
    if ops.len() == 0 {
        v
    } else {
        apply_ops(apply_op(v, signer, ops[0]), signer, ops.subrange(1, ops.len() as int))
    }
}

/// The sum of the amounts of the deposits in `ops` that are accepted when
/// the sequence is applied in order from `v`.
pub open spec fn deposited(v: Vault, signer: Seq<u8>, ops: Seq<VaultOp>) -> int
    decreases ops.len(),
{
    if ops.len() == 0 {
        0
    } else {
        let head = match ops[0] {
            VaultOp::Deposit(amount) => if v.deposit_result(signer, amount) is Ok {
                amount as int
            } else {
                0
            },
            VaultOp::Withdraw(_) => 0,
        };
        head + deposited(apply_op(v, signer, ops[0]), signer, ops.subrange(1, ops.len() as int))
    }
}

/// The sum of the amounts of the withdrawals in `ops` that are accepted when
/// the sequence is applied in order from `v`.
pub open spec fn withdrawn(v: Vault, signer: Seq<u8>, ops: Seq<VaultOp>) -> int
    decreases ops.len(),
{
    if ops.len() == 0 {
        0
    } else {
        let head = match ops[0] {
            VaultOp::Withdraw(amount) => if v.withdraw_result(signer, amount) is Ok {
                amount as int
            } else {
                0
            },
            VaultOp::Deposit(_) => 0,
        };
        head + withdrawn(apply_op(v, signer, ops[0]), signer, ops.subrange(1, ops.len() as int))
    }
}

/// Determinism of derivation: the same seeds and namespace always yield the
/// same address and bump.
pub proof fn lemma_derivation_deterministic(
    tag1: Seq<u8>,
    key1: Seq<u8>,
    ns1: Seq<u8>,
    tag2: Seq<u8>,
    key2: Seq<u8>,
    ns2: Seq<u8>,
)
    requires
        tag1 == tag2,
        key1 == key2,
        ns1 == ns2,
    ensures
        pda_of(tag1, key1, ns1) == pda_of(tag2, key2, ns2),
{
}

/// Conservation: however a sequence of deposits and withdrawals runs, the
/// holding balance ends at its start plus the accepted deposits minus the
/// accepted withdrawals, the total of all balances in the slice never
/// changes, and well-formedness is preserved.
pub proof fn lemma_conservation(v: Vault, signer: Seq<u8>, ops: Seq<VaultOp>)
    requires
        v.wf(),
    ensures
        apply_ops(v, signer, ops).wf(),
        apply_ops(v, signer, ops).total() == v.total(),
        apply_ops(v, signer, ops).holding_balance == v.holding_balance + deposited(v, signer, ops)
            - withdrawn(v, signer, ops),
    decreases ops.len(),
{
    if ops.len() > 0 {
        let v1 = apply_op(v, signer, ops[0]);
        assert(v1.wf());
        assert(v1.total() == v.total());
        lemma_conservation(v1, signer, ops.subrange(1, ops.len() as int));
    }
}

/// Authority: a request co-signed by any identity other than the controller
/// is rejected as unauthorized — whatever amount it names — and changes
/// nothing.
pub proof fn lemma_authority(v: Vault, signer: Seq<u8>, amount: u64)
    requires
        signer != v.controller@,
    ensures
        v.withdraw_result(signer, amount) == Err::<(), VaultError>(VaultError::Unauthorized),
        v.close_result(signer) == Err::<(), VaultError>(VaultError::Unauthorized),
        v.deposit_result(signer, amount) == Err::<(), VaultError>(VaultError::Unauthorized),
        v.initialize_result(signer) == Err::<(), VaultError>(VaultError::Unauthorized),
        v.withdraw_step(signer, amount) == v,
        v.close_step(signer) == v,
        v.deposit_step(signer, amount) == v,
        v.initialize_step(signer) == v,
{
}

/// Idempotent re-derivation, first half: the bumps a successful
/// initialization stores always equal the canonical bumps recomputed from
/// the vault's own seeds.
pub proof fn lemma_rederivation_matches(v: Vault, signer: Seq<u8>)
    requires
        v.initialize_result(signer) is Ok,
    ensures
        v.initialize_step(signer).bumps_match(),
{
}

/// Idempotent re-derivation, second half: once a stored bump disagrees with
/// the canonical bump recomputed from the record's seeds, every operation
/// the controller replays is rejected as corrupt and changes nothing.
pub proof fn lemma_corrupt_state_rejected(v: Vault, signer: Seq<u8>, amount: u64)
    requires
        signer == v.controller@,
        v.record is Some,
        v.derivable(),
        !v.bumps_match(),
    ensures
        v.deposit_result(signer, amount) == Err::<(), VaultError>(VaultError::CorruptState),
        v.withdraw_result(signer, amount) == Err::<(), VaultError>(VaultError::CorruptState),
        v.close_result(signer) == Err::<(), VaultError>(VaultError::CorruptState),
        v.deposit_step(signer, amount) == v,
        v.withdraw_step(signer, amount) == v,
        v.close_step(signer) == v,
{
}

/// Close-then-create round trip: closing a vault holding balance `b` pays
/// the controller exactly `b` plus the storage refund and leaves both
/// addresses empty and the record absent; re-initializing at the same
/// controller then succeeds and yields a fresh zero-balance vault whose
/// stored bumps again match their derivation.
pub proof fn lemma_close_then_create(v: Vault, signer: Seq<u8>)
    requires
        v.wf(),
        signer == v.controller@,
        v.bumps_match(),
    ensures
        v.close_result(signer) is Ok,
        v.close_step(signer).controller_balance == v.controller_balance + v.holding_balance
            + v.record_balance,
        v.close_step(signer).holding_balance == 0,
        v.close_step(signer).record is None,
        v.close_step(signer).initialize_result(signer) is Ok,
        v.close_step(signer).initialize_step(signer).holding_balance == 0,
        v.close_step(signer).initialize_step(signer).bumps_match(),
        v.close_step(signer).initialize_step(signer).wf(),
{
    let c = v.close_step(signer);
    assert(c.state_pda() == v.state_pda());
    assert(c.vault_pda() == v.vault_pda());
}

} // verus!
