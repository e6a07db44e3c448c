//! What holds of the payment, proof and challenge lifecycles whatever is
//! called, stated over the mathematical values of the tables.
//!
//! [`LedgerCall`] and [`RegistryCall`] name every operation that changes the
//! payment tables or the proof registry, with its arguments;
//! [`ledger_after`] and [`registry_after`] give the tables after such a
//! call, by the same functions that the operations' contracts use.
use vstd::prelude::*;
use crate::primitives::{AccountId, Balance, Digest, Timestamp};
use crate::dataset_registry::DatasetRegistryView;
use crate::payment_manager::{PaymentManagerView, PaymentStatus};
use crate::zk_verifier::{ChallengeStatus, ProofStatus, ZKVerifierView};

verus! {

/// A call that can change the payment tables.
pub enum LedgerCall {
    CreatePayment {
        directory: DatasetRegistryView,
        dataset_id: u64,
        value: Balance,
        caller: AccountId,
        now: Timestamp,
        refund_sent: bool,
    },
    CompletePayment { query_id: u64, proof_hash: Digest, caller: AccountId },
    ReleaseEscrow { query_id: u64, now: Timestamp, provider_paid: bool, fee_paid: bool },
    RefundPayment { query_id: u64, caller: AccountId, refund_sent: bool },
    SetPlatformFee { fee_bps: u16, caller: AccountId },
    SetEscrowPeriod { period: u64, caller: AccountId },
}

/// The payment tables after `call`.
pub open spec fn ledger_after(tables: PaymentManagerView, call: LedgerCall) -> PaymentManagerView {
    match call {
        LedgerCall::CreatePayment { directory, dataset_id, value, caller, now, refund_sent } => {
            tables.create_payment(directory, dataset_id, value, caller, now, refund_sent).0
        },
        LedgerCall::CompletePayment { query_id, proof_hash, caller } => {
            tables.complete_payment(query_id, proof_hash, caller).0
        },
        LedgerCall::ReleaseEscrow { query_id, now, provider_paid, fee_paid } => {
            tables.release_escrow(query_id, now, provider_paid, fee_paid).0
        },
        LedgerCall::RefundPayment { query_id, caller, refund_sent } => {
            tables.refund_payment(query_id, caller, refund_sent).0
        },
        LedgerCall::SetPlatformFee { fee_bps, caller } => if caller == tables.owner {
            PaymentManagerView { platform_fee_bps: fee_bps, ..tables }
        } else {
            tables
        },
        LedgerCall::SetEscrowPeriod { period, caller } => if caller == tables.owner {
            PaymentManagerView { escrow_period: period, ..tables }
        } else {
            tables
        },
    }
}

/// A call that can change the proof registry, and through it the payment
/// tables.
pub enum RegistryCall {
    StoreVerificationKey {
        key_hash: Digest,
        key_data: Seq<u8>,
        circuit_type: Seq<char>,
        caller: AccountId,
    },
    SubmitProof {
        query_id: u64,
        dataset_id: u64,
        proof_data: Seq<u8>,
        public_inputs: Seq<u8>,
        verification_key_hash: Digest,
        challenge_hash: Digest,
        caller: AccountId,
        now: Timestamp,
    },
    RecordVerdict { proof_id: u64, caller: AccountId, valid: bool },
    ChallengeProof {
        proof_id: u64,
        reason: Seq<char>,
        stake: Balance,
        caller: AccountId,
        now: Timestamp,
    },
    ResolveChallenge {
        challenge_id: u64,
        accept: bool,
        caller: AccountId,
        stake_sent: bool,
        refund_sent: bool,
    },
    AddValidator { validator: AccountId, caller: AccountId },
    RemoveValidator { validator: AccountId, caller: AccountId },
    SetChallengeStake { stake: Balance, caller: AccountId },
    SetChallengePeriod { period: u64, caller: AccountId },
}

/// The proof registry and the payment tables after `call`.
pub open spec fn registry_after(
    registry: ZKVerifierView,
    tables: PaymentManagerView,
    call: RegistryCall,
) -> (ZKVerifierView, PaymentManagerView) {
    match call {
        RegistryCall::StoreVerificationKey { key_hash, key_data, circuit_type, caller } => (
            registry.store_verification_key(key_hash, key_data, circuit_type, caller),
            tables,
        ),
        RegistryCall::SubmitProof {
            query_id,
            dataset_id,
            proof_data,
            public_inputs,
            verification_key_hash,
            challenge_hash,
            caller,
            now,
        } => (
            registry.submit_proof(
                query_id,
                dataset_id,
                proof_data,
                public_inputs,
                verification_key_hash,
                challenge_hash,
                caller,
                now,
            ).0,
            tables,
        ),
        RegistryCall::RecordVerdict { proof_id, caller, valid } => {
            let outcome = registry.record_verdict(tables, proof_id, caller, valid);
            (outcome.0, outcome.1)
        },
        RegistryCall::ChallengeProof { proof_id, reason, stake, caller, now } => (
            registry.challenge_proof(proof_id, reason, stake, caller, now).0,
            tables,
        ),
        RegistryCall::ResolveChallenge { challenge_id, accept, caller, stake_sent, refund_sent } => {
            let outcome = registry.resolve_challenge(
                tables,
                challenge_id,
                accept,
                caller,
                stake_sent,
                refund_sent,
            );
            (outcome.0, outcome.1)
        },
        RegistryCall::AddValidator { validator, caller } => (
            if caller == registry.owner {
                ZKVerifierView { validators: registry.validators.insert(validator), ..registry }
            } else {
                registry
            },
            tables,
        ),
        RegistryCall::RemoveValidator { validator, caller } => (
            if caller == registry.owner {
                ZKVerifierView { validators: registry.validators.remove(validator), ..registry }
            } else {
                registry
            },
            tables,
        ),
        RegistryCall::SetChallengeStake { stake, caller } => (
            if caller == registry.owner {
                ZKVerifierView { min_challenge_stake: stake, ..registry }
            } else {
                registry
            },
            tables,
        ),
        RegistryCall::SetChallengePeriod { period, caller } => (
            if caller == registry.owner {
                ZKVerifierView { challenge_period: period, ..registry }
            } else {
                registry
            },
            tables,
        ),
    }
}

/// Two payments for one query are one payment.
pub proof fn lemma_one_payment_per_query(tables: PaymentManagerView, a: u64, b: u64)
    requires
        tables.wf(),
        tables.payments.contains_key(a),
        tables.payments.contains_key(b),
        tables.payments[a].query_id == tables.payments[b].query_id,
    ensures
        a == b,
{
}

/// A payment is always created under a query id that had none.
pub proof fn lemma_payment_ids_are_fresh(
    tables: PaymentManagerView,
    directory: DatasetRegistryView,
    dataset_id: u64,
    value: Balance,
    caller: AccountId,
    now: Timestamp,
    refund_sent: bool,
)
    requires
        tables.wf(),
    ensures
        tables.create_payment(directory, dataset_id, value, caller, now, refund_sent).1 matches Ok(
            created,
        ) ==> !tables.payments.contains_key(created.query_id) && !tables.escrows.contains_key(
            created.query_id,
        ),
{
    let query_id = tables.next_query_id;
}

/// Two proofs for one query are one proof.
pub proof fn lemma_one_proof_per_query(registry: ZKVerifierView, a: u64, b: u64)
    requires
        registry.wf(),
        registry.proofs.contains_key(a),
        registry.proofs.contains_key(b),
        registry.proofs[a].query_id == registry.proofs[b].query_id,
    ensures
        a == b,
{
}

/// Once a query has a proof, every submission for that query is refused,
/// whatever it holds and whoever sends it, and leaves the registry as it is.
pub proof fn lemma_resubmission_refused(
    registry: ZKVerifierView,
    query_id: u64,
    dataset_id: u64,
    proof_data: Seq<u8>,
    public_inputs: Seq<u8>,
    verification_key_hash: Digest,
    challenge_hash: Digest,
    caller: AccountId,
    now: Timestamp,
)
    requires
        registry.query_proofs.contains_key(query_id),
    ensures
        registry.submit_proof(
            query_id,
            dataset_id,
            proof_data,
            public_inputs,
            verification_key_hash,
            challenge_hash,
            caller,
            now,
        ).1 is Err,
        registry.submit_proof(
            query_id,
            dataset_id,
            proof_data,
            public_inputs,
            verification_key_hash,
            challenge_hash,
            caller,
            now,
        ).0 == registry,
{
}

/// A submission that is accepted gives its query a proof, so that
/// `lemma_resubmission_refused` applies to every submission after it.
pub proof fn lemma_submission_occupies_query(
    registry: ZKVerifierView,
    query_id: u64,
    dataset_id: u64,
    proof_data: Seq<u8>,
    public_inputs: Seq<u8>,
    verification_key_hash: Digest,
    challenge_hash: Digest,
    caller: AccountId,
    now: Timestamp,
)
    requires
        registry.submit_proof(
            query_id,
            dataset_id,
            proof_data,
            public_inputs,
            verification_key_hash,
            challenge_hash,
            caller,
            now,
        ).1 is Ok,
    ensures
        registry.submit_proof(
            query_id,
            dataset_id,
            proof_data,
            public_inputs,
            verification_key_hash,
            challenge_hash,
            caller,
            now,
        ).0.query_proofs.contains_key(query_id),
{
}

/// No call on the registry takes a proof away from a query that has one.
pub proof fn lemma_query_keeps_its_proof(
    registry: ZKVerifierView,
    tables: PaymentManagerView,
    call: RegistryCall,
    query_id: u64,
)
    requires
        registry.query_proofs.contains_key(query_id),
    ensures
        registry_after(registry, tables, call).0.query_proofs.contains_key(query_id),
        registry_after(registry, tables, call).0.query_proofs[query_id]
            == registry.query_proofs[query_id],
{
}

/// An escrow is released only when its payment is completed and its release
/// time has come; and then it is released exactly when both transfers went
/// through.
pub proof fn lemma_release_needs_completion_and_maturity(
    tables: PaymentManagerView,
    query_id: u64,
    now: Timestamp,
    provider_paid: bool,
    fee_paid: bool,
)
    ensures
        tables.release_escrow(query_id, now, provider_paid, fee_paid).1 is Ok ==> {
            &&& tables.payments.contains_key(query_id)
            &&& tables.escrows.contains_key(query_id)
            &&& tables.payments[query_id].status == PaymentStatus::Completed
            &&& now >= tables.escrows[query_id].release_time
            &&& provider_paid
        },
        tables.release_escrow(query_id, now, provider_paid, fee_paid).1 is Err ==> tables.release_escrow(
            query_id,
            now,
            provider_paid,
            fee_paid,
        ).0 == tables,
{
}

/// A released escrow is gone: a second release of the same query finds
/// nothing.
pub proof fn lemma_release_happens_once(
    tables: PaymentManagerView,
    query_id: u64,
    now: Timestamp,
    later: Timestamp,
    provider_paid: bool,
    fee_paid: bool,
)
    requires
        tables.release_escrow(query_id, now, true, true).1 is Ok,
    ensures
        tables.release_escrow(query_id, now, true, true).0.release_escrow(
            query_id,
            later,
            provider_paid,
            fee_paid,
        ).1 == Err::<crate::payment_manager::EscrowReleased, crate::payment_manager::Error>(
            crate::payment_manager::Error::PaymentNotFound,
        ),
{
}

/// Only a refund ordered by the proof registry moves a payment from
/// `Completed` to `Refunded`: no other call on the payment tables does, and
/// no other caller's refund does.
pub proof fn lemma_only_registry_refunds_completed(
    tables: PaymentManagerView,
    call: LedgerCall,
    query_id: u64,
)
    requires
        tables.wf(),
        tables.payments.contains_key(query_id),
        tables.payments[query_id].status == PaymentStatus::Completed,
        ledger_after(tables, call).payments[query_id].status == PaymentStatus::Refunded,
    ensures
        call == (LedgerCall::RefundPayment {
            query_id,
            caller: tables.zk_verifier,
            refund_sent: true,
        }),
{
}

/// Among the calls on the proof registry, only the upholding of a challenge
/// moves a payment from `Completed` to `Refunded`.
pub proof fn lemma_only_upheld_challenge_refunds_completed(
    registry: ZKVerifierView,
    tables: PaymentManagerView,
    call: RegistryCall,
    query_id: u64,
)
    requires
        registry.wf(),
        tables.wf(),
        tables.payments.contains_key(query_id),
        tables.payments[query_id].status == PaymentStatus::Completed,
        registry_after(registry, tables, call).1.payments[query_id].status
            == PaymentStatus::Refunded,
    ensures
        call matches RegistryCall::ResolveChallenge { challenge_id, accept, .. } && accept
            && registry.challenges.contains_key(challenge_id)
            && registry.challenges[challenge_id].status == ChallengeStatus::Active
            && registry.proofs[registry.challenges[challenge_id].proof_id].query_id == query_id,
{
}

/// A rejected proof stays rejected whatever is called.
pub proof fn lemma_rejected_is_final(
    registry: ZKVerifierView,
    tables: PaymentManagerView,
    call: RegistryCall,
    proof_id: u64,
)
    requires
        registry.wf(),
        registry.proofs.contains_key(proof_id),
        registry.proofs[proof_id].status == ProofStatus::Rejected,
    ensures
        registry_after(registry, tables, call).0.proofs.contains_key(proof_id),
        registry_after(registry, tables, call).0.proofs[proof_id].status == ProofStatus::Rejected,
{
}

/// A proof becomes `Verified` only by a verdict that found it valid, or by
/// the dismissal of the challenge against it; and it leaves `Verified` only
/// by being challenged.
pub proof fn lemma_verified_only_by_verdict_or_dismissal(
    registry: ZKVerifierView,
    tables: PaymentManagerView,
    call: RegistryCall,
    proof_id: u64,
)
    requires
        registry.wf(),
        registry.proofs.contains_key(proof_id),
    ensures
        ({
            let before = registry.proofs[proof_id].status;
            let after = registry_after(registry, tables, call).0.proofs[proof_id].status;
            &&& before != ProofStatus::Verified && after == ProofStatus::Verified ==> {
                ||| call matches RegistryCall::RecordVerdict { proof_id: id, valid, .. } && id
                    == proof_id && valid && before == ProofStatus::Pending
                ||| call matches RegistryCall::ResolveChallenge { accept, .. } && !accept && before
                    == ProofStatus::Challenged
            }
            &&& before == ProofStatus::Verified && after != ProofStatus::Verified ==> {
                &&& call matches RegistryCall::ChallengeProof { proof_id: id, .. } && id
                    == proof_id
                &&& after == ProofStatus::Challenged
            }
        }),
{
}

/// Every call keeps the payment tables well-formed, provided the counters
/// and the clock leave room for it.
pub proof fn lemma_ledger_stays_wf(tables: PaymentManagerView, call: LedgerCall)
    requires
        tables.wf(),
        call matches LedgerCall::CreatePayment { now, .. } ==> tables.next_query_id < u64::MAX
            && now + tables.escrow_period <= u64::MAX,
        call matches LedgerCall::SetPlatformFee { fee_bps, .. } ==> fee_bps
            <= crate::payment_manager::MAX_FEE_BPS,
    ensures
        ledger_after(tables, call).wf(),
{
}

/// Every call keeps the proof registry and the payment tables well-formed,
/// provided the counters and the clock leave room for it.
pub proof fn lemma_registry_stays_wf(
    registry: ZKVerifierView,
    tables: PaymentManagerView,
    call: RegistryCall,
)
    requires
        registry.wf(),
        tables.wf(),
        call is SubmitProof ==> registry.next_proof_id < u64::MAX,
        call matches RegistryCall::ChallengeProof { now, .. } ==> registry.next_challenge_id
            < u64::MAX && now + registry.challenge_period <= u64::MAX,
    ensures
        registry_after(registry, tables, call).0.wf(),
        registry_after(registry, tables, call).1.wf(),
{
}

/// The list of a consumer's payments depends only on who made each payment.
proof fn lemma_paid_below_agrees(
    a: PaymentManagerView,
    b: PaymentManagerView,
    user: AccountId,
    upto: nat,
)
    requires
        forall|id: u64|
            id < upto ==> (#[trigger] a.payments.contains_key(id)) == b.payments.contains_key(id),
        forall|id: u64|
            id < upto && #[trigger] a.payments.contains_key(id) ==> a.payments[id].user
                == b.payments[id].user,
    ensures
        a.paid_below(user, upto) == b.paid_below(user, upto),
    decreases upto,
{
    if upto > 1 {
        lemma_paid_below_agrees(a, b, user, (upto - 1) as nat);
    }
}

/// A consumer's list of payments only grows, and only by that consumer's
/// own new payment, which is listed last.
pub proof fn lemma_payment_is_listed_last(
    tables: PaymentManagerView,
    call: LedgerCall,
    user: AccountId,
)
    requires
        tables.wf(),
        tables.next_query_id < u64::MAX,
    ensures
        ({
            let after = ledger_after(tables, call);
            let query_id = tables.next_query_id;
            after.paid_by(user) == if after.payments.contains_key(query_id)
                && after.payments[query_id].user == user {
                tables.paid_by(user).push(query_id)
            } else {
                tables.paid_by(user)
            }
        }),
{
    let after = ledger_after(tables, call);
    let query_id = tables.next_query_id;
    lemma_paid_below_agrees(after, tables, user, query_id as nat);
}

/// The list of challenges against a proof depends only on which proof each
/// challenge is against.
proof fn lemma_challenges_below_agree(
    a: ZKVerifierView,
    b: ZKVerifierView,
    proof_id: u64,
    upto: nat,
)
    requires
        forall|id: u64|
            id < upto ==> (#[trigger] a.challenges.contains_key(id)) == b.challenges.contains_key(
                id,
            ),
        forall|id: u64|
            id < upto && #[trigger] a.challenges.contains_key(id) ==> a.challenges[id].proof_id
                == b.challenges[id].proof_id,
    ensures
        a.challenges_below(proof_id, upto) == b.challenges_below(proof_id, upto),
    decreases upto,
{
    if upto > 1 {
        lemma_challenges_below_agree(a, b, proof_id, (upto - 1) as nat);
    }
}

/// The list of challenges against a proof only grows, and only by a new
/// challenge against that proof, which is listed last.
pub proof fn lemma_challenge_is_listed_last(
    registry: ZKVerifierView,
    tables: PaymentManagerView,
    call: RegistryCall,
    proof_id: u64,
)
    requires
        registry.wf(),
        registry.next_challenge_id < u64::MAX,
    ensures
        ({
            let after = registry_after(registry, tables, call).0;
            let challenge_id = registry.next_challenge_id;
            after.challenges_of(proof_id) == if after.challenges.contains_key(challenge_id)
                && after.challenges[challenge_id].proof_id == proof_id {
                registry.challenges_of(proof_id).push(challenge_id)
            } else {
                registry.challenges_of(proof_id)
            }
        }),
{
    let after = registry_after(registry, tables, call).0;
    let challenge_id = registry.next_challenge_id;
    lemma_challenges_below_agree(after, registry, proof_id, challenge_id as nat);
}

/// The list of an owner's datasets depends only on who owns each dataset.
proof fn lemma_owned_below_agrees(
    a: DatasetRegistryView,
    b: DatasetRegistryView,
    owner: AccountId,
    upto: nat,
)
    requires
        forall|id: u64|
            id < upto ==> (#[trigger] a.datasets.contains_key(id)) == b.datasets.contains_key(id),
        forall|id: u64|
            id < upto && #[trigger] a.datasets.contains_key(id) ==> a.datasets[id].owner
                == b.datasets[id].owner,
    ensures
        a.owned_below(owner, upto) == b.owned_below(owner, upto),
    decreases upto,
{
    if upto > 1 {
        lemma_owned_below_agrees(a, b, owner, (upto - 1) as nat);
    }
}

/// A newly registered dataset is listed last among its owner's datasets,
/// and the lists of other owners stay as they are.
pub proof fn lemma_registration_is_listed_last(
    directory: DatasetRegistryView,
    dataset: crate::dataset_registry::DatasetView,
    owner: AccountId,
)
    requires
        directory.wf(),
        directory.next_dataset_id < u64::MAX,
    ensures
        ({
            let dataset_id = directory.next_dataset_id;
            let after = DatasetRegistryView {
                next_dataset_id: (dataset_id + 1) as u64,
                ..directory.with_dataset(dataset_id, dataset)
            };
            after.owned_by(owner) == if dataset.owner == owner {
                directory.owned_by(owner).push(dataset_id)
            } else {
                directory.owned_by(owner)
            }
        }),
{
    let dataset_id = directory.next_dataset_id;
    let after = DatasetRegistryView {
        next_dataset_id: (dataset_id + 1) as u64,
        ..directory.with_dataset(dataset_id, dataset)
    };
    lemma_owned_below_agrees(after, directory, owner, dataset_id as nat);
}

/// A change to a dataset that keeps its owner changes no owner's list.
pub proof fn lemma_update_keeps_listings(
    directory: DatasetRegistryView,
    dataset_id: u64,
    dataset: crate::dataset_registry::DatasetView,
    owner: AccountId,
)
    requires
        directory.datasets.contains_key(dataset_id),
        dataset.owner == directory.datasets[dataset_id].owner,
    ensures
        directory.with_dataset(dataset_id, dataset).owned_by(owner) == directory.owned_by(owner),
{
    lemma_owned_below_agrees(
        directory.with_dataset(dataset_id, dataset),
        directory,
        owner,
        directory.next_dataset_id as nat,
    );
}

/// What a payment was made for, by whom, when and for how much never changes.
pub proof fn lemma_payment_terms_are_fixed(
    tables: PaymentManagerView,
    call: LedgerCall,
    query_id: u64,
)
    requires
        tables.wf(),
        tables.payments.contains_key(query_id),
    ensures
        ({
            let before = tables.payments[query_id];
            let after = ledger_after(tables, call).payments[query_id];
            &&& ledger_after(tables, call).payments.contains_key(query_id)
            &&& after.query_id == before.query_id
            &&& after.dataset_id == before.dataset_id
            &&& after.user == before.user
            &&& after.amount == before.amount
            &&& after.timestamp == before.timestamp
        }),
{
}

/// A payment only moves forward: from `Pending` to `Completed` by a
/// completion, and from either to `Refunded` by a refund.
pub proof fn lemma_payment_moves_forward(
    tables: PaymentManagerView,
    call: LedgerCall,
    query_id: u64,
)
    requires
        tables.wf(),
        tables.payments.contains_key(query_id),
    ensures
        ({
            let before = tables.payments[query_id].status;
            let after = ledger_after(tables, call).payments[query_id].status;
            ||| after == before
            ||| before == PaymentStatus::Pending && after == PaymentStatus::Completed
                && call is CompletePayment
            ||| before != PaymentStatus::Refunded && after == PaymentStatus::Refunded
                && call is RefundPayment
        }),
{
}

/// An escrow leaves the tables only by being released or refunded, and
/// only if the transfer to whoever receives it went through.
pub proof fn lemma_escrow_leaves_only_by_settlement(
    tables: PaymentManagerView,
    call: LedgerCall,
    query_id: u64,
)
    requires
        tables.wf(),
        tables.escrows.contains_key(query_id),
        !ledger_after(tables, call).escrows.contains_key(query_id),
    ensures
        ({
            ||| call matches LedgerCall::ReleaseEscrow { query_id: id, provider_paid, .. } && id
                == query_id && provider_paid
            ||| call matches LedgerCall::RefundPayment { query_id: id, refund_sent, .. } && id
                == query_id && refund_sent
        }),
{
}

/// An escrow that was released or refunded does not come back: the funds of
/// a query are paid out at most once.
pub proof fn lemma_settled_escrow_stays_settled(
    tables: PaymentManagerView,
    call: LedgerCall,
    query_id: u64,
)
    requires
        tables.wf(),
        tables.payments.contains_key(query_id),
        !tables.escrows.contains_key(query_id),
    ensures
        !ledger_after(tables, call).escrows.contains_key(query_id),
{
}

/// An escrow holds what its payment cost until it is settled, and matures
/// when it was created to mature.
pub proof fn lemma_escrow_terms_are_fixed(
    tables: PaymentManagerView,
    call: LedgerCall,
    query_id: u64,
)
    requires
        tables.wf(),
        tables.escrows.contains_key(query_id),
        ledger_after(tables, call).escrows.contains_key(query_id),
    ensures
        ledger_after(tables, call).escrows[query_id] == tables.escrows[query_id],
{
}

} // verus!
