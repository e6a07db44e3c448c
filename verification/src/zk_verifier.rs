//! Proofs, verification keys and challenges.
//!
//! A proof is submitted once per query, then verified or rejected by a
//! validator. A verified proof completes the query's payment. While its
//! challenge window is open, anyone may stake a challenge against it; the
//! administrator then either upholds the challenge, which rejects the proof
//! and refunds the consumer, or dismisses it, which forfeits the stake.
use vstd::prelude::*;
use std::collections::HashMap;
use crate::primitives::{contains_account, same_hash, AccountId, Balance, Digest, Timestamp};
use crate::hashing::{calculate_proof_hash, hash_data, keccak256_digest};
use crate::payment_manager::{
    PaymentCompleted,
    PaymentManager,
    PaymentManagerView,
    PaymentRefunded,
};

verus! {

/// Where a proof stands.
#[derive(Debug, Clone, Copy, PartialEq, Eq, Structural)]
pub enum ProofStatus {
    /// Submitted, not yet checked.
    Pending,
    /// Accepted by a validator; may still be challenged.
    Verified,
    /// Refused by a validator, or overturned by a challenge. Final.
    Rejected,
    /// Under an active challenge.
    Challenged,
}

/// A proof that a query was executed correctly.
#[derive(Debug, PartialEq, Eq)]
pub struct ZKProof {
    pub proof_id: u64,
    pub query_id: u64,
    pub dataset_id: u64,
    pub prover: AccountId,
    /// The serialized proof.
    pub proof_data: Vec<u8>,
    /// The public inputs the proof is checked against.
    pub public_inputs: Vec<u8>,
    pub verification_key_hash: Digest,
    pub created_at: Timestamp,
    pub status: ProofStatus,
    pub challenge_hash: Digest,
}

/// What a [`ZKProof`] holds, as mathematical values.
pub struct ZKProofView {
    pub proof_id: u64,
    pub query_id: u64,
    pub dataset_id: u64,
    pub prover: AccountId,
    pub proof_data: Seq<u8>,
    pub public_inputs: Seq<u8>,
    pub verification_key_hash: Digest,
    pub created_at: Timestamp,
    pub status: ProofStatus,
    pub challenge_hash: Digest,
}

impl View for ZKProof {
    type V = ZKProofView;

    open spec fn view(&self) -> ZKProofView {
        ZKProofView {
            proof_id: self.proof_id,
            query_id: self.query_id,
            dataset_id: self.dataset_id,
            prover: self.prover,
            proof_data: self.proof_data@,
            public_inputs: self.public_inputs@,
            verification_key_hash: self.verification_key_hash,
            created_at: self.created_at,
            status: self.status,
            challenge_hash: self.challenge_hash,
        }
    }
}

impl Clone for ZKProof {
    fn clone(&self) -> (copy: ZKProof)
        ensures
            copy@ == self@,
    {
        ZKProof {
            proof_id: self.proof_id,
            query_id: self.query_id,
            dataset_id: self.dataset_id,
            prover: self.prover,
            proof_data: self.proof_data.clone(),
            public_inputs: self.public_inputs.clone(),
            verification_key_hash: self.verification_key_hash,
            created_at: self.created_at,
            status: self.status,
            challenge_hash: self.challenge_hash,
        }
    }
}

/// A key that proofs of one circuit are verified against.
#[derive(Debug, PartialEq, Eq)]
pub struct VerificationKey {
    /// The Keccak-256 digest of `key_data`.
    pub key_hash: Digest,
    pub key_data: Vec<u8>,
    pub circuit_type: String,
    pub owner: AccountId,
    pub is_active: bool,
}

/// What a [`VerificationKey`] holds, as mathematical values.
pub struct VerificationKeyView {
    pub key_hash: Digest,
    pub key_data: Seq<u8>,
    pub circuit_type: Seq<char>,
    pub owner: AccountId,
    pub is_active: bool,
}

impl View for VerificationKey {
    type V = VerificationKeyView;

    open spec fn view(&self) -> VerificationKeyView {
        VerificationKeyView {
            key_hash: self.key_hash,
            key_data: self.key_data@,
            circuit_type: self.circuit_type@,
            owner: self.owner,
            is_active: self.is_active,
        }
    }
}

impl Clone for VerificationKey {
    fn clone(&self) -> (copy: VerificationKey)
        ensures
            copy@ == self@,
    {
        VerificationKey {
            key_hash: self.key_hash,
            key_data: self.key_data.clone(),
            circuit_type: self.circuit_type.clone(),
            owner: self.owner,
            is_active: self.is_active,
        }
    }
}

/// Where a challenge stands.
#[derive(Debug, Clone, Copy, PartialEq, Eq, Structural)]
pub enum ChallengeStatus {
    /// Raised, not yet adjudicated.
    Active,
    /// Upheld: the proof was rejected.
    Resolved,
    /// Dismissed: the stake was forfeited.
    Dismissed,
}

/// A stake-backed dispute of a verified proof.
#[derive(Debug, PartialEq, Eq)]
pub struct Challenge {
    pub challenge_id: u64,
    pub proof_id: u64,
    pub challenger: AccountId,
    pub stake: Balance,
    pub reason: String,
    pub created_at: Timestamp,
    pub resolution_deadline: Timestamp,
    pub status: ChallengeStatus,
}

/// What a [`Challenge`] holds, as mathematical values.
pub struct ChallengeView {
    pub challenge_id: u64,
    pub proof_id: u64,
    pub challenger: AccountId,
    pub stake: Balance,
    pub reason: Seq<char>,
    pub created_at: Timestamp,
    pub resolution_deadline: Timestamp,
    pub status: ChallengeStatus,
}

impl View for Challenge {
    type V = ChallengeView;

    open spec fn view(&self) -> ChallengeView {
        ChallengeView {
            challenge_id: self.challenge_id,
            proof_id: self.proof_id,
            challenger: self.challenger,
            stake: self.stake,
            reason: self.reason@,
            created_at: self.created_at,
            resolution_deadline: self.resolution_deadline,
            status: self.status,
        }
    }
}

impl Clone for Challenge {
    fn clone(&self) -> (copy: Challenge)
        ensures
            copy@ == self@,
    {
        Challenge {
            challenge_id: self.challenge_id,
            proof_id: self.proof_id,
            challenger: self.challenger,
            stake: self.stake,
            reason: self.reason.clone(),
            created_at: self.created_at,
            resolution_deadline: self.resolution_deadline,
            status: self.status,
        }
    }
}

/// Emitted when a proof is submitted.
#[derive(Debug, Clone, Copy, PartialEq, Eq)]
pub struct ProofSubmitted {
    pub proof_id: u64,
    pub query_id: u64,
    pub prover: AccountId,
    pub dataset_id: u64,
}

/// Emitted when a proof is verified.
#[derive(Debug, Clone, Copy, PartialEq, Eq)]
pub struct ProofVerified {
    pub proof_id: u64,
    pub query_id: u64,
    pub verifier: AccountId,
}

/// Emitted when a proof is rejected by a validator.
#[derive(Debug, Clone, PartialEq, Eq)]
pub struct ProofRejected {
    pub proof_id: u64,
    pub reason: String,
}

/// Emitted when a proof is challenged.
#[derive(Debug, Clone, Copy, PartialEq, Eq)]
pub struct ProofChallenged {
    pub challenge_id: u64,
    pub proof_id: u64,
    pub challenger: AccountId,
    pub stake: Balance,
}

/// Emitted when a verification key is registered.
#[derive(Debug, Clone, PartialEq, Eq)]
pub struct VerificationKeyRegistered {
    pub key_hash: Digest,
    pub owner: AccountId,
    pub circuit_type: String,
}

/// Why a proof or challenge operation was refused.
#[derive(Debug, Clone, Copy, PartialEq, Eq, Structural)]
pub enum Error {
    ProofNotFound,
    NotAuthorized,
    InvalidProof,
    /// The query already has a proof, or the proof was already checked.
    ProofAlreadyVerified,
    VerificationKeyNotFound,
    InsufficientStake,
    ChallengeNotFound,
    ChallengePeriodExpired,
    InvalidChallenge,
    TransferFailed,
    /// The payment manager refused the completion or the refund that the
    /// operation depends on.
    PaymentFailed(crate::payment_manager::Error),
}

/// What came of checking a proof.
#[derive(Debug, Clone, PartialEq, Eq)]
pub enum Verdict {
    /// The proof was accepted and the query's payment completed.
    Verified { proof: ProofVerified, payment: PaymentCompleted },
    /// The proof was refused.
    Rejected(ProofRejected),
}

/// What the host must transfer before a challenge is resolved.
#[derive(Debug, Clone, Copy, PartialEq, Eq)]
pub struct StakeTransfer {
    /// The challenger if the challenge is upheld, the administrator if not.
    pub recipient: AccountId,
    pub amount: Balance,
    /// The query whose escrow goes back to the consumer, if the challenge is
    /// upheld.
    pub refund_query: Option<u64>,
}

/// The capability that decides whether a proof is valid for a key.
pub trait ProofVerifier {
    fn verify(&self, proof: &ZKProof, key: &VerificationKey) -> bool;
}

/// A stand-in verifier that accepts any proof with non-empty proof bytes and
/// non-empty public inputs. It checks no cryptography.
pub struct NonEmptyVerifier;

impl ProofVerifier for NonEmptyVerifier {
    fn verify(&self, proof: &ZKProof, key: &VerificationKey) -> (valid: bool)
        ensures
            valid == (proof@.proof_data.len() > 0 && proof@.public_inputs.len() > 0),
    {
        !(proof.proof_data.is_empty() || proof.public_inputs.is_empty())
    }
}

/// The proof registry and challenge adjudicator.
pub struct ZKVerifier {
    account: AccountId,
    payment_manager: AccountId,
    dataset_registry: AccountId,
    proofs: HashMap<u64, ZKProof>,
    query_proofs: HashMap<u64, u64>,
    verification_keys: Vec<VerificationKey>,
    challenges: HashMap<u64, Challenge>,
    next_proof_id: u64,
    next_challenge_id: u64,
    owner: AccountId,
    min_challenge_stake: Balance,
    challenge_period: u64,
    validators: Vec<AccountId>,
}

/// The registry as a mathematical value.
pub struct ZKVerifierView {
    /// The registry's own identity, which it presents to the payment
    /// manager.
    pub account: AccountId,
    /// The identity of the payment manager.
    pub payment_manager: AccountId,
    /// The identity of the dataset directory.
    pub dataset_registry: AccountId,
    /// Every proof submitted so far, by proof id.
    pub proofs: Map<u64, ZKProofView>,
    /// The proof of each query that has one.
    pub query_proofs: Map<u64, u64>,
    /// The registered verification keys, by the digest of their bytes.
    pub verification_keys: Map<Digest, VerificationKeyView>,
    /// Every challenge raised so far, by challenge id.
    pub challenges: Map<u64, ChallengeView>,
    /// The id the next proof will receive.
    pub next_proof_id: u64,
    /// The id the next challenge will receive.
    pub next_challenge_id: u64,
    /// The administrator, who resolves challenges and receives forfeited
    /// stakes.
    pub owner: AccountId,
    /// The least stake a challenge must carry.
    pub min_challenge_stake: Balance,
    /// How long after its submission a proof may be challenged, in
    /// milliseconds.
    pub challenge_period: u64,
    /// The accounts that may verify proofs, besides the administrator.
    pub validators: Set<AccountId>,
}

/// The keys of `keys` by their digest; of two keys with one digest the later
/// counts.
pub open spec fn key_table(keys: Seq<VerificationKey>) -> Map<Digest, VerificationKeyView>
    decreases keys.len(),
{
    if keys.len() == 0 {
        Map::empty()
    } else {
        key_table(keys.drop_last()).insert(keys.last().key_hash, keys.last()@)
    }
}

impl ZKProofView {
    /// The digest that binds the proof to its payment.
    pub open spec fn digest(self) -> Digest {
        keccak256_digest(self.proof_data + self.public_inputs)
    }
}

impl ZKVerifierView {
    /// Ids are handed out from 1 upwards without gaps; every record is stored
    /// under its own id; a query has at most one proof; every proof names a
    /// registered key; an active challenge is the only one against its
    /// proof, and that proof is `Challenged`.
    pub open spec fn wf(self) -> bool {
        &&& self.next_proof_id >= 1
        &&& self.next_challenge_id >= 1
        &&& forall|id: u64| #[trigger]
            self.proofs.contains_key(id) <==> 1 <= id < self.next_proof_id
        &&& forall|id: u64| #[trigger] self.proofs.contains_key(id) ==> self.proof_wf(id)
        &&& forall|query_id: u64| #[trigger]
            self.query_proofs.contains_key(query_id) ==> self.proofs.contains_key(
                self.query_proofs[query_id],
            ) && self.proofs[self.query_proofs[query_id]].query_id == query_id
        &&& forall|hash: Digest| #[trigger]
            self.verification_keys.contains_key(hash) ==> self.verification_keys[hash].key_hash
                == hash
        &&& forall|id: u64| #[trigger]
            self.challenges.contains_key(id) <==> 1 <= id < self.next_challenge_id
        &&& forall|id: u64| #[trigger] self.challenges.contains_key(id) ==> self.challenge_wf(id)
        &&& forall|a: u64, b: u64|
            #![trigger self.challenges[a], self.challenges[b]]
            self.challenges.contains_key(a) && self.challenges.contains_key(b)
                && self.challenges[a].status == ChallengeStatus::Active
                && self.challenges[b].status == ChallengeStatus::Active
                && self.challenges[a].proof_id == self.challenges[b].proof_id ==> a == b
    }

    /// What holds of the proof stored under `id`.
    pub open spec fn proof_wf(self, id: u64) -> bool {
        let proof = self.proofs[id];
        &&& proof.proof_id == id
        &&& self.query_proofs.contains_key(proof.query_id)
        &&& self.query_proofs[proof.query_id] == id
        &&& self.verification_keys.contains_key(proof.verification_key_hash)
    }

    /// What holds of the challenge stored under `id`.
    pub open spec fn challenge_wf(self, id: u64) -> bool {
        let challenge = self.challenges[id];
        &&& challenge.challenge_id == id
        &&& self.proofs.contains_key(challenge.proof_id)
        &&& challenge.status == ChallengeStatus::Active ==> self.proofs[challenge.proof_id].status
            == ProofStatus::Challenged
    }

    /// The registry with the status of the proof `proof_id` set to `status`.
    pub open spec fn with_proof_status(self, proof_id: u64, status: ProofStatus) -> Self {
        ZKVerifierView {
            proofs: self.proofs.insert(proof_id, ZKProofView { status, ..self.proofs[proof_id] }),
            ..self
        }
    }

    /// The registry with the status of the challenge `challenge_id` set to
    /// `status`.
    pub open spec fn with_challenge_status(self, challenge_id: u64, status: ChallengeStatus) -> Self {
        ZKVerifierView {
            challenges: self.challenges.insert(
                challenge_id,
                ChallengeView { status, ..self.challenges[challenge_id] },
            ),
            ..self
        }
    }

    /// The registry after `caller` registered the key `key_data` under
    /// `key_hash`. A key that is already registered stays as it is.
    pub open spec fn store_verification_key(
        self,
        key_hash: Digest,
        key_data: Seq<u8>,
        circuit_type: Seq<char>,
        caller: AccountId,
    ) -> Self {
        if self.verification_keys.contains_key(key_hash) {
            self
        } else {
            ZKVerifierView {
                verification_keys: self.verification_keys.insert(
                    key_hash,
                    VerificationKeyView {
                        key_hash,
                        key_data,
                        circuit_type,
                        owner: caller,
                        is_active: true,
                    },
                ),
                ..self
            }
        }
    }

    /// Why a proof for `query_id` under the key `verification_key_hash` is
    /// not accepted for submission, if so.
    pub open spec fn submission_refusal(self, query_id: u64, verification_key_hash: Digest) -> Option<
        Error,
    > {
        if !self.verification_keys.contains_key(verification_key_hash) {
            Some(Error::VerificationKeyNotFound)
        } else if self.query_proofs.contains_key(query_id) {
            Some(Error::ProofAlreadyVerified)
        } else {
            None
        }
    }

    /// The outcome of `submit_proof`.
    pub open spec fn submit_proof(
        self,
        query_id: u64,
        dataset_id: u64,
        proof_data: Seq<u8>,
        public_inputs: Seq<u8>,
        verification_key_hash: Digest,
        challenge_hash: Digest,
        caller: AccountId,
        now: Timestamp,
    ) -> (Self, Result<ProofSubmitted, Error>) {
        match self.submission_refusal(query_id, verification_key_hash) {
            Some(error) => (self, Err(error)),
            None => {
                let proof_id = self.next_proof_id;
                (
                    ZKVerifierView {
                        proofs: self.proofs.insert(
                            proof_id,
                            ZKProofView {
                                proof_id,
                                query_id,
                                dataset_id,
                                prover: caller,
                                proof_data,
                                public_inputs,
                                verification_key_hash,
                                created_at: now,
                                status: ProofStatus::Pending,
                                challenge_hash,
                            },
                        ),
                        query_proofs: self.query_proofs.insert(query_id, proof_id),
                        next_proof_id: (proof_id + 1) as u64,
                        ..self
                    },
                    Ok(ProofSubmitted { proof_id, query_id, prover: caller, dataset_id }),
                )
            },
        }
    }

    /// Whether `caller` may verify proofs: a validator or the administrator.
    pub open spec fn may_verify(self, caller: AccountId) -> bool {
        self.validators.contains(caller) || caller == self.owner
    }

    /// Why `caller` may not have the proof `proof_id` checked, if so.
    pub open spec fn verification_refusal(self, proof_id: u64, caller: AccountId) -> Option<Error> {
        if !self.may_verify(caller) {
            Some(Error::NotAuthorized)
        } else if !self.proofs.contains_key(proof_id) {
            Some(Error::ProofNotFound)
        } else if self.proofs[proof_id].status != ProofStatus::Pending {
            Some(Error::ProofAlreadyVerified)
        } else if !self.verification_keys.contains_key(
            self.proofs[proof_id].verification_key_hash,
        ) {
            Some(Error::VerificationKeyNotFound)
        } else {
            None
        }
    }

    /// The outcome of recording that the verifier found the proof `proof_id`
    /// valid or not: the registry and the payment tables afterwards, and
    /// whether the proof was verified (`Ok(true)`), rejected (`Ok(false)`)
    /// or the operation refused.
    ///
    /// A valid proof is marked `Verified` only if the payment manager
    /// completes the query's payment; if it refuses, nothing changes.
    pub open spec fn record_verdict(
        self,
        ledger: PaymentManagerView,
        proof_id: u64,
        caller: AccountId,
        valid: bool,
    ) -> (Self, PaymentManagerView, Result<bool, Error>) {
        match self.verification_refusal(proof_id, caller) {
            Some(error) => (self, ledger, Err(error)),
            None => {
                let proof = self.proofs[proof_id];
                if !valid {
                    (self.with_proof_status(proof_id, ProofStatus::Rejected), ledger, Ok(false))
                } else {
                    let (ledger_after, completion) = ledger.complete_payment(
                        proof.query_id,
                        proof.digest(),
                        self.account,
                    );
                    match completion {
                        Err(error) => (self, ledger, Err(Error::PaymentFailed(error))),
                        Ok(_) => (
                            self.with_proof_status(proof_id, ProofStatus::Verified),
                            ledger_after,
                            Ok(true),
                        ),
                    }
                }
            },
        }
    }

    /// Why a challenge of the proof `proof_id` staking `stake` at time `now`
    /// is refused, if so.
    pub open spec fn challenge_refusal(self, proof_id: u64, stake: Balance, now: Timestamp) -> Option<
        Error,
    > {
        if stake < self.min_challenge_stake {
            Some(Error::InsufficientStake)
        } else if !self.proofs.contains_key(proof_id) {
            Some(Error::ProofNotFound)
        } else if now > self.proofs[proof_id].created_at + self.challenge_period {
            Some(Error::ChallengePeriodExpired)
        } else if self.proofs[proof_id].status != ProofStatus::Verified {
            Some(Error::InvalidChallenge)
        } else {
            None
        }
    }

    /// The outcome of `challenge_proof`.
    pub open spec fn challenge_proof(
        self,
        proof_id: u64,
        reason: Seq<char>,
        stake: Balance,
        caller: AccountId,
        now: Timestamp,
    ) -> (Self, Result<ProofChallenged, Error>) {
        match self.challenge_refusal(proof_id, stake, now) {
            Some(error) => (self, Err(error)),
            None => {
                let challenge_id = self.next_challenge_id;
                (
                    ZKVerifierView {
                        challenges: self.challenges.insert(
                            challenge_id,
                            ChallengeView {
                                challenge_id,
                                proof_id,
                                challenger: caller,
                                stake,
                                reason,
                                created_at: now,
                                resolution_deadline: (now + self.challenge_period) as Timestamp,
                                status: ChallengeStatus::Active,
                            },
                        ),
                        next_challenge_id: (challenge_id + 1) as u64,
                        ..self.with_proof_status(proof_id, ProofStatus::Challenged)
                    },
                    Ok(ProofChallenged { challenge_id, proof_id, challenger: caller, stake }),
                )
            },
        }
    }

    /// What the host must transfer before `caller` resolves the challenge
    /// `challenge_id`, or why `caller` cannot resolve it: the stake goes
    /// back to the challenger if the challenge is upheld, and to the
    /// administrator if it is dismissed.
    pub open spec fn resolution_due(self, challenge_id: u64, accept: bool, caller: AccountId) -> Result<
        StakeTransfer,
        Error,
    > {
        if caller != self.owner {
            Err(Error::NotAuthorized)
        } else if !self.challenges.contains_key(challenge_id) {
            Err(Error::ChallengeNotFound)
        } else if !self.proofs.contains_key(self.challenges[challenge_id].proof_id) {
            Err(Error::ProofNotFound)
        } else if self.challenges[challenge_id].status != ChallengeStatus::Active {
            Err(Error::InvalidChallenge)
        } else {
            let challenge = self.challenges[challenge_id];
            Ok(
                StakeTransfer {
                    recipient: if accept {
                        challenge.challenger
                    } else {
                        self.owner
                    },
                    amount: challenge.stake,
                    refund_query: if accept {
                        Some(self.proofs[challenge.proof_id].query_id)
                    } else {
                        None
                    },
                },
            )
        }
    }

    /// The outcome of `resolve_challenge`, given whether the transfer of the
    /// stake and, for an upheld challenge, the refund of the escrow went
    /// through. An upheld challenge rejects the proof only if the payment
    /// manager refunds the query's payment; if it refuses, nothing changes.
    pub open spec fn resolve_challenge(
        self,
        ledger: PaymentManagerView,
        challenge_id: u64,
        accept: bool,
        caller: AccountId,
        stake_sent: bool,
        refund_sent: bool,
    ) -> (Self, PaymentManagerView, Result<Option<PaymentRefunded>, Error>) {
        match self.resolution_due(challenge_id, accept, caller) {
            Err(error) => (self, ledger, Err(error)),
            Ok(due) => {
                let proof_id = self.challenges[challenge_id].proof_id;
                if !stake_sent {
                    (self, ledger, Err(Error::TransferFailed))
                } else if !accept {
                    (
                        self.with_challenge_status(
                            challenge_id,
                            ChallengeStatus::Dismissed,
                        ).with_proof_status(proof_id, ProofStatus::Verified),
                        ledger,
                        Ok(None),
                    )
                } else {
                    let (ledger_after, refund) = ledger.refund_payment(
                        self.proofs[proof_id].query_id,
                        self.account,
                        refund_sent,
                    );
                    match refund {
                        Err(error) => (self, ledger, Err(Error::PaymentFailed(error))),
                        Ok(refunded) => (
                            self.with_challenge_status(
                                challenge_id,
                                ChallengeStatus::Resolved,
                            ).with_proof_status(proof_id, ProofStatus::Rejected),
                            ledger_after,
                            Ok(Some(refunded)),
                        ),
                    }
                }
            },
        }
    }

    /// The ids below `upto` of the challenges raised against `proof_id`, in
    /// ascending order.
    pub open spec fn challenges_below(self, proof_id: u64, upto: nat) -> Seq<u64>
        decreases upto,
    {
        if upto <= 1 {
            Seq::empty()
        } else {
            let id = (upto - 1) as u64;
            let rest = self.challenges_below(proof_id, (upto - 1) as nat);
            if self.challenges.contains_key(id) && self.challenges[id].proof_id == proof_id {
                rest.push(id)
            } else {
                rest
            }
        }
    }

    /// Every challenge raised against `proof_id`, oldest first.
    pub open spec fn challenges_of(self, proof_id: u64) -> Seq<u64> {
        self.challenges_below(proof_id, self.next_challenge_id as nat)
    }
}

impl View for ZKVerifier {
    type V = ZKVerifierView;

    closed spec fn view(&self) -> ZKVerifierView {
        ZKVerifierView {
            account: self.account,
            payment_manager: self.payment_manager,
            dataset_registry: self.dataset_registry,
            proofs: Map::new(
                |id: u64| self.proofs@.contains_key(id),
                |id: u64| self.proofs@[id]@,
            ),
            query_proofs: self.query_proofs@,
            verification_keys: key_table(self.verification_keys@),
            challenges: Map::new(
                |id: u64| self.challenges@.contains_key(id),
                |id: u64| self.challenges@[id]@,
            ),
            next_proof_id: self.next_proof_id,
            next_challenge_id: self.next_challenge_id,
            owner: self.owner,
            min_challenge_stake: self.min_challenge_stake,
            challenge_period: self.challenge_period,
            validators: Set::new(|account: AccountId| self.validators@.contains(account)),
        }
    }
}

/// A digest that no key of `keys` carries is not in their table.
proof fn lemma_key_table_absent(keys: Seq<VerificationKey>, hash: Digest)
    requires
        forall|j: int| 0 <= j < keys.len() ==> keys[j].key_hash != hash,
    ensures
        !key_table(keys).contains_key(hash),
    decreases keys.len(),
{
    if keys.len() > 0 {
        lemma_key_table_absent(keys.drop_last(), hash);
    }
}

/// The table maps a digest to the last key of `keys` that carries it.
proof fn lemma_key_table_found(keys: Seq<VerificationKey>, hash: Digest, i: int)
    requires
        0 <= i < keys.len(),
        keys[i].key_hash == hash,
        forall|j: int| i < j < keys.len() ==> keys[j].key_hash != hash,
    ensures
        key_table(keys).contains_key(hash),
        key_table(keys)[hash] == keys[i]@,
    decreases keys.len(),
{
    if i < keys.len() - 1 {
        lemma_key_table_found(keys.drop_last(), hash, i);
    }
}

impl ZKVerifier {
    /// The position of the key registered under `hash`, if there is one.
    fn find_key(&self, hash: &Digest) -> (found: Option<usize>)
        ensures
            match found {
                Some(i) => i < self.verification_keys.len() && self@.verification_keys.contains_key(
                    *hash,
                ) && self@.verification_keys[*hash] == self.verification_keys@[i as int]@,
                None => !self@.verification_keys.contains_key(*hash),
            },
    {
        let mut i: usize = self.verification_keys.len();
        while i > 0
            invariant
                i <= self.verification_keys.len(),
                forall|j: int|
                    i <= j < self.verification_keys.len() ==> self.verification_keys@[j].key_hash
                        != *hash,
            decreases i,
        {
            i -= 1;
            if same_hash(&self.verification_keys[i].key_hash, hash) {
                proof {
                    lemma_key_table_found(self.verification_keys@, *hash, i as int);
                }
                return Some(i);
            }
        }
        proof {
            lemma_key_table_absent(self.verification_keys@, *hash);
        }
        None
    }

    /// An empty registry that presents itself to the payment manager as
    /// `account` and is administered by `owner`.
    pub fn new(
        account: AccountId,
        payment_manager: AccountId,
        dataset_registry: AccountId,
        owner: AccountId,
        min_challenge_stake: Balance,
        challenge_period: u64,
    ) -> (registry: ZKVerifier)
        ensures
            registry@.wf(),
            registry@ == (ZKVerifierView {
                account,
                payment_manager,
                dataset_registry,
                proofs: Map::empty(),
                query_proofs: Map::empty(),
                verification_keys: Map::empty(),
                challenges: Map::empty(),
                next_proof_id: 1,
                next_challenge_id: 1,
                owner,
                min_challenge_stake,
                challenge_period,
                validators: Set::empty(),
            }),
    {
        let registry = ZKVerifier {
            account,
            payment_manager,
            dataset_registry,
            proofs: HashMap::new(),
            query_proofs: HashMap::new(),
            verification_keys: Vec::new(),
            challenges: HashMap::new(),
            next_proof_id: 1,
            next_challenge_id: 1,
            owner,
            min_challenge_stake,
            challenge_period,
            validators: Vec::new(),
        };
        proof {
            assert(registry@.proofs =~= Map::empty());
            assert(registry@.challenges =~= Map::empty());
            assert(registry@.validators =~= Set::empty());
        }
        registry
    }

    /// The identity under which the registry calls the payment manager.
    pub fn account(&self) -> (account: AccountId)
        ensures
            account == self@.account,
    {
        self.account
    }

    /// Registers the key `key_data` under the digest `key_hash`, owned by
    /// `caller`, unless a key is already registered under that digest; it
    /// then stays as it is. Returns the registration that stands.
    pub fn store_verification_key(
        &mut self,
        key_hash: Digest,
        key_data: Vec<u8>,
        circuit_type: String,
        caller: AccountId,
    ) -> (event: VerificationKeyRegistered)
        requires
            old(self)@.wf(),
        ensures
            final(self)@.wf(),
            final(self)@ == old(self)@.store_verification_key(
                key_hash,
                key_data@,
                circuit_type@,
                caller,
            ),
            event.key_hash == key_hash,
            event.owner == final(self)@.verification_keys[key_hash].owner,
            event.circuit_type@ == final(self)@.verification_keys[key_hash].circuit_type,
    {
        match self.find_key(&key_hash) {
            Some(i) => {
                let key = &self.verification_keys[i];
                VerificationKeyRegistered {
                    key_hash,
                    owner: key.owner,
                    circuit_type: key.circuit_type.clone(),
                }
            },
            None => {
                let key = VerificationKey {
                    key_hash,
                    key_data,
                    circuit_type: circuit_type.clone(),
                    owner: caller,
                    is_active: true,
                };
                self.verification_keys.push(key);
                proof {
                    assert(self.verification_keys@.drop_last() =~= old(self).verification_keys@);
                }
                VerificationKeyRegistered { key_hash, owner: caller, circuit_type }
            },
        }
    }

    /// Registers the key `key_data` under its Keccak-256 digest, owned by
    /// `caller`. A key is registered once: registering the same bytes again
    /// changes nothing and returns the registration that stands.
    pub fn register_verification_key(&mut self, key_data: Vec<u8>, circuit_type: String, caller: AccountId) -> (result:
        Result<VerificationKeyRegistered, Error>)
        requires
            old(self)@.wf(),
        ensures
            final(self)@.wf(),
            final(self)@ == old(self)@.store_verification_key(
                keccak256_digest(key_data@),
                key_data@,
                circuit_type@,
                caller,
            ),
            match result {
                Ok(event) => {
                    let stored = final(self)@.verification_keys[keccak256_digest(key_data@)];
                    &&& event.key_hash == keccak256_digest(key_data@)
                    &&& event.owner == stored.owner
                    &&& event.circuit_type@ == stored.circuit_type
                },
                Err(_) => false,
            },
    {
        let key_hash = hash_data(key_data.as_slice());
        Ok(self.store_verification_key(key_hash, key_data, circuit_type, caller))
    }
}

/// What `record_verdict` leaves behind and returns, as a relation between
/// the state before, the verifier's finding, the state after and the result.
pub open spec fn verdict_recorded(
    before: ZKVerifierView,
    ledger_before: PaymentManagerView,
    proof_id: u64,
    caller: AccountId,
    valid: bool,
    after: ZKVerifierView,
    ledger_after: PaymentManagerView,
    result: Result<Verdict, Error>,
) -> bool {
    let outcome = before.record_verdict(ledger_before, proof_id, caller, valid);
    &&& after == outcome.0
    &&& ledger_after == outcome.1
    &&& match result {
        Ok(Verdict::Verified { proof, payment }) => {
            &&& outcome.2 == Ok::<bool, Error>(true)
            &&& proof == (ProofVerified {
                proof_id,
                query_id: before.proofs[proof_id].query_id,
                verifier: caller,
            })
            &&& payment == (PaymentCompleted {
                query_id: before.proofs[proof_id].query_id,
                proof_hash: before.proofs[proof_id].digest(),
            })
        },
        Ok(Verdict::Rejected(rejected)) => {
            &&& outcome.2 == Ok::<bool, Error>(false)
            &&& rejected.proof_id == proof_id
            &&& rejected.reason@ == "Invalid proof"@
        },
        Err(error) => outcome.2 == Err::<bool, Error>(error),
    }
}

impl ZKVerifier {
    /// Accepts a proof for `query_id` from `caller` at time `now`, to be
    /// checked against the key registered under `verification_key_hash`. A
    /// query takes one submission, whatever comes of it.
    pub fn submit_proof(
        &mut self,
        query_id: u64,
        dataset_id: u64,
        proof_data: Vec<u8>,
        public_inputs: Vec<u8>,
        verification_key_hash: Digest,
        challenge_hash: Digest,
        caller: AccountId,
        now: Timestamp,
    ) -> (result: Result<ProofSubmitted, Error>)
        requires
            old(self)@.wf(),
            old(self)@.next_proof_id < u64::MAX,
        ensures
            final(self)@.wf(),
            (final(self)@, result) == old(self)@.submit_proof(
                query_id,
                dataset_id,
                proof_data@,
                public_inputs@,
                verification_key_hash,
                challenge_hash,
                caller,
                now,
            ),
    {
        if self.find_key(&verification_key_hash).is_none() {
            return Err(Error::VerificationKeyNotFound);
        }
        if self.query_proofs.contains_key(&query_id) {
            return Err(Error::ProofAlreadyVerified);
        }
        let proof_id = self.next_proof_id;
        let proof = ZKProof {
            proof_id,
            query_id,
            dataset_id,
            prover: caller,
            proof_data,
            public_inputs,
            verification_key_hash,
            created_at: now,
            status: ProofStatus::Pending,
            challenge_hash,
        };
        let ghost stored = proof@;
        self.proofs.insert(proof_id, proof);
        self.query_proofs.insert(query_id, proof_id);
        self.next_proof_id = proof_id + 1;
        proof {
            assert(self@.proofs =~= old(self)@.proofs.insert(proof_id, stored));
        }
        Ok(ProofSubmitted { proof_id, query_id, prover: caller, dataset_id })
    }

    /// The proof `proof_id` and the key it is to be checked against, provided
    /// `caller` may have it checked: `caller` is a validator or the
    /// administrator, and the proof is pending.
    pub fn under_review(&self, proof_id: u64, caller: AccountId) -> (result: Result<
        (&ZKProof, &VerificationKey),
        Error,
    >)
        ensures
            match result {
                Ok((proof, key)) => {
                    &&& self@.verification_refusal(proof_id, caller) is None
                    &&& proof@ == self@.proofs[proof_id]
                    &&& key@ == self@.verification_keys[proof@.verification_key_hash]
                },
                Err(error) => self@.verification_refusal(proof_id, caller) == Some(error),
            },
    {
        if !(contains_account(&self.validators, caller) || caller == self.owner) {
            return Err(Error::NotAuthorized);
        }
        let proof = match self.proofs.get(&proof_id) {
            None => {
                return Err(Error::ProofNotFound);
            },
            Some(proof) => proof,
        };
        if proof.status != ProofStatus::Pending {
            return Err(Error::ProofAlreadyVerified);
        }
        match self.find_key(&proof.verification_key_hash) {
            None => Err(Error::VerificationKeyNotFound),
            Some(i) => Ok((proof, &self.verification_keys[i])),
        }
    }

    /// Sets the status of a stored proof.
    fn set_proof_status(&mut self, proof_id: u64, status: ProofStatus)
        requires
            old(self)@.proofs.contains_key(proof_id),
        ensures
            final(self)@ == old(self)@.with_proof_status(proof_id, status),
    {
        let mut proof = self.proofs.remove(&proof_id).unwrap();
        proof.status = status;
        let ghost stored = proof@;
        self.proofs.insert(proof_id, proof);
        proof {
            assert(self@.proofs =~= old(self)@.proofs.insert(proof_id, stored));
        }
    }

    /// Records what the verifier found of the proof `proof_id`, on the order
    /// of `caller`, who must be a validator or the administrator.
    ///
    /// A proof found valid is marked `Verified` and the query's payment is
    /// completed with the proof's digest; if the payment manager refuses,
    /// the operation fails and nothing changes. A proof found invalid is
    /// marked `Rejected`; its payment stays as it is.
    pub fn record_verdict(
        &mut self,
        proof_id: u64,
        caller: AccountId,
        valid: bool,
        ledger: &mut PaymentManager,
    ) -> (result: Result<Verdict, Error>)
        requires
            old(self)@.wf(),
            old(ledger)@.wf(),
        ensures
            final(self)@.wf(),
            final(ledger)@.wf(),
            verdict_recorded(
                old(self)@,
                old(ledger)@,
                proof_id,
                caller,
                valid,
                final(self)@,
                final(ledger)@,
                result,
            ),
    {
        let proof = match self.under_review(proof_id, caller) {
            Err(error) => {
                return Err(error);
            },
            Ok((proof, _)) => proof,
        };
        let query_id = proof.query_id;
        if valid {
            let proof_hash = calculate_proof_hash(&proof.proof_data, &proof.public_inputs);
            let payment = match ledger.complete_payment(query_id, proof_hash, self.account) {
                Err(error) => {
                    return Err(Error::PaymentFailed(error));
                },
                Ok(payment) => payment,
            };
            self.set_proof_status(proof_id, ProofStatus::Verified);
            Ok(
                Verdict::Verified {
                    proof: ProofVerified { proof_id, query_id, verifier: caller },
                    payment,
                },
            )
        } else {
            self.set_proof_status(proof_id, ProofStatus::Rejected);
            Ok(Verdict::Rejected(ProofRejected { proof_id, reason: "Invalid proof".to_owned() }))
        }
    }

}

impl ZKVerifier {
    /// Has `verifier` check the proof `proof_id` against its registered key
    /// and records the finding, on the order of `caller`.
    ///
    /// Whether the operation is refused does not depend on the verifier, which
    /// is then not asked. Where it is not refused, the verifier is handed the
    /// proof and the key that `under_review` returns, and the outcome is that
    /// of `record_verdict` for what it found.
    pub fn verify_proof<V: ProofVerifier>(
        &mut self,
        proof_id: u64,
        caller: AccountId,
        verifier: &V,
        ledger: &mut PaymentManager,
    ) -> (result: Result<Verdict, Error>)
        requires
            old(self)@.wf(),
            old(ledger)@.wf(),
        ensures
            final(self)@.wf(),
            final(ledger)@.wf(),
            exists|valid: bool|
                verdict_recorded(
                    old(self)@,
                    old(ledger)@,
                    proof_id,
                    caller,
                    valid,
                    final(self)@,
                    final(ledger)@,
                    result,
                ),
            old(self)@.verification_refusal(proof_id, caller) matches Some(error) ==> result == Err::<
                Verdict,
                Error,
            >(error),
    {
        let valid = match self.under_review(proof_id, caller) {
            Err(error) => {
                proof {
                    assert(verdict_recorded(
                        old(self)@,
                        old(ledger)@,
                        proof_id,
                        caller,
                        false,
                        self@,
                        ledger@,
                        Err(error),
                    ));
                }
                return Err(error);
            },
            Ok((proof, key)) => verifier.verify(proof, key),
        };
        self.record_verdict(proof_id, caller, valid, ledger)
    }

    /// Raises a challenge against the verified proof `proof_id` on behalf of
    /// `caller`, who staked `stake` with the call at time `now`. The proof
    /// becomes `Challenged` until the administrator resolves the challenge.
    pub fn challenge_proof(
        &mut self,
        proof_id: u64,
        reason: String,
        stake: Balance,
        caller: AccountId,
        now: Timestamp,
    ) -> (result: Result<ProofChallenged, Error>)
        requires
            old(self)@.wf(),
            old(self)@.next_challenge_id < u64::MAX,
            now + old(self)@.challenge_period <= u64::MAX,
        ensures
            final(self)@.wf(),
            (final(self)@, result) == old(self)@.challenge_proof(
                proof_id,
                reason@,
                stake,
                caller,
                now,
            ),
    {
        if stake < self.min_challenge_stake {
            return Err(Error::InsufficientStake);
        }
        let proof = match self.proofs.get(&proof_id) {
            None => {
                return Err(Error::ProofNotFound);
            },
            Some(proof) => proof,
        };
        if now as u128 > proof.created_at as u128 + self.challenge_period as u128 {
            return Err(Error::ChallengePeriodExpired);
        }
        if proof.status != ProofStatus::Verified {
            return Err(Error::InvalidChallenge);
        }
        let challenge_id = self.next_challenge_id;
        let challenge = Challenge {
            challenge_id,
            proof_id,
            challenger: caller,
            stake,
            reason,
            created_at: now,
            resolution_deadline: now + self.challenge_period,
            status: ChallengeStatus::Active,
        };
        let ghost stored = challenge@;
        self.challenges.insert(challenge_id, challenge);
        self.next_challenge_id = challenge_id + 1;
        let ghost raised = self@;
        self.set_proof_status(proof_id, ProofStatus::Challenged);
        proof {
            assert(raised.challenges =~= old(self)@.challenges.insert(challenge_id, stored));
        }
        Ok(ProofChallenged { challenge_id, proof_id, challenger: caller, stake })
    }
}

impl ZKVerifier {
    /// What the host must transfer before `caller` resolves the challenge
    /// `challenge_id`: the stake, to the challenger if the challenge is
    /// upheld and to the administrator if it is dismissed. For an upheld
    /// challenge it also names the query whose escrow is to be refunded.
    pub fn resolution_due(&self, challenge_id: u64, accept: bool, caller: AccountId) -> (result: Result<
        StakeTransfer,
        Error,
    >)
        ensures
            result == self@.resolution_due(challenge_id, accept, caller),
    {
        if caller != self.owner {
            return Err(Error::NotAuthorized);
        }
        let challenge = match self.challenges.get(&challenge_id) {
            None => {
                return Err(Error::ChallengeNotFound);
            },
            Some(challenge) => challenge,
        };
        let proof = match self.proofs.get(&challenge.proof_id) {
            None => {
                return Err(Error::ProofNotFound);
            },
            Some(proof) => proof,
        };
        if challenge.status != ChallengeStatus::Active {
            return Err(Error::InvalidChallenge);
        }
        if accept {
            Ok(
                StakeTransfer {
                    recipient: challenge.challenger,
                    amount: challenge.stake,
                    refund_query: Some(proof.query_id),
                },
            )
        } else {
            Ok(StakeTransfer { recipient: self.owner, amount: challenge.stake, refund_query: None })
        }
    }

    /// Sets the status of a stored challenge.
    fn set_challenge_status(&mut self, challenge_id: u64, status: ChallengeStatus)
        requires
            old(self)@.challenges.contains_key(challenge_id),
        ensures
            final(self)@ == old(self)@.with_challenge_status(challenge_id, status),
    {
        let mut challenge = self.challenges.remove(&challenge_id).unwrap();
        challenge.status = status;
        let ghost stored = challenge@;
        self.challenges.insert(challenge_id, challenge);
        proof {
            assert(self@.challenges =~= old(self)@.challenges.insert(challenge_id, stored));
        }
    }

    /// Resolves the active challenge `challenge_id` on the order of `caller`,
    /// who must be the administrator, provided the host made the transfer
    /// of `resolution_due`: `stake_sent` says whether it went through.
    ///
    /// An upheld challenge (`accept`) is marked `Resolved`, its proof
    /// `Rejected`, and the query's escrow is refunded through `ledger`, to
    /// which `refund_sent` is passed; if the payment manager refuses, the
    /// operation fails and nothing changes. A dismissed challenge is marked
    /// `Dismissed` and its proof is `Verified` again.
    pub fn resolve_challenge(
        &mut self,
        challenge_id: u64,
        accept: bool,
        caller: AccountId,
        ledger: &mut PaymentManager,
        stake_sent: bool,
        refund_sent: bool,
    ) -> (result: Result<Option<PaymentRefunded>, Error>)
        requires
            old(self)@.wf(),
            old(ledger)@.wf(),
        ensures
            final(self)@.wf(),
            final(ledger)@.wf(),
            (final(self)@, final(ledger)@, result) == old(self)@.resolve_challenge(
                old(ledger)@,
                challenge_id,
                accept,
                caller,
                stake_sent,
                refund_sent,
            ),
    {
        let due = match self.resolution_due(challenge_id, accept, caller) {
            Err(error) => {
                return Err(error);
            },
            Ok(due) => due,
        };
        if !stake_sent {
            return Err(Error::TransferFailed);
        }
        let proof_id = match self.challenges.get(&challenge_id) {
            None => {
                return Err(Error::ChallengeNotFound);
            },
            Some(challenge) => challenge.proof_id,
        };
        match due.refund_query {
            Some(query_id) => {
                let refunded = match ledger.refund_payment(query_id, self.account, refund_sent) {
                    Err(error) => {
                        return Err(Error::PaymentFailed(error));
                    },
                    Ok(refunded) => refunded,
                };
                self.set_challenge_status(challenge_id, ChallengeStatus::Resolved);
                self.set_proof_status(proof_id, ProofStatus::Rejected);
                Ok(Some(refunded))
            },
            None => {
                self.set_challenge_status(challenge_id, ChallengeStatus::Dismissed);
                self.set_proof_status(proof_id, ProofStatus::Verified);
                Ok(None)
            },
        }
    }

}

impl ZKVerifier {
    /// The proof stored under `proof_id`, if any.
    pub fn get_proof(&self, proof_id: u64) -> (found: Option<ZKProof>)
        ensures
            match found {
                Some(proof) => self@.proofs.contains_key(proof_id) && proof@
                    == self@.proofs[proof_id],
                None => !self@.proofs.contains_key(proof_id),
            },
    {
        match self.proofs.get(&proof_id) {
            Some(proof) => Some(proof.clone()),
            None => None,
        }
    }

    /// The proof submitted for `query_id`, if any.
    pub fn get_proof_by_query(&self, query_id: u64) -> (found: Option<ZKProof>)
        requires
            self@.wf(),
        ensures
            match found {
                Some(proof) => self@.query_proofs.contains_key(query_id) && proof@
                    == self@.proofs[self@.query_proofs[query_id]],
                None => !self@.query_proofs.contains_key(query_id),
            },
    {
        match self.query_proofs.get(&query_id) {
            Some(proof_id) => self.get_proof(*proof_id),
            None => None,
        }
    }

    /// The challenge stored under `challenge_id`, if any.
    pub fn get_challenge(&self, challenge_id: u64) -> (found: Option<Challenge>)
        ensures
            match found {
                Some(challenge) => self@.challenges.contains_key(challenge_id) && challenge@
                    == self@.challenges[challenge_id],
                None => !self@.challenges.contains_key(challenge_id),
            },
    {
        match self.challenges.get(&challenge_id) {
            Some(challenge) => Some(challenge.clone()),
            None => None,
        }
    }

    /// The ids of the challenges raised against `proof_id`, oldest first.
    pub fn get_proof_challenges(&self, proof_id: u64) -> (ids: Vec<u64>)
        requires
            self@.wf(),
        ensures
            ids@ == self@.challenges_of(proof_id),
    {
        let mut ids: Vec<u64> = Vec::new();
        let mut id: u64 = 1;
        while id < self.next_challenge_id
            invariant
                1 <= id <= self.next_challenge_id,
                ids@ == self@.challenges_below(proof_id, id as nat),
            decreases self.next_challenge_id - id,
        {
            match self.challenges.get(&id) {
                Some(challenge) => {
                    if challenge.proof_id == proof_id {
                        ids.push(id);
                    }
                },
                None => {},
            }
            id += 1;
        }
        ids
    }

    /// Whether `account` is on the list of validators.
    pub fn is_validator(&self, account: AccountId) -> (listed: bool)
        ensures
            listed == self@.validators.contains(account),
    {
        contains_account(&self.validators, account)
    }

    /// Puts `validator` on the list of accounts that may verify proofs. Only
    /// the administrator may.
    pub fn add_validator(&mut self, validator: AccountId, caller: AccountId) -> (result: Result<
        (),
        Error,
    >)
        ensures
            match result {
                Ok(()) => caller == old(self)@.owner && final(self)@ == (ZKVerifierView {
                    validators: old(self)@.validators.insert(validator),
                    ..old(self)@
                }),
                Err(error) => error == Error::NotAuthorized && caller != old(self)@.owner
                    && final(self)@ == old(self)@,
            },
            old(self)@.wf() ==> final(self)@.wf(),
    {
        if caller != self.owner {
            return Err(Error::NotAuthorized);
        }
        if !contains_account(&self.validators, validator) {
            self.validators.push(validator);
        }
        proof {
            assert forall|account: AccountId|
                self@.validators.contains(account) == old(self)@.validators.insert(
                    validator,
                ).contains(account) by {
                if old(self).validators@.contains(validator) {
                } else {
                    let before = old(self).validators@;
                    let after = self.validators@;
                    if before.contains(account) {
                        let i = choose|i: int| 0 <= i < before.len() && before[i] == account;
                        assert(after[i] == account);
                    }
                    if account == validator {
                        assert(after[before.len() as int] == account);
                    }
                }
            }
            assert(self@.validators =~= old(self)@.validators.insert(validator));
        }
        Ok(())
    }

    /// Takes `validator` off the list of accounts that may verify proofs.
    /// Only the administrator may.
    pub fn remove_validator(&mut self, validator: AccountId, caller: AccountId) -> (result: Result<
        (),
        Error,
    >)
        ensures
            match result {
                Ok(()) => caller == old(self)@.owner && final(self)@ == (ZKVerifierView {
                    validators: old(self)@.validators.remove(validator),
                    ..old(self)@
                }),
                Err(error) => error == Error::NotAuthorized && caller != old(self)@.owner
                    && final(self)@ == old(self)@,
            },
            old(self)@.wf() ==> final(self)@.wf(),
    {
        if caller != self.owner {
            return Err(Error::NotAuthorized);
        }
        let mut kept: Vec<AccountId> = Vec::new();
        let mut i: usize = 0;
        while i < self.validators.len()
            invariant
                i <= self.validators.len(),
                forall|j: int|
                    0 <= j < kept.len() ==> kept@[j] != validator && self.validators@.contains(
                        #[trigger] kept@[j],
                    ),
                forall|j: int|
                    0 <= j < i && self.validators@[j] != validator ==> kept@.contains(
                        #[trigger] self.validators@[j],
                    ),
            decreases self.validators.len() - i,
        {
            let account = self.validators[i];
            let ghost kept_before = kept@;
            if account != validator {
                kept.push(account);
                proof {
                    assert(kept@[kept_before.len() as int] == account);
                }
            }
            proof {
                assert forall|j: int|
                    0 <= j < i + 1 && self.validators@[j] != validator implies kept@.contains(
                    #[trigger] self.validators@[j],
                ) by {
                    if j < i {
                        let k = choose|k: int|
                            0 <= k < kept_before.len() && kept_before[k] == self.validators@[j];
                        assert(kept@[k] == self.validators@[j]);
                    }
                }
            }
            i += 1;
        }
        self.validators = kept;
        proof {
            assert(self@.validators =~= old(self)@.validators.remove(validator));
        }
        Ok(())
    }

    /// Sets how long after its submission a proof may be challenged. Only the
    /// administrator may.
    pub fn set_challenge_period(&mut self, period: u64, caller: AccountId) -> (result: Result<
        (),
        Error,
    >)
        ensures
            match result {
                Ok(()) => caller == old(self)@.owner && final(self)@ == (ZKVerifierView {
                    challenge_period: period,
                    ..old(self)@
                }),
                Err(error) => error == Error::NotAuthorized && caller != old(self)@.owner
                    && final(self)@ == old(self)@,
            },
            old(self)@.wf() ==> final(self)@.wf(),
    {
        if caller != self.owner {
            return Err(Error::NotAuthorized);
        }
        self.challenge_period = period;
        Ok(())
    }

    /// Sets the least stake a challenge must carry. Only the administrator
    /// may.
    pub fn set_challenge_stake(&mut self, stake: Balance, caller: AccountId) -> (result: Result<
        (),
        Error,
    >)
        ensures
            match result {
                Ok(()) => caller == old(self)@.owner && final(self)@ == (ZKVerifierView {
                    min_challenge_stake: stake,
                    ..old(self)@
                }),
                Err(error) => error == Error::NotAuthorized && caller != old(self)@.owner
                    && final(self)@ == old(self)@,
            },
            old(self)@.wf() ==> final(self)@.wf(),
    {
        if caller != self.owner {
            return Err(Error::NotAuthorized);
        }
        self.min_challenge_stake = stake;
        Ok(())
    }
}

impl ZKVerifier {
    /// The id the next proof will receive.
    pub fn next_proof_id(&self) -> (id: u64)
        ensures
            id == self@.next_proof_id,
    {
        self.next_proof_id
    }

    /// The id the next challenge will receive.
    pub fn next_challenge_id(&self) -> (id: u64)
        ensures
            id == self@.next_challenge_id,
    {
        self.next_challenge_id
    }

    /// How long after its submission a proof may be challenged, in
    /// milliseconds.
    pub fn challenge_period(&self) -> (period: u64)
        ensures
            period == self@.challenge_period,
    {
        self.challenge_period
    }

    /// The least stake a challenge must carry.
    pub fn min_challenge_stake(&self) -> (stake: Balance)
        ensures
            stake == self@.min_challenge_stake,
    {
        self.min_challenge_stake
    }

    /// The administrator.
    pub fn owner(&self) -> (owner: AccountId)
        ensures
            owner == self@.owner,
    {
        self.owner
    }
}

} // verus!
