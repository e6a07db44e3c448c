use proof_escrow::dataset_registry::DatasetRegistry;
use proof_escrow::payment_manager::{
    Error as PaymentError, PaymentCompleted, PaymentManager, PaymentRefunded, PaymentStatus,
};
use proof_escrow::primitives::AccountId;
use proof_escrow::zk_verifier::{
    ChallengeStatus, Error, NonEmptyVerifier, ProofChallenged, ProofRejected, ProofStatus,
    ProofSubmitted, ProofVerified, ProofVerifier, StakeTransfer, Verdict, VerificationKey,
    VerificationKeyRegistered, ZKProof, ZKVerifier,
};

const DAY: u64 = 86400000;

const KEY_DIGEST: [u8; 32] = [
    24, 230, 209, 59, 127, 30, 158, 244, 60, 177, 132, 150, 167, 244, 64, 69, 184, 123, 185, 44,
    211, 199, 208, 179, 14, 64, 126, 140, 217, 69, 36, 216,
];

fn account(byte: u8) -> AccountId {
    AccountId::new([byte; 32])
}

fn alice() -> AccountId {
    account(1)
}

fn bob() -> AccountId {
    account(2)
}

fn charlie() -> AccountId {
    account(3)
}

fn django() -> AccountId {
    account(4)
}

fn eve() -> AccountId {
    account(5)
}

fn frank() -> AccountId {
    account(6)
}

/// The registry's own identity.
fn registry_account() -> AccountId {
    account(20)
}

/// A registry administered by eve, with a minimum stake of 1000 and a
/// challenge period of a day.
fn registry() -> ZKVerifier {
    ZKVerifier::new(registry_account(), alice(), bob(), eve(), 1000, DAY)
}

/// Payment tables that accept the registry, administered by eve, with one
/// pending payment of 1000 by charlie for a dataset of django, made at 0.
fn tables() -> PaymentManager {
    let mut directory = DatasetRegistry::new(0, eve());
    directory
        .register_dataset(
            "Test Dataset".to_string(),
            "Description".to_string(),
            [0u8; 32],
            [1u8; 32],
            1000,
            django(),
            0,
            0,
        )
        .unwrap();
    let mut tables = PaymentManager::new(bob(), registry_account(), eve(), 250, DAY);
    tables.create_payment(&directory, 1, 1000, charlie(), 0, true).unwrap();
    tables
}

fn register_key(registry: &mut ZKVerifier) -> [u8; 32] {
    registry
        .register_verification_key(vec![1, 2, 3, 4], "halo2".to_string(), alice())
        .unwrap()
        .key_hash
}

/// Registers a key and submits a proof for query 1 at time 100; its id is 1.
fn submit(registry: &mut ZKVerifier) -> u64 {
    let key_hash = register_key(registry);
    registry
        .submit_proof(1, 1, vec![5, 6, 7, 8], vec![9, 10], key_hash, [0u8; 32], frank(), 100)
        .unwrap()
        .proof_id
}

/// A verifier that answers what it is told to.
struct Fixed(bool);

impl ProofVerifier for Fixed {
    fn verify(&self, _proof: &ZKProof, _key: &VerificationKey) -> bool {
        self.0
    }
}

#[test]
fn test_register_verification_key() {
    let mut contract = ZKVerifier::new(registry_account(), alice(), bob(), eve(), 1000, 86400000);

    let key_data = vec![1, 2, 3, 4];
    let result = contract.register_verification_key(key_data, "halo2".to_string(), alice());

    assert!(result.is_ok());
}

#[test]
fn test_submit_proof() {
    let mut contract = ZKVerifier::new(registry_account(), alice(), bob(), eve(), 1000, 86400000);

    // First register a verification key
    let key_data = vec![1, 2, 3, 4];
    let key_hash = contract
        .register_verification_key(key_data, "halo2".to_string(), alice())
        .unwrap()
        .key_hash;

    // Then submit a proof
    let result =
        contract.submit_proof(1, 1, vec![5, 6, 7, 8], vec![9, 10], key_hash, [0u8; 32], alice(), 0);

    assert!(result.is_ok());
    assert_eq!(result.unwrap().proof_id, 1);
}

#[test]
fn a_key_is_registered_under_the_keccak_digest_of_its_bytes() {
    let mut registry = registry();
    let event = registry
        .register_verification_key(b"DEAD_BEEF".to_vec(), "halo2".to_string(), alice())
        .unwrap();
    assert_eq!(
        event,
        VerificationKeyRegistered {
            key_hash: KEY_DIGEST,
            owner: alice(),
            circuit_type: "halo2".to_string(),
        }
    );
    assert!(registry
        .submit_proof(1, 1, vec![5], vec![9], KEY_DIGEST, [0u8; 32], frank(), 0)
        .is_ok());
}

#[test]
fn a_registered_key_does_not_change() {
    let mut registry = registry();
    registry
        .register_verification_key(b"DEAD_BEEF".to_vec(), "halo2".to_string(), alice())
        .unwrap();
    let again = registry
        .register_verification_key(b"DEAD_BEEF".to_vec(), "groth16".to_string(), bob())
        .unwrap();
    assert_eq!(
        again,
        VerificationKeyRegistered {
            key_hash: KEY_DIGEST,
            owner: alice(),
            circuit_type: "halo2".to_string(),
        }
    );
}

#[test]
fn a_key_stored_under_a_given_digest_is_found_under_it() {
    let mut registry = registry();
    let event = registry.store_verification_key([7u8; 32], vec![1], "plonk".to_string(), bob());
    assert_eq!(event.key_hash, [7u8; 32]);
    assert_eq!(event.owner, bob());
    assert_eq!(event.circuit_type, "plonk");
    assert_eq!(
        registry.submit_proof(1, 1, vec![5], vec![9], [8u8; 32], [0u8; 32], frank(), 0),
        Err(Error::VerificationKeyNotFound)
    );
    assert!(registry.submit_proof(1, 1, vec![5], vec![9], [7u8; 32], [0u8; 32], frank(), 0).is_ok());
}

#[test]
fn a_submitted_proof_is_pending_and_holds_what_was_sent() {
    let mut registry = registry();
    let key_hash = register_key(&mut registry);
    let event = registry
        .submit_proof(4, 2, vec![5, 6, 7, 8], vec![9, 10], key_hash, [3u8; 32], frank(), 100)
        .unwrap();
    assert_eq!(event, ProofSubmitted { proof_id: 1, query_id: 4, prover: frank(), dataset_id: 2 });
    let expected = ZKProof {
        proof_id: 1,
        query_id: 4,
        dataset_id: 2,
        prover: frank(),
        proof_data: vec![5, 6, 7, 8],
        public_inputs: vec![9, 10],
        verification_key_hash: key_hash,
        created_at: 100,
        status: ProofStatus::Pending,
        challenge_hash: [3u8; 32],
    };
    assert_eq!(registry.get_proof(1), Some(expected.clone()));
    assert_eq!(registry.get_proof_by_query(4), Some(expected));
    assert_eq!(registry.get_proof(2), None);
    assert_eq!(registry.get_proof_by_query(1), None);
}

#[test]
fn a_query_takes_one_submission() {
    let mut registry = registry();
    let key_hash = register_key(&mut registry);
    registry.submit_proof(1, 1, vec![5], vec![9], key_hash, [0u8; 32], frank(), 0).unwrap();
    assert_eq!(
        registry.submit_proof(1, 1, vec![5], vec![9], key_hash, [0u8; 32], frank(), 0),
        Err(Error::ProofAlreadyVerified)
    );
    assert_eq!(
        registry.submit_proof(1, 7, vec![1, 1], vec![2], key_hash, [1u8; 32], alice(), 50),
        Err(Error::ProofAlreadyVerified)
    );
    assert_eq!(registry.get_proof(2), None);
    assert_eq!(
        registry.submit_proof(2, 1, vec![5], vec![9], key_hash, [0u8; 32], frank(), 0).unwrap().proof_id,
        2
    );
}

#[test]
fn a_submission_under_an_unregistered_key_is_refused() {
    let mut registry = registry();
    assert_eq!(
        registry.submit_proof(1, 1, vec![5], vec![9], [0u8; 32], [0u8; 32], frank(), 0),
        Err(Error::VerificationKeyNotFound)
    );
    assert_eq!(registry.get_proof(1), None);
}

#[test]
fn only_validators_and_the_administrator_verify() {
    let mut registry = registry();
    let mut tables = tables();
    submit(&mut registry);
    assert_eq!(
        registry.verify_proof(1, alice(), &NonEmptyVerifier, &mut tables),
        Err(Error::NotAuthorized)
    );
    assert_eq!(registry.record_verdict(1, alice(), true, &mut tables), Err(Error::NotAuthorized));
    assert_eq!(registry.get_proof(1).unwrap().status, ProofStatus::Pending);
    assert_eq!(registry.add_validator(alice(), bob()), Err(Error::NotAuthorized));
    assert!(!registry.is_validator(alice()));
    assert_eq!(registry.add_validator(alice(), eve()), Ok(()));
    assert!(registry.is_validator(alice()));
    assert!(registry.verify_proof(1, alice(), &NonEmptyVerifier, &mut tables).is_ok());
}

#[test]
fn a_removed_validator_no_longer_verifies() {
    let mut registry = registry();
    let mut tables = tables();
    submit(&mut registry);
    registry.add_validator(alice(), eve()).unwrap();
    registry.add_validator(bob(), eve()).unwrap();
    registry.add_validator(alice(), eve()).unwrap();
    assert_eq!(registry.remove_validator(alice(), bob()), Err(Error::NotAuthorized));
    assert!(registry.is_validator(alice()));
    assert_eq!(registry.remove_validator(alice(), eve()), Ok(()));
    assert!(!registry.is_validator(alice()));
    assert!(registry.is_validator(bob()));
    assert_eq!(
        registry.verify_proof(1, alice(), &NonEmptyVerifier, &mut tables),
        Err(Error::NotAuthorized)
    );
    assert_eq!(registry.remove_validator(charlie(), eve()), Ok(()));
    assert!(registry.verify_proof(1, bob(), &NonEmptyVerifier, &mut tables).is_ok());
}

#[test]
fn a_valid_proof_is_verified_and_completes_the_payment() {
    let mut registry = registry();
    let mut tables = tables();
    submit(&mut registry);
    let digest = proof_escrow::hashing::hash_data(&[5, 6, 7, 8, 9, 10]);
    let verdict = registry.verify_proof(1, eve(), &Fixed(true), &mut tables).unwrap();
    assert_eq!(
        verdict,
        Verdict::Verified {
            proof: ProofVerified { proof_id: 1, query_id: 1, verifier: eve() },
            payment: PaymentCompleted { query_id: 1, proof_hash: digest },
        }
    );
    assert_eq!(registry.get_proof(1).unwrap().status, ProofStatus::Verified);
    let payment = tables.get_payment(1).unwrap();
    assert_eq!(payment.status, PaymentStatus::Completed);
    assert_eq!(payment.proof_hash, Some(digest));
}

#[test]
fn an_invalid_proof_is_rejected_and_the_payment_stays_pending() {
    let mut registry = registry();
    let mut tables = tables();
    submit(&mut registry);
    let verdict = registry.verify_proof(1, eve(), &Fixed(false), &mut tables).unwrap();
    assert_eq!(
        verdict,
        Verdict::Rejected(ProofRejected { proof_id: 1, reason: "Invalid proof".to_string() })
    );
    assert_eq!(registry.get_proof(1).unwrap().status, ProofStatus::Rejected);
    assert_eq!(tables.get_payment(1).unwrap().status, PaymentStatus::Pending);
    assert!(tables.get_escrow(1).is_some());
}

#[test]
fn the_stand_in_verifier_accepts_what_is_not_empty() {
    let key = VerificationKey {
        key_hash: [0u8; 32],
        key_data: vec![],
        circuit_type: String::new(),
        owner: alice(),
        is_active: true,
    };
    let proof = |proof_data: Vec<u8>, public_inputs: Vec<u8>| ZKProof {
        proof_id: 1,
        query_id: 1,
        dataset_id: 1,
        prover: alice(),
        proof_data,
        public_inputs,
        verification_key_hash: [0u8; 32],
        created_at: 0,
        status: ProofStatus::Pending,
        challenge_hash: [0u8; 32],
    };
    assert!(NonEmptyVerifier.verify(&proof(vec![1], vec![2]), &key));
    assert!(!NonEmptyVerifier.verify(&proof(vec![], vec![2]), &key));
    assert!(!NonEmptyVerifier.verify(&proof(vec![1], vec![]), &key));
    assert!(!NonEmptyVerifier.verify(&proof(vec![], vec![]), &key));
}

#[test]
fn the_verifier_sees_the_proof_and_its_key() {
    struct Expecting;
    impl ProofVerifier for Expecting {
        fn verify(&self, proof: &ZKProof, key: &VerificationKey) -> bool {
            proof.proof_data == vec![5, 6, 7, 8]
                && proof.public_inputs == vec![9, 10]
                && key.key_data == vec![1, 2, 3, 4]
                && key.circuit_type == "halo2"
                && key.key_hash == proof.verification_key_hash
        }
    }
    let mut registry = registry();
    let mut tables = tables();
    registry
        .register_verification_key(vec![0], "other".to_string(), bob())
        .unwrap();
    submit(&mut registry);
    registry
        .register_verification_key(vec![9, 9], "third".to_string(), bob())
        .unwrap();
    let verdict = registry.verify_proof(1, eve(), &Expecting, &mut tables).unwrap();
    assert!(matches!(verdict, Verdict::Verified { .. }));
}

#[test]
fn a_proof_is_checked_once() {
    let mut registry = registry();
    let mut tables = tables();
    submit(&mut registry);
    assert_eq!(
        registry.verify_proof(2, eve(), &Fixed(true), &mut tables),
        Err(Error::ProofNotFound)
    );
    registry.verify_proof(1, eve(), &Fixed(true), &mut tables).unwrap();
    assert_eq!(
        registry.verify_proof(1, eve(), &Fixed(true), &mut tables),
        Err(Error::ProofAlreadyVerified)
    );
    assert_eq!(
        registry.record_verdict(1, eve(), false, &mut tables),
        Err(Error::ProofAlreadyVerified)
    );
    assert_eq!(registry.get_proof(1).unwrap().status, ProofStatus::Verified);
}

#[test]
fn a_valid_proof_without_a_payment_stays_pending() {
    let mut registry = registry();
    let mut tables = PaymentManager::new(bob(), registry_account(), eve(), 250, DAY);
    submit(&mut registry);
    assert_eq!(
        registry.verify_proof(1, eve(), &Fixed(true), &mut tables),
        Err(Error::PaymentFailed(PaymentError::PaymentNotFound))
    );
    assert_eq!(registry.get_proof(1).unwrap().status, ProofStatus::Pending);
}

#[test]
fn a_registry_the_payment_manager_does_not_know_cannot_verify() {
    let mut registry = ZKVerifier::new(frank(), alice(), bob(), eve(), 1000, DAY);
    let mut tables = tables();
    submit(&mut registry);
    assert_eq!(
        registry.verify_proof(1, eve(), &Fixed(true), &mut tables),
        Err(Error::PaymentFailed(PaymentError::NotAuthorized))
    );
    assert_eq!(registry.get_proof(1).unwrap().status, ProofStatus::Pending);
    assert_eq!(tables.get_payment(1).unwrap().status, PaymentStatus::Pending);
    // Rejection does not need the payment manager.
    assert!(registry.verify_proof(1, eve(), &Fixed(false), &mut tables).is_ok());
}

#[test]
fn a_challenge_needs_the_minimum_stake() {
    let mut registry = registry();
    let mut tables = tables();
    submit(&mut registry);
    registry.verify_proof(1, eve(), &Fixed(true), &mut tables).unwrap();
    assert_eq!(
        registry.challenge_proof(1, "wrong result".to_string(), 999, alice(), 200),
        Err(Error::InsufficientStake)
    );
    assert_eq!(
        registry.challenge_proof(9, "wrong result".to_string(), 999, alice(), 200),
        Err(Error::InsufficientStake)
    );
    assert_eq!(registry.set_challenge_stake(999, alice()), Err(Error::NotAuthorized));
    assert_eq!(registry.set_challenge_stake(999, eve()), Ok(()));
    assert!(registry.challenge_proof(1, "wrong result".to_string(), 999, alice(), 200).is_ok());
}

#[test]
fn a_challenge_records_its_stake_and_deadline() {
    let mut registry = registry();
    let mut tables = tables();
    submit(&mut registry);
    registry.verify_proof(1, eve(), &Fixed(true), &mut tables).unwrap();
    let event = registry.challenge_proof(1, "wrong result".to_string(), 1500, alice(), 200).unwrap();
    assert_eq!(
        event,
        ProofChallenged { challenge_id: 1, proof_id: 1, challenger: alice(), stake: 1500 }
    );
    let challenge = registry.get_challenge(1).unwrap();
    assert_eq!(challenge.challenge_id, 1);
    assert_eq!(challenge.proof_id, 1);
    assert_eq!(challenge.challenger, alice());
    assert_eq!(challenge.stake, 1500);
    assert_eq!(challenge.reason, "wrong result");
    assert_eq!(challenge.created_at, 200);
    assert_eq!(challenge.resolution_deadline, 200 + DAY);
    assert_eq!(challenge.status, ChallengeStatus::Active);
    assert_eq!(registry.get_proof(1).unwrap().status, ProofStatus::Challenged);
    assert_eq!(registry.get_proof_challenges(1), vec![1]);
    assert_eq!(registry.get_proof_challenges(2), Vec::<u64>::new());
    assert!(registry.get_challenge(2).is_none());
}

#[test]
fn the_challenge_window_runs_from_the_submission() {
    let mut registry = registry();
    let mut tables = tables();
    submit(&mut registry);
    registry.verify_proof(1, eve(), &Fixed(true), &mut tables).unwrap();
    assert_eq!(
        registry.challenge_proof(1, "late".to_string(), 1000, alice(), 100 + DAY + 1),
        Err(Error::ChallengePeriodExpired)
    );
    assert_eq!(registry.get_proof(1).unwrap().status, ProofStatus::Verified);
    assert!(registry.challenge_proof(1, "in time".to_string(), 1000, alice(), 100 + DAY).is_ok());
}

#[test]
fn only_a_verified_proof_is_challenged() {
    let mut registry = registry();
    let mut tables = tables();
    submit(&mut registry);
    assert_eq!(
        registry.challenge_proof(2, "unknown".to_string(), 1000, alice(), 200),
        Err(Error::ProofNotFound)
    );
    assert_eq!(
        registry.challenge_proof(1, "pending".to_string(), 1000, alice(), 200),
        Err(Error::InvalidChallenge)
    );
    registry.verify_proof(1, eve(), &Fixed(true), &mut tables).unwrap();
    registry.challenge_proof(1, "first".to_string(), 1000, alice(), 200).unwrap();
    assert_eq!(
        registry.challenge_proof(1, "second".to_string(), 1000, bob(), 201),
        Err(Error::InvalidChallenge)
    );
    assert_eq!(registry.get_proof_challenges(1), vec![1]);
}

#[test]
fn only_the_administrator_resolves_a_challenge() {
    let mut registry = registry();
    let mut tables = tables();
    submit(&mut registry);
    registry.verify_proof(1, eve(), &Fixed(true), &mut tables).unwrap();
    registry.challenge_proof(1, "wrong".to_string(), 1000, alice(), 200).unwrap();
    assert_eq!(registry.resolution_due(1, true, alice()), Err(Error::NotAuthorized));
    assert_eq!(
        registry.resolve_challenge(1, true, alice(), &mut tables, true, true),
        Err(Error::NotAuthorized)
    );
    assert_eq!(registry.resolution_due(2, true, eve()), Err(Error::ChallengeNotFound));
    assert_eq!(
        registry.resolve_challenge(2, true, eve(), &mut tables, true, true),
        Err(Error::ChallengeNotFound)
    );
    assert_eq!(registry.get_challenge(1).unwrap().status, ChallengeStatus::Active);
}

#[test]
fn the_stake_goes_to_the_challenger_or_the_administrator() {
    let mut registry = registry();
    let mut tables = tables();
    submit(&mut registry);
    registry.verify_proof(1, eve(), &Fixed(true), &mut tables).unwrap();
    registry.challenge_proof(1, "wrong".to_string(), 1200, alice(), 200).unwrap();
    assert_eq!(
        registry.resolution_due(1, true, eve()),
        Ok(StakeTransfer { recipient: alice(), amount: 1200, refund_query: Some(1) })
    );
    assert_eq!(
        registry.resolution_due(1, false, eve()),
        Ok(StakeTransfer { recipient: eve(), amount: 1200, refund_query: None })
    );
}

#[test]
fn a_failed_stake_transfer_leaves_the_challenge_active() {
    let mut registry = registry();
    let mut tables = tables();
    submit(&mut registry);
    registry.verify_proof(1, eve(), &Fixed(true), &mut tables).unwrap();
    registry.challenge_proof(1, "wrong".to_string(), 1000, alice(), 200).unwrap();
    assert_eq!(
        registry.resolve_challenge(1, true, eve(), &mut tables, false, true),
        Err(Error::TransferFailed)
    );
    assert_eq!(
        registry.resolve_challenge(1, false, eve(), &mut tables, false, true),
        Err(Error::TransferFailed)
    );
    assert_eq!(registry.get_challenge(1).unwrap().status, ChallengeStatus::Active);
    assert_eq!(registry.get_proof(1).unwrap().status, ProofStatus::Challenged);
    assert_eq!(tables.get_payment(1).unwrap().status, PaymentStatus::Completed);
}

#[test]
fn a_failed_refund_leaves_the_challenge_active() {
    let mut registry = registry();
    let mut tables = tables();
    submit(&mut registry);
    registry.verify_proof(1, eve(), &Fixed(true), &mut tables).unwrap();
    registry.challenge_proof(1, "wrong".to_string(), 1000, alice(), 200).unwrap();
    assert_eq!(
        registry.resolve_challenge(1, true, eve(), &mut tables, true, false),
        Err(Error::PaymentFailed(PaymentError::TransferFailed))
    );
    assert_eq!(registry.get_challenge(1).unwrap().status, ChallengeStatus::Active);
    assert_eq!(registry.get_proof(1).unwrap().status, ProofStatus::Challenged);
    assert_eq!(tables.get_payment(1).unwrap().status, PaymentStatus::Completed);
    assert!(tables.get_escrow(1).is_some());
}

#[test]
fn a_challenge_cannot_be_upheld_once_the_escrow_is_released() {
    let mut registry = registry();
    let mut tables = tables();
    submit(&mut registry);
    registry.verify_proof(1, eve(), &Fixed(true), &mut tables).unwrap();
    registry.challenge_proof(1, "wrong".to_string(), 1000, alice(), 200).unwrap();
    tables.release_escrow(1, DAY, true, true).unwrap();
    assert_eq!(
        registry.resolve_challenge(1, true, eve(), &mut tables, true, true),
        Err(Error::PaymentFailed(PaymentError::PaymentNotFound))
    );
    assert_eq!(registry.get_proof(1).unwrap().status, ProofStatus::Challenged);
    assert_eq!(
        registry.resolve_challenge(1, false, eve(), &mut tables, true, true),
        Ok(None)
    );
    assert_eq!(registry.get_proof(1).unwrap().status, ProofStatus::Verified);
}

#[test]
fn a_resolved_challenge_is_not_resolved_again() {
    let mut registry = registry();
    let mut tables = tables();
    submit(&mut registry);
    registry.verify_proof(1, eve(), &Fixed(true), &mut tables).unwrap();
    registry.challenge_proof(1, "wrong".to_string(), 1000, alice(), 200).unwrap();
    assert_eq!(
        registry.resolve_challenge(1, true, eve(), &mut tables, true, true),
        Ok(Some(PaymentRefunded { query_id: 1, user: charlie(), amount: 1000 }))
    );
    assert_eq!(registry.resolution_due(1, false, eve()), Err(Error::InvalidChallenge));
    assert_eq!(
        registry.resolve_challenge(1, false, eve(), &mut tables, true, true),
        Err(Error::InvalidChallenge)
    );
    assert_eq!(
        registry.resolve_challenge(1, true, eve(), &mut tables, true, true),
        Err(Error::InvalidChallenge)
    );
    assert_eq!(
        registry.verify_proof(1, eve(), &Fixed(true), &mut tables),
        Err(Error::ProofAlreadyVerified)
    );
    assert_eq!(
        registry.challenge_proof(1, "again".to_string(), 1000, bob(), 300),
        Err(Error::InvalidChallenge)
    );
    assert_eq!(registry.get_proof(1).unwrap().status, ProofStatus::Rejected);
    assert_eq!(tables.get_payment(1).unwrap().status, PaymentStatus::Refunded);
}

#[test]
fn a_rejected_proof_stays_rejected() {
    let mut registry = registry();
    let mut tables = tables();
    submit(&mut registry);
    registry.verify_proof(1, eve(), &Fixed(false), &mut tables).unwrap();
    assert_eq!(
        registry.verify_proof(1, eve(), &Fixed(true), &mut tables),
        Err(Error::ProofAlreadyVerified)
    );
    assert_eq!(
        registry.challenge_proof(1, "why".to_string(), 1000, alice(), 200),
        Err(Error::InvalidChallenge)
    );
    let key_hash = register_key(&mut registry);
    assert_eq!(
        registry.submit_proof(1, 1, vec![5], vec![9], key_hash, [0u8; 32], frank(), 300),
        Err(Error::ProofAlreadyVerified)
    );
    registry.add_validator(alice(), eve()).unwrap();
    registry.set_challenge_stake(1, eve()).unwrap();
    assert_eq!(registry.get_proof(1).unwrap().status, ProofStatus::Rejected);
    assert_eq!(tables.get_payment(1).unwrap().status, PaymentStatus::Pending);
}

#[test]
fn a_dismissed_proof_can_be_challenged_again() {
    let mut registry = registry();
    let mut tables = tables();
    submit(&mut registry);
    registry.verify_proof(1, eve(), &Fixed(true), &mut tables).unwrap();
    registry.challenge_proof(1, "first".to_string(), 1000, alice(), 200).unwrap();
    registry.resolve_challenge(1, false, eve(), &mut tables, true, true).unwrap();
    let event = registry.challenge_proof(1, "second".to_string(), 2000, bob(), 300).unwrap();
    assert_eq!(event.challenge_id, 2);
    assert_eq!(registry.get_proof_challenges(1), vec![1, 2]);
    assert_eq!(registry.get_challenge(1).unwrap().status, ChallengeStatus::Dismissed);
    assert_eq!(registry.get_challenge(2).unwrap().status, ChallengeStatus::Active);
    assert_eq!(registry.get_proof(1).unwrap().status, ProofStatus::Challenged);
}

#[test]
fn the_registry_knows_its_own_identity() {
    assert_eq!(registry().account(), registry_account());
    assert_ne!(registry().account(), alice());
}

#[test]
fn the_challenge_period_is_set_by_the_administrator() {
    let mut registry = registry();
    let mut tables = tables();
    submit(&mut registry);
    registry.verify_proof(1, eve(), &Fixed(true), &mut tables).unwrap();
    assert_eq!(registry.challenge_period(), DAY);
    assert_eq!(registry.set_challenge_period(50, bob()), Err(Error::NotAuthorized));
    assert_eq!(registry.challenge_period(), DAY);
    assert_eq!(registry.set_challenge_period(50, eve()), Ok(()));
    assert_eq!(registry.challenge_period(), 50);
    assert_eq!(
        registry.challenge_proof(1, "late".to_string(), 1000, alice(), 151),
        Err(Error::ChallengePeriodExpired)
    );
    let event = registry.challenge_proof(1, "in time".to_string(), 1000, alice(), 150).unwrap();
    assert_eq!(registry.get_challenge(event.challenge_id).unwrap().resolution_deadline, 200);
}

#[test]
fn a_window_that_reaches_past_the_end_of_time_never_closes() {
    let mut registry = ZKVerifier::new(registry_account(), alice(), bob(), eve(), 1000, u64::MAX);
    let mut tables = tables();
    submit(&mut registry);
    registry.verify_proof(1, eve(), &Fixed(true), &mut tables).unwrap();
    registry.set_challenge_period(u64::MAX, eve()).unwrap();
    registry.set_challenge_period(u64::MAX - 5, eve()).unwrap();
    assert!(registry.challenge_proof(1, "late".to_string(), 1000, alice(), 5).is_ok());
}

#[test]
fn a_proof_under_review_comes_with_its_key() {
    let mut registry = registry();
    let mut tables = tables();
    assert_eq!(registry.under_review(1, alice()), Err(Error::NotAuthorized));
    assert_eq!(registry.under_review(1, eve()), Err(Error::ProofNotFound));
    submit(&mut registry);
    {
        let (proof, key) = registry.under_review(1, eve()).unwrap();
        assert_eq!(proof.proof_id, 1);
        assert_eq!(proof.proof_data, vec![5, 6, 7, 8]);
        assert_eq!(key.key_data, vec![1, 2, 3, 4]);
        assert_eq!(key.key_hash, proof.verification_key_hash);
        assert_eq!(key.owner, alice());
        assert!(key.is_active);
    }
    registry.verify_proof(1, eve(), &Fixed(true), &mut tables).unwrap();
    assert_eq!(registry.under_review(1, eve()), Err(Error::ProofAlreadyVerified));
}

#[test]
fn the_settings_can_be_read_back() {
    let mut registry = registry();
    assert_eq!(registry.owner(), eve());
    assert_eq!(registry.min_challenge_stake(), 1000);
    assert_eq!(registry.next_proof_id(), 1);
    assert_eq!(registry.next_challenge_id(), 1);
    submit(&mut registry);
    assert_eq!(registry.next_proof_id(), 2);
}
