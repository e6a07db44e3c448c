//! Payments and escrows: one pair per query, created against the directory's
//! price, completed by the proof registry, and settled by release or refund.
//!
//! The host moves the funds. Each operation that pays someone has a
//! companion that says what is due (`excess_due`, `release_due`,
//! `refund_due`); the host makes those transfers and passes their outcome to
//! the operation, which commits only if they went through.
use vstd::prelude::*;
use std::collections::HashMap;
use crate::primitives::{AccountId, Balance, Digest, Timestamp};
use crate::dataset_registry::{DatasetRegistry, DatasetRegistryView};

verus! {

/// Where a payment stands.
#[derive(Debug, Clone, Copy, PartialEq, Eq, Structural)]
pub enum PaymentStatus {
    /// Paid into escrow; no proof accepted yet.
    Pending,
    /// A proof was verified for the query.
    Completed,
    Disputed,
    /// The escrowed amount went back to the consumer.
    Refunded,
}

/// What a consumer paid for one query.
#[derive(Debug, Clone, Copy, PartialEq, Eq)]
pub struct Payment {
    pub query_id: u64,
    pub dataset_id: u64,
    pub user: AccountId,
    /// The dataset's price when the payment was made.
    pub amount: Balance,
    pub timestamp: Timestamp,
    pub status: PaymentStatus,
    /// The digest of the verified proof, once there is one.
    pub proof_hash: Option<Digest>,
}

/// Funds held for one query until they are released or refunded.
#[derive(Debug, Clone, Copy, PartialEq, Eq)]
pub struct Escrow {
    pub user: AccountId,
    pub dataset_owner: AccountId,
    pub amount: Balance,
    pub created_at: Timestamp,
    /// The earliest time at which the funds may go to the dataset owner.
    pub release_time: Timestamp,
}

/// Emitted when a payment and its escrow are created.
#[derive(Debug, Clone, Copy, PartialEq, Eq)]
pub struct PaymentCreated {
    pub query_id: u64,
    pub user: AccountId,
    pub dataset_id: u64,
    pub amount: Balance,
}

/// Emitted when a payment is completed by a verified proof.
#[derive(Debug, Clone, Copy, PartialEq, Eq)]
pub struct PaymentCompleted {
    pub query_id: u64,
    pub proof_hash: Digest,
}

/// Emitted when an escrow is paid back to the consumer.
#[derive(Debug, Clone, Copy, PartialEq, Eq)]
pub struct PaymentRefunded {
    pub query_id: u64,
    pub user: AccountId,
    pub amount: Balance,
}

/// Emitted when an escrow is paid out to the dataset owner; `amount` is the
/// owner's share.
#[derive(Debug, Clone, Copy, PartialEq, Eq)]
pub struct EscrowReleased {
    pub query_id: u64,
    pub dataset_owner: AccountId,
    pub amount: Balance,
}

/// The two transfers that release an escrow.
#[derive(Debug, Clone, Copy, PartialEq, Eq)]
pub struct Payout {
    pub provider: AccountId,
    pub provider_amount: Balance,
    pub fee_recipient: AccountId,
    pub platform_fee: Balance,
}

/// Why a payment operation was refused.
#[derive(Debug, Clone, Copy, PartialEq, Eq, Structural)]
pub enum Error {
    PaymentNotFound,
    InsufficientPayment,
    PaymentAlreadyCompleted,
    NotAuthorized,
    EscrowNotReady,
    TransferFailed,
    InvalidProof,
    DatasetNotFound,
}

/// The largest fee, in basis points: the whole amount.
pub const MAX_FEE_BPS: u16 = 10000;

/// The platform's share of `amount` at `fee_bps` basis points, rounded down.
pub open spec fn platform_fee(amount: Balance, fee_bps: u16) -> nat {
    (amount as nat * fee_bps as nat) / 10000
}

/// What is left of `amount` for the dataset owner once the platform's share
/// is taken; the rounding remainder stays with the owner.
pub open spec fn provider_share(amount: Balance, fee_bps: u16) -> int {
    amount - platform_fee(amount, fee_bps)
}

/// The platform's share never exceeds the amount it is taken from.
pub proof fn lemma_platform_fee_bounded(amount: Balance, fee_bps: u16)
    requires
        fee_bps <= MAX_FEE_BPS,
    ensures
        platform_fee(amount, fee_bps) <= amount,
        0 <= provider_share(amount, fee_bps) <= amount,
        provider_share(amount, fee_bps) + platform_fee(amount, fee_bps) == amount,
{
    let a = amount as nat;
    let b = fee_bps as nat;
    assert(a * b <= a * 10000) by (nonlinear_arith)
        requires
            b <= 10000,
    ;
    assert((a * b) / 10000 <= a) by (nonlinear_arith)
        requires
            a * b <= a * 10000,
    ;
}

/// Splits `amount` into the dataset owner's share and the platform's fee.
pub fn fee_split(amount: Balance, fee_bps: u16) -> (shares: (Balance, Balance))
    requires
        fee_bps <= MAX_FEE_BPS,
    ensures
        shares.1 == platform_fee(amount, fee_bps),
        shares.0 == provider_share(amount, fee_bps),
        shares.0 + shares.1 == amount,
{
    let bps: u128 = fee_bps as u128;
    let whole: u128 = amount / 10000;
    let part: u128 = amount % 10000;
    proof {
        lemma_platform_fee_bounded(amount, fee_bps);
        assert(whole * bps <= whole * 10000) by (nonlinear_arith)
            requires
                bps <= 10000,
        ;
        assert(part * bps <= 10000 * 10000) by (nonlinear_arith)
            requires
                part < 10000,
                bps <= 10000,
        ;
        assert((amount as nat * bps as nat) / 10000 == whole * bps + (part * bps) / 10000)
            by (nonlinear_arith)
            requires
                amount == whole * 10000 + part,
                0 <= part < 10000,
        ;
    }
    let fee: u128 = whole * bps + (part * bps) / 10000;
    (amount - fee, fee)
}

/// The payment tables.
pub struct PaymentManager {
    dataset_registry: AccountId,
    zk_verifier: AccountId,
    payments: HashMap<u64, Payment>,
    escrows: HashMap<u64, Escrow>,
    next_query_id: u64,
    owner: AccountId,
    platform_fee_bps: u16,
    escrow_period: u64,
}

/// The payment tables as a mathematical value.
pub struct PaymentManagerView {
    /// The identity of the dataset directory.
    pub dataset_registry: AccountId,
    /// The identity of the proof registry, which alone may complete a
    /// payment or refund a completed one.
    pub zk_verifier: AccountId,
    /// Every payment made so far, by query id.
    pub payments: Map<u64, Payment>,
    /// The escrows that still hold funds, by query id.
    pub escrows: Map<u64, Escrow>,
    /// The id the next payment will receive.
    pub next_query_id: u64,
    /// The administrator, who also receives the platform's fees.
    pub owner: AccountId,
    /// The platform's fee in basis points.
    pub platform_fee_bps: u16,
    /// How long an escrow is held, in milliseconds.
    pub escrow_period: u64,
}

impl PaymentManagerView {
    /// Query ids are handed out from 1 upwards without gaps; each payment is
    /// stored under its own id; an escrow belongs to a payment of the same
    /// consumer and amount; a pending payment is still in escrow and a
    /// refunded one no longer is; a proof digest is recorded exactly once a
    /// payment has left `Pending`.
    pub open spec fn wf(self) -> bool {
        &&& self.next_query_id >= 1
        &&& self.platform_fee_bps <= MAX_FEE_BPS
        &&& forall|id: u64| #[trigger]
            self.payments.contains_key(id) <==> 1 <= id < self.next_query_id
        &&& forall|id: u64| #[trigger]
            self.payments.contains_key(id) ==> self.payment_wf(id)
        &&& forall|id: u64| #[trigger]
            self.escrows.contains_key(id) ==> self.escrow_wf(id)
    }

    /// What holds of the payment stored under `id`.
    pub open spec fn payment_wf(self, id: u64) -> bool {
        let payment = self.payments[id];
        &&& payment.query_id == id
        &&& payment.status == PaymentStatus::Pending ==> self.escrows.contains_key(id)
            && payment.proof_hash is None
        &&& payment.status == PaymentStatus::Completed ==> payment.proof_hash is Some
        &&& payment.status == PaymentStatus::Refunded ==> !self.escrows.contains_key(id)
        &&& payment.status != PaymentStatus::Disputed
    }

    /// What holds of the escrow stored under `id`.
    pub open spec fn escrow_wf(self, id: u64) -> bool {
        let escrow = self.escrows[id];
        &&& self.payments.contains_key(id)
        &&& escrow.user == self.payments[id].user
        &&& escrow.amount == self.payments[id].amount
        &&& escrow.created_at == self.payments[id].timestamp
        &&& escrow.created_at <= escrow.release_time
    }

    /// The price and the owner of `dataset_id`, if the directory lists it as
    /// active.
    pub open spec fn listing(directory: DatasetRegistryView, dataset_id: u64) -> Option<
        (Balance, AccountId),
    > {
        if directory.datasets.contains_key(dataset_id) && directory.datasets[dataset_id].is_active {
            Some(
                (
                    directory.datasets[dataset_id].price_per_query,
                    directory.datasets[dataset_id].owner,
                ),
            )
        } else {
            None
        }
    }

    /// What a consumer who paid `value` for a query on `dataset_id` gets
    /// back at once: the excess over the price.
    pub open spec fn excess_due(directory: DatasetRegistryView, dataset_id: u64, value: Balance) -> Result<
        Balance,
        Error,
    > {
        match Self::listing(directory, dataset_id) {
            None => Err(Error::DatasetNotFound),
            Some((price, _)) => if value < price {
                Err(Error::InsufficientPayment)
            } else {
                Ok((value - price) as Balance)
            },
        }
    }

    /// The tables after `caller` paid for a query on a dataset priced at
    /// `price` and owned by `dataset_owner`, at time `now`.
    pub open spec fn with_payment(
        self,
        dataset_id: u64,
        price: Balance,
        dataset_owner: AccountId,
        caller: AccountId,
        now: Timestamp,
    ) -> Self {
        let query_id = self.next_query_id;
        PaymentManagerView {
            payments: self.payments.insert(
                query_id,
                Payment {
                    query_id,
                    dataset_id,
                    user: caller,
                    amount: price,
                    timestamp: now,
                    status: PaymentStatus::Pending,
                    proof_hash: None,
                },
            ),
            escrows: self.escrows.insert(
                query_id,
                Escrow {
                    user: caller,
                    dataset_owner,
                    amount: price,
                    created_at: now,
                    release_time: (now + self.escrow_period) as Timestamp,
                },
            ),
            next_query_id: (query_id + 1) as u64,
            ..self
        }
    }

    /// The outcome of `create_payment`: the tables afterwards and what the
    /// caller is told. The payment stands even when the refund of the excess
    /// did not go through.
    pub open spec fn create_payment(
        self,
        directory: DatasetRegistryView,
        dataset_id: u64,
        value: Balance,
        caller: AccountId,
        now: Timestamp,
        refund_sent: bool,
    ) -> (Self, Result<PaymentCreated, Error>) {
        match Self::excess_due(directory, dataset_id, value) {
            Err(error) => (self, Err(error)),
            Ok(excess) => {
                let (price, dataset_owner) = Self::listing(directory, dataset_id).unwrap();
                let after = self.with_payment(dataset_id, price, dataset_owner, caller, now);
                if excess > 0 && !refund_sent {
                    (after, Err(Error::TransferFailed))
                } else {
                    (
                        after,
                        Ok(
                            PaymentCreated {
                                query_id: self.next_query_id,
                                user: caller,
                                dataset_id,
                                amount: price,
                            },
                        ),
                    )
                }
            },
        }
    }

    /// Why `caller` may not complete the payment for `query_id`, if so.
    pub open spec fn completion_refusal(self, query_id: u64, caller: AccountId) -> Option<Error> {
        if caller != self.zk_verifier {
            Some(Error::NotAuthorized)
        } else if !self.payments.contains_key(query_id) {
            Some(Error::PaymentNotFound)
        } else if self.payments[query_id].status != PaymentStatus::Pending {
            Some(Error::PaymentAlreadyCompleted)
        } else {
            None
        }
    }

    /// The outcome of `complete_payment`.
    pub open spec fn complete_payment(self, query_id: u64, proof_hash: Digest, caller: AccountId) -> (
        Self,
        Result<PaymentCompleted, Error>,
    ) {
        match self.completion_refusal(query_id, caller) {
            Some(error) => (self, Err(error)),
            None => (
                PaymentManagerView {
                    payments: self.payments.insert(
                        query_id,
                        Payment {
                            status: PaymentStatus::Completed,
                            proof_hash: Some(proof_hash),
                            ..self.payments[query_id]
                        },
                    ),
                    ..self
                },
                Ok(PaymentCompleted { query_id, proof_hash }),
            ),
        }
    }

    /// The transfers that release the escrow of `query_id` at time `now`,
    /// or why it cannot be released.
    pub open spec fn release_due(self, query_id: u64, now: Timestamp) -> Result<Payout, Error> {
        if !self.escrows.contains_key(query_id) || !self.payments.contains_key(query_id) {
            Err(Error::PaymentNotFound)
        } else if self.payments[query_id].status != PaymentStatus::Completed || now
            < self.escrows[query_id].release_time {
            Err(Error::EscrowNotReady)
        } else {
            let escrow = self.escrows[query_id];
            Ok(
                Payout {
                    provider: escrow.dataset_owner,
                    provider_amount: provider_share(escrow.amount, self.platform_fee_bps) as Balance,
                    fee_recipient: self.owner,
                    platform_fee: platform_fee(escrow.amount, self.platform_fee_bps) as Balance,
                },
            )
        }
    }

    /// The outcome of `release_escrow`, given whether each of the two
    /// transfers went through. A fee of zero is not transferred.
    pub open spec fn release_escrow(
        self,
        query_id: u64,
        now: Timestamp,
        provider_paid: bool,
        fee_paid: bool,
    ) -> (Self, Result<EscrowReleased, Error>) {
        match self.release_due(query_id, now) {
            Err(error) => (self, Err(error)),
            Ok(payout) => if !provider_paid || (payout.platform_fee > 0 && !fee_paid) {
                (self, Err(Error::TransferFailed))
            } else {
                (
                    PaymentManagerView { escrows: self.escrows.remove(query_id), ..self },
                    Ok(
                        EscrowReleased {
                            query_id,
                            dataset_owner: payout.provider,
                            amount: payout.provider_amount,
                        },
                    ),
                )
            },
        }
    }

    /// The refund that `caller` may order for `query_id`, or why not. The
    /// administrator may refund a payment that is not completed; the proof
    /// registry may refund a completed one as well.
    pub open spec fn refund_due(self, query_id: u64, caller: AccountId) -> Result<
        PaymentRefunded,
        Error,
    > {
        if caller != self.owner && caller != self.zk_verifier {
            Err(Error::NotAuthorized)
        } else if !self.payments.contains_key(query_id) || !self.escrows.contains_key(query_id) {
            Err(Error::PaymentNotFound)
        } else if self.payments[query_id].status == PaymentStatus::Completed && caller
            != self.zk_verifier {
            Err(Error::PaymentAlreadyCompleted)
        } else {
            Ok(
                PaymentRefunded {
                    query_id,
                    user: self.escrows[query_id].user,
                    amount: self.escrows[query_id].amount,
                },
            )
        }
    }

    /// The outcome of `refund_payment`, given whether the transfer to the
    /// consumer went through.
    pub open spec fn refund_payment(self, query_id: u64, caller: AccountId, refund_sent: bool) -> (
        Self,
        Result<PaymentRefunded, Error>,
    ) {
        match self.refund_due(query_id, caller) {
            Err(error) => (self, Err(error)),
            Ok(refund) => if !refund_sent {
                (self, Err(Error::TransferFailed))
            } else {
                (
                    PaymentManagerView {
                        payments: self.payments.insert(
                            query_id,
                            Payment {
                                status: PaymentStatus::Refunded,
                                ..self.payments[query_id]
                            },
                        ),
                        escrows: self.escrows.remove(query_id),
                        ..self
                    },
                    Ok(refund),
                )
            },
        }
    }

    /// The query ids below `upto` that `user` paid for, in ascending order.
    pub open spec fn paid_below(self, user: AccountId, upto: nat) -> Seq<u64>
        decreases upto,
    {
        if upto <= 1 {
            Seq::empty()
        } else {
            let id = (upto - 1) as u64;
            let rest = self.paid_below(user, (upto - 1) as nat);
            if self.payments.contains_key(id) && self.payments[id].user == user {
                rest.push(id)
            } else {
                rest
            }
        }
    }

    /// Every query id that `user` paid for, oldest first.
    pub open spec fn paid_by(self, user: AccountId) -> Seq<u64> {
        self.paid_below(user, self.next_query_id as nat)
    }
}

impl View for PaymentManager {
    type V = PaymentManagerView;

    closed spec fn view(&self) -> PaymentManagerView {
        PaymentManagerView {
            dataset_registry: self.dataset_registry,
            zk_verifier: self.zk_verifier,
            payments: self.payments@,
            escrows: self.escrows@,
            next_query_id: self.next_query_id,
            owner: self.owner,
            platform_fee_bps: self.platform_fee_bps,
            escrow_period: self.escrow_period,
        }
    }
}

impl PaymentManager {
    /// Empty tables, administered by `owner`, that take `platform_fee_bps`
    /// basis points of every released escrow and hold each escrow for
    /// `escrow_period` milliseconds.
    pub fn new(
        dataset_registry: AccountId,
        zk_verifier: AccountId,
        owner: AccountId,
        platform_fee_bps: u16,
        escrow_period: u64,
    ) -> (manager: PaymentManager)
        requires
            platform_fee_bps <= MAX_FEE_BPS,
        ensures
            manager@.wf(),
            manager@ == (PaymentManagerView {
                dataset_registry,
                zk_verifier,
                payments: Map::empty(),
                escrows: Map::empty(),
                next_query_id: 1,
                owner,
                platform_fee_bps,
                escrow_period,
            }),
    {
        PaymentManager {
            dataset_registry,
            zk_verifier,
            payments: HashMap::new(),
            escrows: HashMap::new(),
            next_query_id: 1,
            owner,
            platform_fee_bps,
            escrow_period,
        }
    }

    /// What the host must send back to a consumer who pays `value` for a
    /// query on `dataset_id`: the excess over the directory's price.
    pub fn excess_due(directory: &DatasetRegistry, dataset_id: u64, value: Balance) -> (result: Result<
        Balance,
        Error,
    >)
        ensures
            result == PaymentManagerView::excess_due(directory@, dataset_id, value),
    {
        match directory.get_query_price(dataset_id) {
            Err(_) => Err(Error::DatasetNotFound),
            Ok(price) => {
                if value < price {
                    Err(Error::InsufficientPayment)
                } else {
                    Ok(value - price)
                }
            },
        }
    }

    /// Records that `caller` paid `value` for a query on `dataset_id` at time
    /// `now`: a pending payment of the directory's price, and an escrow of
    /// the same amount that matures after the escrow period.
    ///
    /// `refund_sent` says whether the host managed to send the excess back.
    /// If it did not, the payment is recorded all the same and the failure
    /// is reported.
    pub fn create_payment(
        &mut self,
        directory: &DatasetRegistry,
        dataset_id: u64,
        value: Balance,
        caller: AccountId,
        now: Timestamp,
        refund_sent: bool,
    ) -> (result: Result<PaymentCreated, Error>)
        requires
            old(self)@.wf(),
            old(self)@.next_query_id < u64::MAX,
            now + old(self)@.escrow_period <= u64::MAX,
        ensures
            final(self)@.wf(),
            (final(self)@, result) == old(self)@.create_payment(
                directory@,
                dataset_id,
                value,
                caller,
                now,
                refund_sent,
            ),
    {
        let price = match directory.get_query_price(dataset_id) {
            Err(_) => {
                return Err(Error::DatasetNotFound);
            },
            Ok(price) => price,
        };
        if value < price {
            return Err(Error::InsufficientPayment);
        }
        let dataset_owner = match directory.get_owner(dataset_id) {
            Err(_) => {
                return Err(Error::DatasetNotFound);
            },
            Ok(dataset_owner) => dataset_owner,
        };
        let query_id = self.next_query_id;
        let payment = Payment {
            query_id,
            dataset_id,
            user: caller,
            amount: price,
            timestamp: now,
            status: PaymentStatus::Pending,
            proof_hash: None,
        };
        let escrow = Escrow {
            user: caller,
            dataset_owner,
            amount: price,
            created_at: now,
            release_time: now + self.escrow_period,
        };
        self.payments.insert(query_id, payment);
        self.escrows.insert(query_id, escrow);
        self.next_query_id = query_id + 1;
        if value > price && !refund_sent {
            return Err(Error::TransferFailed);
        }
        Ok(PaymentCreated { query_id, user: caller, dataset_id, amount: price })
    }
}

impl PaymentManager {
    /// Marks the payment for `query_id` as completed by the proof whose
    /// digest is `proof_hash`. Only the proof registry may.
    pub fn complete_payment(&mut self, query_id: u64, proof_hash: Digest, caller: AccountId) -> (result:
        Result<PaymentCompleted, Error>)
        requires
            old(self)@.wf(),
        ensures
            final(self)@.wf(),
            (final(self)@, result) == old(self)@.complete_payment(query_id, proof_hash, caller),
    {
        if caller != self.zk_verifier {
            return Err(Error::NotAuthorized);
        }
        let mut payment = match self.payments.get(&query_id) {
            None => {
                return Err(Error::PaymentNotFound);
            },
            Some(payment) => *payment,
        };
        if payment.status != PaymentStatus::Pending {
            return Err(Error::PaymentAlreadyCompleted);
        }
        payment.status = PaymentStatus::Completed;
        payment.proof_hash = Some(proof_hash);
        self.payments.insert(query_id, payment);
        Ok(PaymentCompleted { query_id, proof_hash })
    }

    /// The two transfers the host must make to release the escrow of
    /// `query_id` at time `now`: the dataset owner's share and the
    /// platform's fee.
    pub fn release_due(&self, query_id: u64, now: Timestamp) -> (result: Result<Payout, Error>)
        requires
            self@.wf(),
        ensures
            result == self@.release_due(query_id, now),
            result matches Ok(payout) ==> payout.provider_amount + payout.platform_fee
                == self@.escrows[query_id].amount,
    {
        let escrow = match self.escrows.get(&query_id) {
            None => {
                return Err(Error::PaymentNotFound);
            },
            Some(escrow) => *escrow,
        };
        let payment = match self.payments.get(&query_id) {
            None => {
                return Err(Error::PaymentNotFound);
            },
            Some(payment) => *payment,
        };
        if payment.status != PaymentStatus::Completed || now < escrow.release_time {
            return Err(Error::EscrowNotReady);
        }
        let (provider_amount, platform_fee) = fee_split(escrow.amount, self.platform_fee_bps);
        Ok(
            Payout {
                provider: escrow.dataset_owner,
                provider_amount,
                fee_recipient: self.owner,
                platform_fee,
            },
        )
    }

    /// Releases the escrow of `query_id` to the dataset owner and the
    /// platform, provided the payment is completed, the escrow has matured
    /// at time `now`, and the host made the transfers of `release_due`:
    /// `provider_paid` and `fee_paid` say whether each went through. The
    /// escrow is deleted only if they did.
    pub fn release_escrow(&mut self, query_id: u64, now: Timestamp, provider_paid: bool, fee_paid: bool) -> (result:
        Result<EscrowReleased, Error>)
        requires
            old(self)@.wf(),
        ensures
            final(self)@.wf(),
            (final(self)@, result) == old(self)@.release_escrow(
                query_id,
                now,
                provider_paid,
                fee_paid,
            ),
    {
        let payout = match self.release_due(query_id, now) {
            Err(error) => {
                return Err(error);
            },
            Ok(payout) => payout,
        };
        if !provider_paid || (payout.platform_fee > 0 && !fee_paid) {
            return Err(Error::TransferFailed);
        }
        self.escrows.remove(&query_id);
        Ok(
            EscrowReleased {
                query_id,
                dataset_owner: payout.provider,
                amount: payout.provider_amount,
            },
        )
    }

    /// The transfer the host must make to refund the escrow of `query_id`
    /// on `caller`'s order: the whole escrowed amount, to the consumer.
    pub fn refund_due(&self, query_id: u64, caller: AccountId) -> (result: Result<
        PaymentRefunded,
        Error,
    >)
        ensures
            result == self@.refund_due(query_id, caller),
    {
        if caller != self.owner && caller != self.zk_verifier {
            return Err(Error::NotAuthorized);
        }
        let payment = match self.payments.get(&query_id) {
            None => {
                return Err(Error::PaymentNotFound);
            },
            Some(payment) => *payment,
        };
        let escrow = match self.escrows.get(&query_id) {
            None => {
                return Err(Error::PaymentNotFound);
            },
            Some(escrow) => *escrow,
        };
        if payment.status == PaymentStatus::Completed && caller != self.zk_verifier {
            return Err(Error::PaymentAlreadyCompleted);
        }
        Ok(PaymentRefunded { query_id, user: escrow.user, amount: escrow.amount })
    }

    /// Refunds the escrow of `query_id` to the consumer on `caller`'s order,
    /// provided the host made the transfer of `refund_due`: `refund_sent`
    /// says whether it went through. The administrator cannot refund a
    /// completed payment; the proof registry, acting on an upheld challenge,
    /// can.
    pub fn refund_payment(&mut self, query_id: u64, caller: AccountId, refund_sent: bool) -> (result:
        Result<PaymentRefunded, Error>)
        requires
            old(self)@.wf(),
        ensures
            final(self)@.wf(),
            (final(self)@, result) == old(self)@.refund_payment(query_id, caller, refund_sent),
    {
        let refund = match self.refund_due(query_id, caller) {
            Err(error) => {
                return Err(error);
            },
            Ok(refund) => refund,
        };
        if !refund_sent {
            return Err(Error::TransferFailed);
        }
        let mut payment = match self.payments.get(&query_id) {
            None => {
                return Err(Error::PaymentNotFound);
            },
            Some(payment) => *payment,
        };
        payment.status = PaymentStatus::Refunded;
        self.payments.insert(query_id, payment);
        self.escrows.remove(&query_id);
        Ok(refund)
    }

    /// The payment for `query_id`, if there is one.
    pub fn get_payment(&self, query_id: u64) -> (found: Option<Payment>)
        ensures
            found == (if self@.payments.contains_key(query_id) {
                Some(self@.payments[query_id])
            } else {
                None
            }),
    {
        match self.payments.get(&query_id) {
            Some(payment) => Some(*payment),
            None => None,
        }
    }

    /// The escrow for `query_id`, while it still holds funds.
    pub fn get_escrow(&self, query_id: u64) -> (found: Option<Escrow>)
        ensures
            found == (if self@.escrows.contains_key(query_id) {
                Some(self@.escrows[query_id])
            } else {
                None
            }),
    {
        match self.escrows.get(&query_id) {
            Some(escrow) => Some(*escrow),
            None => None,
        }
    }

    /// The query ids that `user` paid for, oldest first.
    pub fn get_user_payments(&self, user: AccountId) -> (ids: Vec<u64>)
        requires
            self@.wf(),
        ensures
            ids@ == self@.paid_by(user),
    {
        let mut ids: Vec<u64> = Vec::new();
        let mut id: u64 = 1;
        while id < self.next_query_id
            invariant
                1 <= id <= self.next_query_id,
                ids@ == self@.paid_below(user, id as nat),
            decreases self.next_query_id - id,
        {
            match self.payments.get(&id) {
                Some(payment) => {
                    if payment.user == user {
                        ids.push(id);
                    }
                },
                None => {},
            }
            id += 1;
        }
        ids
    }

    /// Sets the platform's fee, in basis points. Only the administrator may.
    pub fn set_platform_fee(&mut self, fee_bps: u16, caller: AccountId) -> (result: Result<(), Error>)
        requires
            fee_bps <= MAX_FEE_BPS,
        ensures
            match result {
                Ok(()) => caller == old(self)@.owner && final(self)@ == (PaymentManagerView {
                    platform_fee_bps: fee_bps,
                    ..old(self)@
                }),
                Err(error) => error == Error::NotAuthorized && caller != old(self)@.owner
                    && final(self)@ == old(self)@,
            },
            old(self)@.wf() ==> final(self)@.wf(),
    {
        if caller != self.owner {
            return Err(Error::NotAuthorized);
        }
        self.platform_fee_bps = fee_bps;
        Ok(())
    }

    /// Sets how long new escrows are held. Only the administrator may.
    pub fn set_escrow_period(&mut self, period: u64, caller: AccountId) -> (result: Result<(), Error>)
        ensures
            match result {
                Ok(()) => caller == old(self)@.owner && final(self)@ == (PaymentManagerView {
                    escrow_period: period,
                    ..old(self)@
                }),
                Err(error) => error == Error::NotAuthorized && caller != old(self)@.owner
                    && final(self)@ == old(self)@,
            },
            old(self)@.wf() ==> final(self)@.wf(),
    {
        if caller != self.owner {
            return Err(Error::NotAuthorized);
        }
        self.escrow_period = period;
        Ok(())
    }
}

impl PaymentManager {
    /// The id the next payment will receive.
    pub fn next_query_id(&self) -> (id: u64)
        ensures
            id == self@.next_query_id,
    {
        self.next_query_id
    }

    /// How long a new escrow is held, in milliseconds.
    pub fn escrow_period(&self) -> (period: u64)
        ensures
            period == self@.escrow_period,
    {
        self.escrow_period
    }

    /// The platform's fee, in basis points.
    pub fn platform_fee_bps(&self) -> (fee_bps: u16)
        ensures
            fee_bps == self@.platform_fee_bps,
    {
        self.platform_fee_bps
    }

    /// The administrator.
    pub fn owner(&self) -> (owner: AccountId)
        ensures
            owner == self@.owner,
    {
        self.owner
    }
}

} // verus!
