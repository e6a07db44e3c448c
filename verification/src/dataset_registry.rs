//! The directory of datasets: who owns each one, what a query costs, and
//! which validator nodes serve it.
use vstd::prelude::*;
use std::collections::HashMap;
use crate::primitives::{contains_account, copy_accounts, AccountId, Balance, Digest, Timestamp};

verus! {

/// A registered dataset.
#[derive(Debug, PartialEq, Eq)]
pub struct Dataset {
    pub id: u64,
    pub owner: AccountId,
    pub name: String,
    pub description: String,
    /// Merkle root of the dataset's embeddings.
    pub embedding_root: Digest,
    /// Content address of the dataset's metadata.
    pub metadata_hash: Digest,
    pub price_per_query: Balance,
    pub is_active: bool,
    pub created_at: Timestamp,
    pub total_queries: u64,
    pub validator_nodes: Vec<AccountId>,
}

/// What a [`Dataset`] holds, as mathematical values.
pub struct DatasetView {
    pub id: u64,
    pub owner: AccountId,
    pub name: Seq<char>,
    pub description: Seq<char>,
    pub embedding_root: Digest,
    pub metadata_hash: Digest,
    pub price_per_query: Balance,
    pub is_active: bool,
    pub created_at: Timestamp,
    pub total_queries: u64,
    pub validator_nodes: Seq<AccountId>,
}

impl View for Dataset {
    type V = DatasetView;

    open spec fn view(&self) -> DatasetView {
        DatasetView {
            id: self.id,
            owner: self.owner,
            name: self.name@,
            description: self.description@,
            embedding_root: self.embedding_root,
            metadata_hash: self.metadata_hash,
            price_per_query: self.price_per_query,
            is_active: self.is_active,
            created_at: self.created_at,
            total_queries: self.total_queries,
            validator_nodes: self.validator_nodes@,
        }
    }
}

impl Clone for Dataset {
    fn clone(&self) -> (copy: Dataset)
        ensures
            copy@ == self@,
    {
        Dataset {
            id: self.id,
            owner: self.owner,
            name: self.name.clone(),
            description: self.description.clone(),
            embedding_root: self.embedding_root,
            metadata_hash: self.metadata_hash,
            price_per_query: self.price_per_query,
            is_active: self.is_active,
            created_at: self.created_at,
            total_queries: self.total_queries,
            validator_nodes: copy_accounts(&self.validator_nodes),
        }
    }
}

impl DatasetView {
    /// A record stored under `id` carries that id, is named, and lists no
    /// validator twice.
    pub open spec fn wf(self, id: u64) -> bool {
        &&& self.id == id
        &&& self.name.len() > 0
        &&& self.validator_nodes.no_duplicates()
    }
}

/// Emitted when a dataset is registered.
#[derive(Debug, Clone, PartialEq, Eq)]
pub struct DatasetRegistered {
    pub dataset_id: u64,
    pub owner: AccountId,
    pub name: String,
    pub price_per_query: Balance,
}

/// Emitted when a dataset's price or availability changes.
#[derive(Debug, Clone, Copy, PartialEq, Eq)]
pub struct DatasetUpdated {
    pub dataset_id: u64,
    pub price_per_query: Balance,
    pub is_active: bool,
}

/// Emitted when a validator node is added to a dataset.
#[derive(Debug, Clone, Copy, PartialEq, Eq)]
pub struct ValidatorAdded {
    pub dataset_id: u64,
    pub validator: AccountId,
}

/// Why a directory operation was refused.
#[derive(Debug, Clone, Copy, PartialEq, Eq, Structural)]
pub enum Error {
    DatasetNotFound,
    NotOwner,
    NotAuthorized,
    InsufficientFee,
    DatasetInactive,
    ValidatorAlreadyExists,
    InvalidParameters,
}

/// The directory itself.
pub struct DatasetRegistry {
    datasets: HashMap<u64, Dataset>,
    next_dataset_id: u64,
    owner: AccountId,
    registration_fee: Balance,
}

/// The directory as a mathematical value.
pub struct DatasetRegistryView {
    /// Every dataset registered so far, by id.
    pub datasets: Map<u64, DatasetView>,
    /// The id the next registration will receive.
    pub next_dataset_id: u64,
    /// The administrator.
    pub owner: AccountId,
    /// What a registration must pay.
    pub registration_fee: Balance,
}

impl DatasetRegistryView {
    /// Ids are handed out from 1 upwards without gaps, and every record is
    /// stored under its own id.
    pub open spec fn wf(self) -> bool {
        &&& self.next_dataset_id >= 1
        &&& forall|id: u64| #[trigger]
            self.datasets.contains_key(id) <==> 1 <= id < self.next_dataset_id
        &&& forall|id: u64| #[trigger]
            self.datasets.contains_key(id) ==> self.datasets[id].wf(id)
    }

    /// The ids below `upto` whose dataset belongs to `owner`, in ascending
    /// order.
    pub open spec fn owned_below(self, owner: AccountId, upto: nat) -> Seq<u64>
        decreases upto,
    {
        if upto <= 1 {
            Seq::empty()
        } else {
            let id = (upto - 1) as u64;
            let rest = self.owned_below(owner, (upto - 1) as nat);
            if self.datasets.contains_key(id) && self.datasets[id].owner == owner {
                rest.push(id)
            } else {
                rest
            }
        }
    }

    /// Every id whose dataset belongs to `owner`, in order of registration.
    pub open spec fn owned_by(self, owner: AccountId) -> Seq<u64> {
        self.owned_below(owner, self.next_dataset_id as nat)
    }

    /// Why a registration paying `value` for a dataset called `name` at
    /// `price_per_query` is refused, if it is.
    pub open spec fn registration_refusal(
        self,
        name: Seq<char>,
        price_per_query: Balance,
        value: Balance,
    ) -> Option<Error> {
        if value < self.registration_fee {
            Some(Error::InsufficientFee)
        } else if name.len() == 0 || price_per_query == 0 {
            Some(Error::InvalidParameters)
        } else {
            None
        }
    }

    /// Why `caller` may not change the dataset `dataset_id`, if so.
    pub open spec fn owner_refusal(self, dataset_id: u64, caller: AccountId) -> Option<Error> {
        if !self.datasets.contains_key(dataset_id) {
            Some(Error::DatasetNotFound)
        } else if self.datasets[dataset_id].owner != caller {
            Some(Error::NotOwner)
        } else {
            None
        }
    }

    /// Why `caller` may not add `validator` to the dataset `dataset_id`, if
    /// so.
    pub open spec fn validator_refusal(
        self,
        dataset_id: u64,
        validator: AccountId,
        caller: AccountId,
    ) -> Option<Error> {
        if self.owner_refusal(dataset_id, caller) is Some {
            self.owner_refusal(dataset_id, caller)
        } else if self.datasets[dataset_id].validator_nodes.contains(validator) {
            Some(Error::ValidatorAlreadyExists)
        } else {
            None
        }
    }

    /// The directory with the record under `dataset_id` replaced.
    pub open spec fn with_dataset(self, dataset_id: u64, dataset: DatasetView) -> Self {
        DatasetRegistryView { datasets: self.datasets.insert(dataset_id, dataset), ..self }
    }

    /// What a query on `dataset_id` costs: the price of an active dataset.
    pub open spec fn query_price(self, dataset_id: u64) -> Result<Balance, Error> {
        if !self.datasets.contains_key(dataset_id) {
            Err(Error::DatasetNotFound)
        } else if !self.datasets[dataset_id].is_active {
            Err(Error::DatasetInactive)
        } else {
            Ok(self.datasets[dataset_id].price_per_query)
        }
    }
}

impl View for DatasetRegistry {
    type V = DatasetRegistryView;

    closed spec fn view(&self) -> DatasetRegistryView {
        DatasetRegistryView {
            datasets: Map::new(
                |id: u64| self.datasets@.contains_key(id),
                |id: u64| self.datasets@[id]@,
            ),
            next_dataset_id: self.next_dataset_id,
            owner: self.owner,
            registration_fee: self.registration_fee,
        }
    }
}

impl DatasetRegistry {
    /// An empty directory administered by `owner`.
    pub fn new(registration_fee: Balance, owner: AccountId) -> (registry: DatasetRegistry)
        ensures
            registry@.wf(),
            registry@ == (DatasetRegistryView {
                datasets: Map::empty(),
                next_dataset_id: 1,
                owner,
                registration_fee,
            }),
    {
        let registry = DatasetRegistry {
            datasets: HashMap::new(),
            next_dataset_id: 1,
            owner,
            registration_fee,
        };
        assert(registry@.datasets =~= Map::empty());
        registry
    }

    /// The dataset stored under `dataset_id`, if any.
    pub fn get_dataset(&self, dataset_id: u64) -> (found: Option<Dataset>)
        ensures
            match found {
                Some(dataset) => self@.datasets.contains_key(dataset_id) && dataset@
                    == self@.datasets[dataset_id],
                None => !self@.datasets.contains_key(dataset_id),
            },
    {
        match self.datasets.get(&dataset_id) {
            Some(dataset) => Some(dataset.clone()),
            None => None,
        }
    }

    /// What a registration must pay.
    pub fn get_registration_fee(&self) -> (fee: Balance)
        ensures
            fee == self@.registration_fee,
    {
        self.registration_fee
    }
}

impl DatasetRegistry {
    /// Registers a dataset owned by `caller`, who paid `value` with the
    /// call, and gives it the next id.
    pub fn register_dataset(
        &mut self,
        name: String,
        description: String,
        embedding_root: Digest,
        metadata_hash: Digest,
        price_per_query: Balance,
        caller: AccountId,
        value: Balance,
        now: Timestamp,
    ) -> (result: Result<DatasetRegistered, Error>)
        requires
            old(self)@.wf(),
            old(self)@.next_dataset_id < u64::MAX,
        ensures
            final(self)@.wf(),
            match result {
                Ok(event) => {
                    let id = old(self)@.next_dataset_id;
                    &&& old(self)@.registration_refusal(name@, price_per_query, value) is None
                    &&& event.dataset_id == id
                    &&& event.owner == caller
                    &&& event.name@ == name@
                    &&& event.price_per_query == price_per_query
                    &&& final(self)@ == (DatasetRegistryView {
                        next_dataset_id: (id + 1) as u64,
                        ..old(self)@.with_dataset(
                            id,
                            DatasetView {
                                id,
                                owner: caller,
                                name: name@,
                                description: description@,
                                embedding_root,
                                metadata_hash,
                                price_per_query,
                                is_active: true,
                                created_at: now,
                                total_queries: 0,
                                validator_nodes: Seq::empty(),
                            },
                        )
                    })
                },
                Err(error) => {
                    &&& old(self)@.registration_refusal(name@, price_per_query, value) == Some(
                        error,
                    )
                    &&& final(self)@ == old(self)@
                },
            },
    {
        if value < self.registration_fee {
            return Err(Error::InsufficientFee);
        }
        if name.as_str().is_empty() || price_per_query == 0 {
            return Err(Error::InvalidParameters);
        }
        let dataset_id = self.next_dataset_id;
        let dataset = Dataset {
            id: dataset_id,
            owner: caller,
            name: name.clone(),
            description,
            embedding_root,
            metadata_hash,
            price_per_query,
            is_active: true,
            created_at: now,
            total_queries: 0,
            validator_nodes: Vec::new(),
        };
        let ghost stored = dataset@;
        self.datasets.insert(dataset_id, dataset);
        self.next_dataset_id = dataset_id + 1;
        proof {
            assert(self@.datasets =~= old(self)@.datasets.insert(dataset_id, stored));
        }
        Ok(DatasetRegistered { dataset_id, owner: caller, name, price_per_query })
    }

    /// Changes the price, the availability, or both, of a dataset that
    /// `caller` owns.
    pub fn update_dataset(
        &mut self,
        dataset_id: u64,
        price_per_query: Option<Balance>,
        is_active: Option<bool>,
        caller: AccountId,
    ) -> (result: Result<DatasetUpdated, Error>)
        requires
            old(self)@.wf(),
        ensures
            final(self)@.wf(),
            match result {
                Ok(event) => {
                    let before = old(self)@.datasets[dataset_id];
                    let price = match price_per_query {
                        Some(price) => price,
                        None => before.price_per_query,
                    };
                    let active = match is_active {
                        Some(active) => active,
                        None => before.is_active,
                    };
                    &&& old(self)@.owner_refusal(dataset_id, caller) is None
                    &&& event == (DatasetUpdated {
                        dataset_id,
                        price_per_query: price,
                        is_active: active,
                    })
                    &&& final(self)@ == old(self)@.with_dataset(
                        dataset_id,
                        DatasetView { price_per_query: price, is_active: active, ..before },
                    )
                },
                Err(error) => {
                    &&& old(self)@.owner_refusal(dataset_id, caller) == Some(error)
                    &&& final(self)@ == old(self)@
                },
            },
    {
        match self.datasets.get(&dataset_id) {
            None => {
                return Err(Error::DatasetNotFound);
            },
            Some(dataset) => {
                if dataset.owner != caller {
                    return Err(Error::NotOwner);
                }
            },
        }
        let mut dataset = self.datasets.remove(&dataset_id).unwrap();
        if let Some(price) = price_per_query {
            dataset.price_per_query = price;
        }
        if let Some(active) = is_active {
            dataset.is_active = active;
        }
        let event = DatasetUpdated {
            dataset_id,
            price_per_query: dataset.price_per_query,
            is_active: dataset.is_active,
        };
        let ghost stored = dataset@;
        self.datasets.insert(dataset_id, dataset);
        proof {
            assert(self@.datasets =~= old(self)@.datasets.insert(dataset_id, stored));
        }
        Ok(event)
    }

    /// Adds `validator` to the validator nodes of a dataset that `caller`
    /// owns.
    pub fn add_validator(&mut self, dataset_id: u64, validator: AccountId, caller: AccountId) -> (result:
        Result<ValidatorAdded, Error>)
        requires
            old(self)@.wf(),
        ensures
            final(self)@.wf(),
            match result {
                Ok(event) => {
                    let before = old(self)@.datasets[dataset_id];
                    &&& old(self)@.validator_refusal(dataset_id, validator, caller) is None
                    &&& event == (ValidatorAdded { dataset_id, validator })
                    &&& final(self)@ == old(self)@.with_dataset(
                        dataset_id,
                        DatasetView {
                            validator_nodes: before.validator_nodes.push(validator),
                            ..before
                        },
                    )
                },
                Err(error) => {
                    &&& old(self)@.validator_refusal(dataset_id, validator, caller) == Some(error)
                    &&& final(self)@ == old(self)@
                },
            },
    {
        match self.datasets.get(&dataset_id) {
            None => {
                return Err(Error::DatasetNotFound);
            },
            Some(dataset) => {
                if dataset.owner != caller {
                    return Err(Error::NotOwner);
                }
                if contains_account(&dataset.validator_nodes, validator) {
                    return Err(Error::ValidatorAlreadyExists);
                }
            },
        }
        let mut dataset = self.datasets.remove(&dataset_id).unwrap();
        dataset.validator_nodes.push(validator);
        let ghost stored = dataset@;
        self.datasets.insert(dataset_id, dataset);
        proof {
            assert(self@.datasets =~= old(self)@.datasets.insert(dataset_id, stored));
        }
        Ok(ValidatorAdded { dataset_id, validator })
    }
}

impl DatasetRegistry {
    /// The ids of the datasets that `owner` registered, oldest first.
    pub fn get_datasets_by_owner(&self, owner: AccountId) -> (ids: Vec<u64>)
        requires
            self@.wf(),
        ensures
            ids@ == self@.owned_by(owner),
    {
        let mut ids: Vec<u64> = Vec::new();
        let mut id: u64 = 1;
        while id < self.next_dataset_id
            invariant
                1 <= id <= self.next_dataset_id,
                ids@ == self@.owned_below(owner, id as nat),
            decreases self.next_dataset_id - id,
        {
            match self.datasets.get(&id) {
                Some(dataset) => {
                    if dataset.owner == owner {
                        ids.push(id);
                    }
                },
                None => {},
            }
            id += 1;
        }
        ids
    }

    /// Counts one more query against a dataset.
    pub fn increment_query_count(&mut self, dataset_id: u64) -> (result: Result<(), Error>)
        requires
            old(self)@.wf(),
            old(self)@.datasets.contains_key(dataset_id) ==> old(self)@.datasets[dataset_id].total_queries
                < u64::MAX,
        ensures
            final(self)@.wf(),
            match result {
                Ok(()) => {
                    let before = old(self)@.datasets[dataset_id];
                    &&& old(self)@.datasets.contains_key(dataset_id)
                    &&& final(self)@ == old(self)@.with_dataset(
                        dataset_id,
                        DatasetView { total_queries: (before.total_queries + 1) as u64, ..before },
                    )
                },
                Err(error) => {
                    &&& error == Error::DatasetNotFound
                    &&& !old(self)@.datasets.contains_key(dataset_id)
                    &&& final(self)@ == old(self)@
                },
            },
    {
        if !self.datasets.contains_key(&dataset_id) {
            return Err(Error::DatasetNotFound);
        }
        let mut dataset = self.datasets.remove(&dataset_id).unwrap();
        dataset.total_queries = dataset.total_queries + 1;
        let ghost stored = dataset@;
        self.datasets.insert(dataset_id, dataset);
        proof {
            assert(self@.datasets =~= old(self)@.datasets.insert(dataset_id, stored));
        }
        Ok(())
    }

    /// What a query on `dataset_id` costs, provided the dataset is active.
    pub fn get_query_price(&self, dataset_id: u64) -> (result: Result<Balance, Error>)
        ensures
            result == self@.query_price(dataset_id),
    {
        match self.datasets.get(&dataset_id) {
            None => Err(Error::DatasetNotFound),
            Some(dataset) => {
                if !dataset.is_active {
                    Err(Error::DatasetInactive)
                } else {
                    Ok(dataset.price_per_query)
                }
            },
        }
    }

    /// Who owns the dataset `dataset_id`.
    pub fn get_owner(&self, dataset_id: u64) -> (result: Result<AccountId, Error>)
        ensures
            result == (if self@.datasets.contains_key(dataset_id) {
                Ok(self@.datasets[dataset_id].owner)
            } else {
                Err(Error::DatasetNotFound)
            }),
    {
        match self.datasets.get(&dataset_id) {
            None => Err(Error::DatasetNotFound),
            Some(dataset) => Ok(dataset.owner),
        }
    }

    /// Whether `dataset_id` names a dataset that currently accepts queries.
    pub fn is_active(&self, dataset_id: u64) -> (active: bool)
        ensures
            active == (self@.datasets.contains_key(dataset_id)
                && self@.datasets[dataset_id].is_active),
    {
        match self.datasets.get(&dataset_id) {
            None => false,
            Some(dataset) => dataset.is_active,
        }
    }

    /// The validator nodes of a dataset, in the order they were added.
    pub fn get_validators(&self, dataset_id: u64) -> (result: Result<Vec<AccountId>, Error>)
        ensures
            match result {
                Ok(validators) => self@.datasets.contains_key(dataset_id) && validators@
                    == self@.datasets[dataset_id].validator_nodes,
                Err(error) => error == Error::DatasetNotFound && !self@.datasets.contains_key(
                    dataset_id,
                ),
            },
    {
        match self.datasets.get(&dataset_id) {
            None => Err(Error::DatasetNotFound),
            Some(dataset) => Ok(copy_accounts(&dataset.validator_nodes)),
        }
    }

    /// Sets what a registration must pay. Only the administrator may.
    pub fn set_registration_fee(&mut self, fee: Balance, caller: AccountId) -> (result: Result<
        (),
        Error,
    >)
        ensures
            match result {
                Ok(()) => caller == old(self)@.owner && final(self)@ == (DatasetRegistryView {
                    registration_fee: fee,
                    ..old(self)@
                }),
                Err(error) => error == Error::NotAuthorized && caller != old(self)@.owner
                    && final(self)@ == old(self)@,
            },
    {
        if caller != self.owner {
            return Err(Error::NotAuthorized);
        }
        self.registration_fee = fee;
        Ok(())
    }
}

impl DatasetRegistry {
    /// The id the next dataset will receive.
    pub fn next_dataset_id(&self) -> (id: u64)
        ensures
            id == self@.next_dataset_id,
    {
        self.next_dataset_id
    }

    /// The administrator.
    pub fn owner(&self) -> (owner: AccountId)
        ensures
            owner == self@.owner,
    {
        self.owner
    }
}

} // verus!
