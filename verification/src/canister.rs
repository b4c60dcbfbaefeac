//! The oracle itself: its state and the operations that callers reach.
//!
//! An operation that needs an answer from outside comes in two halves. The
//! first half checks the caller and the state and says what to ask for; the
//! second half, named `finish_..`, takes the answer and changes the state.
use vstd::prelude::*;
use crate::did::{H160, H256, Transaction, U256};
use crate::error::{Error, Result};
use crate::principal::{anonymous_id, Principal};
use crate::state::config::{Config, ConfigData, Settings};
use crate::state::contract::{
    confirm_request,
    confirmed_result,
    deployed_result,
    init_request,
    next_state,
    relayed_result,
    AggregatorContract,
    ContractEvent,
    ContractRequest,
    ContractState,
    Reply,
    LENGTH_MISMATCH,
};
use crate::state::pair_price::{
    after_add,
    after_insert,
    after_remove,
    is_snapshot,
    key_names,
    newest_first,
    restored,
    within_capacity,
    PairKey,
    PairPrice,
    DEFAULT_CAPACITY,
};
use crate::state::self_account::{
    account_after,
    register_request,
    registered_result,
    same_account,
    Account,
    SelfAccount,
};
use crate::timer::{
    after_batch,
    all_known,
    fetch_failure,
    sync_coinbase_price,
    sync_coingecko_price,
    Fetched,
    HttpResponse,
    PriceRequest,
    TransformArgs,
};

verus! {

/// What the oracle is set up with.
#[derive(Debug, Clone, Copy, PartialEq, Eq)]
pub struct InitData {
    /// The identity of the owner.
    pub owner: Principal,
    /// The identity of the EVM canister that the oracle relays to.
    pub evmc_principal: Principal,
}

/// Selects the external price source of a price update.
#[derive(Debug, Clone, Copy, PartialEq, Eq, Structural)]
pub enum ApiType {
    /// The single-pair source.
    Coinbase,
    /// The multi-pair source.
    Coingecko,
}

/// The four records of the oracle.
pub struct State {
    pub config: Config,
    pub pair_price: PairPrice,
    pub self_account: SelfAccount,
    pub contract: AggregatorContract,
}

/// Everything that the oracle holds, as plain values for saving.
#[derive(Debug, Clone, PartialEq, Eq)]
pub struct Snapshot {
    /// The settings.
    pub settings: Settings,
    /// The number of points that a series keeps.
    pub capacity: usize,
    /// Every pair with its points, oldest first.
    pub series: Vec<(PairKey, Vec<(u64, u64)>)>,
    /// The oracle's own account, if registered.
    pub account: Option<Account>,
    /// Where the aggregator contract stands.
    pub contract: ContractState,
}

/// The text of the error for a stored pair without any price.
pub const NO_LATEST_PRICE: &'static str = "latest price for this pair doesn't exist.";

/// The text of the error for a single-pair update without a pair.
pub const NO_PAIR_GIVEN: &'static str = "a price update needs at least one pair";

/// Whether a caller may change the oracle: the owner may, and while the
/// owner is still anonymous everybody may.
pub open spec fn is_authorized(owner: Seq<u8>, caller: Seq<u8>) -> bool {
    owner == caller || owner == anonymous_id()
}

/// The names that a list of strings holds, in the list's order.
pub open spec fn string_names(names: Seq<String>) -> Seq<Seq<char>> {
    Seq::new(names.len(), |i: int| names[i]@)
}

/// Whether the store knows every name of a list.
pub open spec fn names_known(series: Map<Seq<char>, Seq<(u64, u64)>>, names: Seq<String>) -> bool {
    forall|i: int| 0 <= i < names.len() ==> series.contains_key(#[trigger] names[i]@)
}

/// The anonymous caller is let in exactly while the owner is anonymous; once
/// the owner is somebody, only the owner is let in.
pub proof fn lemma_owner_gate(owner: Seq<u8>, caller: Seq<u8>)
    ensures
        is_authorized(owner, anonymous_id()) <==> owner == anonymous_id(),
        owner != anonymous_id() ==> (is_authorized(owner, caller) <==> caller == owner),
        owner == anonymous_id() ==> is_authorized(owner, caller),
{
}

/// The oracle.
pub struct OracleCanister {
    id: Principal,
    state: State,
}

impl OracleCanister {
    /// The identity of the oracle.
    pub closed spec fn spec_id(&self) -> Principal {
        self.id
    }

    /// The records of the oracle.
    pub closed spec fn state(&self) -> State {
        self.state
    }

    /// The stored settings.
    pub open spec fn config(&self) -> ConfigData {
        self.state().config@
    }

    /// The stored series.
    pub open spec fn prices(&self) -> Map<Seq<char>, Seq<(u64, u64)>> {
        self.state().pair_price@
    }

    /// The number of points that a series keeps.
    pub open spec fn capacity(&self) -> nat {
        self.state().pair_price.spec_capacity()
    }

    /// The stored account, if any.
    pub open spec fn account(&self) -> Option<Account> {
        self.state().self_account@
    }

    /// Where the aggregator contract stands.
    pub open spec fn contract(&self) -> ContractState {
        self.state().contract@
    }

    /// Whether a caller may change the oracle.
    pub open spec fn authorizes(&self, caller: Principal) -> bool {
        is_authorized(self.config().owner@, caller@)
    }

    /// Whether two oracles differ in nothing but their settings.
    pub open spec fn same_but_config(&self, other: &OracleCanister) -> bool {
        &&& self.spec_id() == other.spec_id()
        &&& self.state().pair_price == other.state().pair_price
        &&& self.state().self_account == other.state().self_account
        &&& self.state().contract == other.state().contract
    }

    /// Whether two oracles differ in nothing but their price series.
    pub open spec fn same_but_prices(&self, other: &OracleCanister) -> bool {
        &&& self.spec_id() == other.spec_id()
        &&& self.state().config == other.state().config
        &&& self.state().self_account == other.state().self_account
        &&& self.state().contract == other.state().contract
        &&& self.capacity() == other.capacity()
    }

    /// Whether two oracles differ in nothing but their own account.
    pub open spec fn same_but_account(&self, other: &OracleCanister) -> bool {
        &&& self.spec_id() == other.spec_id()
        &&& self.state().config == other.state().config
        &&& self.state().pair_price == other.state().pair_price
        &&& self.state().contract == other.state().contract
    }

    /// Whether two oracles differ in nothing but the state of the contract.
    pub open spec fn same_but_contract(&self, other: &OracleCanister) -> bool {
        &&& self.spec_id() == other.spec_id()
        &&& self.state().config == other.state().config
        &&& self.state().pair_price == other.state().pair_price
        &&& self.state().self_account == other.state().self_account
    }

    /// An oracle without owner, pairs, account or contract, whose series keep
    /// `capacity` points each.
    pub fn with_capacity(id: Principal, capacity: usize) -> (r: OracleCanister)
        ensures
            r.spec_id() == id,
            r.config().owner@ == anonymous_id(),
            r.config().evmc@ == anonymous_id(),
            r.prices() == Map::<Seq<char>, Seq<(u64, u64)>>::empty(),
            r.capacity() == capacity,
            r.account() is None,
            r.contract() == ContractState::Uninitialized,
    {
        OracleCanister {
            id,
            state: State {
                config: Config::default(),
                pair_price: PairPrice::new(capacity),
                self_account: SelfAccount::new(),
                contract: AggregatorContract::new(),
            },
        }
    }

    /// An oracle without owner, pairs, account or contract.
    pub fn new(id: Principal) -> (r: OracleCanister)
        ensures
            r.spec_id() == id,
            r.config().owner@ == anonymous_id(),
            r.config().evmc@ == anonymous_id(),
            r.prices() == Map::<Seq<char>, Seq<(u64, u64)>>::empty(),
            r.capacity() == DEFAULT_CAPACITY,
            r.account() is None,
            r.contract() == ContractState::Uninitialized,
    {
        Self::with_capacity(id, DEFAULT_CAPACITY)
    }

    /// Everything that the oracle holds, for saving.
    pub fn snapshot(&self) -> (r: Snapshot)
        ensures
            r.settings == (Settings { owner: self.config().owner, evmc: self.config().evmc }),
            r.capacity == self.capacity(),
            is_snapshot(r.series@, self.prices()),
            within_capacity(self.prices(), self.capacity()),
            same_account(r.account, self.account()),
            r.contract == self.contract(),
    {
        Snapshot {
            settings: Settings {
                owner: self.state.config.get_owner(),
                evmc: self.state.config.get_evm_canister_id(),
            },
            capacity: self.state.pair_price.capacity(),
            series: self.state.pair_price.snapshot(),
            account: self.state.self_account.account(),
            contract: self.state.contract.state(),
        }
    }

    /// The oracle as it was saved.
    pub fn restore(id: Principal, saved: Snapshot) -> (r: OracleCanister)
        ensures
            r.spec_id() == id,
            r.config() == (ConfigData { owner: saved.settings.owner, evmc: saved.settings.evmc }),
            r.capacity() == saved.capacity,
            r.prices() == restored(saved.series@, saved.capacity as nat),
            r.account() == saved.account,
            r.contract() == saved.contract,
    {
        let mut config = Config::default();
        config.reset(saved.settings);
        OracleCanister {
            id,
            state: State {
                config,
                pair_price: PairPrice::restore(saved.capacity, &saved.series),
                self_account: SelfAccount::from_account(saved.account),
                contract: AggregatorContract::from_state(saved.contract),
            },
        }
    }

    /// The identity of the oracle.
    pub fn id(&self) -> (r: Principal)
        ensures
            r == self.spec_id(),
    {
        self.id
    }

    /// Installs the settings that the oracle starts with.
    pub fn init(&mut self, init_data: InitData)
        ensures
            final(self).config() == (ConfigData {
                owner: init_data.owner,
                evmc: init_data.evmc_principal,
            }),
            final(self).same_but_config(old(self)),
    {
        let settings = Settings { owner: init_data.owner, evmc: init_data.evmc_principal };
        self.state.config.reset(settings);
    }

    /// Lets the owner in, and everybody while the owner is anonymous.
    pub fn check_owner(&self, principal: Principal) -> (r: Result<()>)
        ensures
            r == if self.authorizes(principal) {
                Ok(())
            } else {
                Err::<(), Error>(Error::NotAuthorized)
            },
    {
        let owner = self.state.config.get_owner();
        if owner.same_as(&principal) || owner.is_anonymous() {
            return Ok(());
        }
        Err(Error::NotAuthorized)
    }

    /// The identity of the owner.
    pub fn get_owner(&self) -> (r: Principal)
        ensures
            r == self.config().owner,
    {
        self.state.config.get_owner()
    }

    /// Installs a new owner, for the owner.
    pub fn set_owner(&mut self, caller: Principal, owner: Principal) -> (r: Result<()>)
        ensures
            final(self).same_but_config(old(self)),
            old(self).authorizes(caller) ==> r == Ok::<(), Error>(())
                && final(self).config() == (ConfigData { owner, evmc: old(self).config().evmc }),
            !old(self).authorizes(caller) ==> r == Err::<(), Error>(Error::NotAuthorized)
                && final(self).config() == old(self).config(),
    {
        self.check_owner(caller)?;
        self.state.config.set_owner(owner);
        Ok(())
    }

    /// The identity of the EVM canister.
    pub fn get_evmc_principal(&self) -> (r: Principal)
        ensures
            r == self.config().evmc,
    {
        self.state.config.get_evm_canister_id()
    }

    /// Installs a new EVM canister, for the owner.
    pub fn set_evmc_principal(&mut self, caller: Principal, evmc: Principal) -> (r: Result<()>)
        ensures
            final(self).same_but_config(old(self)),
            old(self).authorizes(caller) ==> r == Ok::<(), Error>(())
                && final(self).config() == (ConfigData { owner: old(self).config().owner, evmc }),
            !old(self).authorizes(caller) ==> r == Err::<(), Error>(Error::NotAuthorized)
                && final(self).config() == old(self).config(),
    {
        self.check_owner(caller)?;
        self.state.config.set_evmc(evmc);
        Ok(())
    }

    /// The names of all pairs, each once.
    pub fn get_pairs(&self) -> (r: Vec<String>)
        ensures
            string_names(r@).no_duplicates(),
            string_names(r@).to_set() == self.prices().dom(),
    {
        let keys = self.state.pair_price.get_pairs();
        let mut out: Vec<String> = Vec::new();
        let mut i: usize = 0;
        while i < keys.len()
            invariant
                i <= keys.len(),
                out@.len() == i,
                forall|j: int| 0 <= j < i ==> out@[j]@ == keys@[j]@,
            decreases keys.len() - i,
        {
            out.push(keys[i].0.clone());
            i += 1;
        }
        assert(string_names(out@) =~= key_names(keys@));
        out
    }

    /// The newest point of a pair.
    pub fn get_latest_price(&self, pair: String) -> (r: Result<(u64, u64)>)
        ensures
            !self.prices().contains_key(pair@) ==> r == Err::<(u64, u64), Error>(
                Error::PairNotExist,
            ),
            self.prices().contains_key(pair@) && self.prices()[pair@].len() > 0 ==> r == Ok::<
                (u64, u64),
                Error,
            >(self.prices()[pair@].last()),
            self.prices().contains_key(pair@) && self.prices()[pair@].len() == 0 ==> (r matches Err(
                Error::Internal(text),
            ) && text@ == NO_LATEST_PRICE@),
    {
        let pair_key = PairKey(pair);
        if !self.state.pair_price.is_exist(&pair_key) {
            return Err(Error::PairNotExist);
        }
        match self.state.pair_price.get_latest_price(&pair_key) {
            Some(point) => Ok(point),
            None => Err(Error::Internal(NO_LATEST_PRICE.to_string())),
        }
    }

    /// Up to `n` of the newest points of a pair, newest first; nothing for a
    /// pair that is not known.
    pub fn get_prices(&self, pair: String, n: usize) -> (r: Vec<(u64, u64)>)
        ensures
            r@ == if self.prices().contains_key(pair@) {
                newest_first(self.prices()[pair@], n as nat)
            } else {
                Seq::empty()
            },
            r@.len() <= n,
            r@.len() <= self.capacity(),
    {
        self.state.pair_price.get_prices(&PairKey(pair), n)
    }

    /// Adds a pair, for the owner.
    pub fn add_pair(&mut self, caller: Principal, pair: String) -> (r: Result<()>)
        ensures
            final(self).same_but_prices(old(self)),
            r == if !old(self).authorizes(caller) {
                Err::<(), Error>(Error::NotAuthorized)
            } else if old(self).prices().contains_key(pair@) {
                Err(Error::PairExists)
            } else {
                Ok(())
            },
            final(self).prices() == if old(self).authorizes(caller) {
                after_add(old(self).prices(), pair@)
            } else {
                old(self).prices()
            },
    {
        self.check_owner(caller)?;
        self.state.pair_price.add_pair(PairKey(pair))
    }

    /// Removes a pair, for the owner.
    pub fn remove_pair(&mut self, caller: Principal, pair: String) -> (r: Result<()>)
        ensures
            final(self).same_but_prices(old(self)),
            r == if !old(self).authorizes(caller) {
                Err::<(), Error>(Error::NotAuthorized)
            } else if old(self).prices().contains_key(pair@) {
                Ok(())
            } else {
                Err(Error::PairNotFound)
            },
            final(self).prices() == if old(self).authorizes(caller) {
                after_remove(old(self).prices(), pair@)
            } else {
                old(self).prices()
            },
    {
        self.check_owner(caller)?;
        self.state.pair_price.del_pair(PairKey(pair))
    }

    /// Asks for a price update, for the owner: every pair must be known, and
    /// the single-pair source is asked for the first pair only.
    pub fn update_price(&self, caller: Principal, pairs: Vec<String>, api: ApiType) -> (r: Result<
        PriceRequest,
    >)
        ensures
            !self.authorizes(caller) ==> r == Err::<PriceRequest, Error>(Error::NotAuthorized),
            self.authorizes(caller) && !names_known(self.prices(), pairs@) ==> r == Err::<
                PriceRequest,
                Error,
            >(Error::PairNotExist),
            self.authorizes(caller) && names_known(self.prices(), pairs@) ==> match api {
                ApiType::Coinbase => if pairs@.len() == 0 {
                    r matches Err(Error::InvalidArgument(text)) && text@ == NO_PAIR_GIVEN@
                } else {
                    r matches Ok(PriceRequest::Coinbase { pair }) && pair@ == pairs@[0]@
                },
                ApiType::Coingecko => r matches Ok(PriceRequest::Coingecko { pairs: keys })
                    && key_names(keys@) == string_names(pairs@),
            },
    {
        self.check_owner(caller)?;
        let mut pair_keys: Vec<PairKey> = Vec::new();
        let mut i: usize = 0;
        while i < pairs.len()
            invariant
                self.authorizes(caller),
                i <= pairs.len(),
                pair_keys@.len() == i,
                forall|j: int| 0 <= j < i ==> (#[trigger] pair_keys@[j])@ == pairs@[j]@,
                forall|j: int| 0 <= j < i ==> self.prices().contains_key(#[trigger] pairs@[j]@),
            decreases pairs.len() - i,
        {
            let pair_key = PairKey(pairs[i].clone());
            if !self.state.pair_price.is_exist(&pair_key) {
                assert(!self.prices().contains_key(pairs@[i as int]@));
                return Err(Error::PairNotExist);
            }
            pair_keys.push(pair_key);
            i += 1;
        }
        assert(key_names(pair_keys@) =~= string_names(pairs@));
        match api {
            ApiType::Coinbase => {
                if pair_keys.len() == 0 {
                    return Err(Error::InvalidArgument(NO_PAIR_GIVEN.to_string()));
                }
                Ok(PriceRequest::Coinbase { pair: PairKey(pair_keys[0].0.clone()) })
            },
            ApiType::Coingecko => Ok(PriceRequest::Coingecko { pairs: pair_keys }),
        }
    }

    /// Takes what the single-pair source gave for a pair. A price is stored
    /// at the time `now`; a failed or unreadable fetch is reported and
    /// changes nothing.
    pub fn finish_coinbase_update(&mut self, pair: &PairKey, now: u64, fetched: Fetched<u64>) -> (r:
        Result<()>)
        ensures
            final(self).same_but_prices(old(self)),
            match fetched {
                Err(e) => r == Err::<(), Error>(fetch_failure(e)) && final(self).prices() == old(self).prices(),
                Ok(price) => {
                    &&& final(self).prices() == after_insert(
                        old(self).prices(),
                        pair@,
                        (now, price),
                        old(self).capacity(),
                    )
                    &&& r == if old(self).prices().contains_key(pair@) {
                        Ok(())
                    } else {
                        Err::<(), Error>(Error::PairNotExist)
                    }
                },
            },
    {
        sync_coinbase_price(pair, now, fetched, &mut self.state.pair_price)
    }

    /// Takes what one call of the multi-pair source gave. Quoted prices are
    /// stored, all at the time `now`, and pairs that the answer does not
    /// quote are passed over. A failed or unreadable fetch is reported and
    /// changes nothing; if a pair is not known, nothing is stored either.
    pub fn finish_coingecko_update(
        &mut self,
        pairs: &Vec<PairKey>,
        now: u64,
        fetched: Fetched<Vec<(String, u64)>>,
    ) -> (r: Result<()>)
        ensures
            final(self).same_but_prices(old(self)),
            match fetched {
                Err(e) => r == Err::<(), Error>(fetch_failure(e)) && final(self).prices() == old(self).prices(),
                Ok(quotes) => if all_known(old(self).prices(), pairs@) {
                    r == Ok::<(), Error>(()) && final(self).prices() == after_batch(
                        old(self).prices(),
                        pairs@,
                        now,
                        quotes@,
                        old(self).capacity(),
                    )
                } else {
                    r == Err::<(), Error>(Error::PairNotExist) && final(self).prices() == old(self).prices()
                },
            },
    {
        sync_coingecko_price(pairs, now, fetched, &mut self.state.pair_price)
    }

    /// Asks to register the oracle's own account, for the owner: refused
    /// once an account is stored.
    pub fn register_self_in_evmc(&self, caller: Principal) -> (r: Result<()>)
        ensures
            r == if !self.authorizes(caller) {
                Err::<(), Error>(Error::NotAuthorized)
            } else {
                register_request(self.account())
            },
    {
        self.check_owner(caller)?;
        self.state.self_account.register_account()
    }

    /// Takes the answer to the registration of `transaction`: a good answer
    /// stores the signing key with the sender of the transaction, unless an
    /// account was stored in the meantime.
    pub fn finish_register_self_in_evmc(
        &mut self,
        transaction: &Transaction,
        signing_key: Vec<u8>,
        reply: Reply<()>,
    ) -> (r: Result<()>)
        ensures
            final(self).same_but_account(old(self)),
            final(self).account() == account_after(
                old(self).account(),
                transaction.from,
                signing_key,
                reply,
            ),
            r == registered_result(old(self).account(), reply),
    {
        self.state.self_account.finish_register_account(transaction, signing_key, reply)
    }

    /// The address of the oracle's own account.
    pub fn get_self_address_in_evmc(&self) -> (r: Result<H160>)
        ensures
            r == match self.account() {
                Some(stored) => Ok(stored.address),
                None => Err(Error::NotRegistered),
            },
    {
        self.state.self_account.get_account()
    }

    /// Asks to deploy the aggregator contract, for the owner.
    pub fn deploy_aggregator_contract(&self, caller: Principal) -> (r: Result<ContractRequest>)
        ensures
            r == if !self.authorizes(caller) {
                Err::<ContractRequest, Error>(Error::NotAuthorized)
            } else {
                init_request(self.contract())
            },
    {
        self.check_owner(caller)?;
        self.state.contract.init_contract()
    }

    /// Takes the answer to a deployment.
    pub fn finish_deploy_aggregator_contract(&mut self, reply: Reply<H256>) -> (r: Result<H256>)
        ensures
            final(self).same_but_contract(old(self)),
            final(self).contract() == next_state(
                old(self).contract(),
                ContractEvent::Deployed(reply),
            ),
            r == deployed_result(old(self).contract(), reply),
    {
        self.state.contract.finish_init_contract(reply)
    }

    /// Asks to confirm the address of the deployed contract, for the owner.
    pub fn confirm_aggregator_contract(&self, caller: Principal) -> (r: Result<ContractRequest>)
        ensures
            r == if !self.authorizes(caller) {
                Err::<ContractRequest, Error>(Error::NotAuthorized)
            } else {
                confirm_request(self.contract())
            },
    {
        self.check_owner(caller)?;
        self.state.contract.confirm_contract_address()
    }

    /// Takes the answer to a query for the deployed address.
    pub fn finish_confirm_aggregator_contract(&mut self, reply: Reply<H160>) -> (r: Result<H160>)
        ensures
            final(self).same_but_contract(old(self)),
            final(self).contract() == next_state(
                old(self).contract(),
                ContractEvent::AddressFound(reply),
            ),
            r == confirmed_result(old(self).contract(), reply),
    {
        self.state.contract.finish_confirm_contract_address(reply)
    }

    /// The address of the aggregator contract, once confirmed.
    pub fn get_aggregator_contract_address(&self) -> (r: Result<H160>)
        ensures
            r == match self.contract() {
                ContractState::Confirmed { address } => Ok(address),
                _ => Err(Error::ContractNotDeployed),
            },
    {
        self.state.contract.get_contract()
    }

    /// Asks to register a pair in the aggregator contract, for the owner.
    pub fn add_pair_in_aggregator(
        &self,
        caller: Principal,
        pair: String,
        decimal: U256,
        description: String,
        version: U256,
    ) -> (r: Result<ContractRequest>)
        ensures
            r == if !self.authorizes(caller) {
                Err::<ContractRequest, Error>(Error::NotAuthorized)
            } else {
                match self.contract() {
                    ContractState::Confirmed { address } => Ok(
                        ContractRequest::AddPair {
                            contract: address,
                            pair,
                            decimal,
                            description,
                            version,
                        },
                    ),
                    _ => Err(Error::ContractNotDeployed),
                }
            },
    {
        self.check_owner(caller)?;
        self.state.contract.add_pair(pair, decimal, description, version)
    }

    /// Asks to push a batch of answers to the aggregator contract, for the
    /// owner.
    pub fn update_answers(
        &self,
        caller: Principal,
        pairs: Vec<String>,
        timestamps: Vec<U256>,
        prices: Vec<U256>,
    ) -> (r: Result<ContractRequest>)
        ensures
            !self.authorizes(caller) ==> r == Err::<ContractRequest, Error>(Error::NotAuthorized),
            self.authorizes(caller) ==> match self.contract() {
                ContractState::Confirmed { address } => if pairs@.len() == timestamps@.len()
                    && pairs@.len() == prices@.len() {
                    r == Ok::<ContractRequest, Error>(
                        ContractRequest::UpdateAnswers {
                            contract: address,
                            pairs,
                            timestamps,
                            prices,
                        },
                    )
                } else {
                    r matches Err(Error::InvalidArgument(text)) && text@ == LENGTH_MISMATCH@
                },
                _ => r == Err::<ContractRequest, Error>(Error::ContractNotDeployed),
            },
    {
        self.check_owner(caller)?;
        self.state.contract.update_answers(pairs, timestamps, prices)
    }

    /// Takes the answer to a call on the aggregator contract.
    pub fn finish_relay(&self, reply: Reply<H256>) -> (r: Result<H256>)
        ensures
            r == relayed_result(reply),
    {
        self.state.contract.finish_relay(reply)
    }

    /// Strips an external answer down to what replicas can agree on.
    pub fn transform(&self, raw: TransformArgs) -> (r: HttpResponse)
        ensures
            r.status == raw.response.status,
            r.body == raw.response.body,
            r.headers@.len() == 0,
    {
        crate::timer::transform(raw)
    }
}

} // verus!
