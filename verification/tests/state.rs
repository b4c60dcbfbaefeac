use oracle_canister::did::{Transaction, H160, H256, U256};
use oracle_canister::error::Error;
use oracle_canister::principal::Principal;
use oracle_canister::state::config::{Config, ConfigData, Settings};
use oracle_canister::state::contract::{AggregatorContract, ContractRequest, ContractState};
use oracle_canister::state::pair_price::{PairKey, PairPrice};
use oracle_canister::state::self_account::SelfAccount;
use oracle_canister::timer::{
    all_exist, failed_fetch, find_quote, sync_coinbase_price, sync_coingecko_price, transform,
    FetchError,
};
use oracle_canister::timer::{HttpResponse, TransformArgs};

fn id(byte: u8) -> Principal {
    Principal::try_from_slice(&[byte]).unwrap()
}

#[test]
fn config_starts_anonymous_and_resets_whole() {
    let mut config = Config::default();
    assert_eq!(config.get_owner(), Principal::anonymous());
    assert_eq!(config.get_evm_canister_id(), Principal::anonymous());
    assert_eq!(ConfigData::default().owner, Principal::anonymous());
    config.reset(Settings { owner: id(1), evmc: id(2) });
    assert_eq!(config.get_owner(), id(1));
    assert_eq!(config.get_evm_canister_id(), id(2));
    config.set_owner(id(3));
    assert_eq!((config.get_owner(), config.get_evm_canister_id()), (id(3), id(2)));
    config.set_evmc(id(5));
    assert_eq!((config.get_owner(), config.get_evm_canister_id()), (id(3), id(5)));
    config.reset(Settings { owner: id(7), evmc: id(8) });
    assert_eq!((config.get_owner(), config.get_evm_canister_id()), (id(7), id(8)));
}

#[test]
fn contract_record_follows_its_states() {
    let mut contract = AggregatorContract::new();
    assert_eq!(contract.state(), ContractState::Uninitialized);
    assert_eq!(contract.confirm_contract_address(), Err(Error::NotInitialized));
    assert_eq!(contract.init_contract(), Ok(ContractRequest::Deploy));
    assert_eq!(contract.finish_init_contract(Ok(H256([1; 32]))), Ok(H256([1; 32])));
    assert_eq!(contract.state(), ContractState::DeployPending { tx_hash: H256([1; 32]) });
    assert_eq!(contract.init_contract(), Err(Error::AlreadyInitialized));
    assert_eq!(contract.get_contract(), Err(Error::ContractNotDeployed));
    assert_eq!(contract.finish_confirm_contract_address(Ok(H160([2; 20]))), Ok(H160([2; 20])));
    assert_eq!(contract.state(), ContractState::Confirmed { address: H160([2; 20]) });
    assert_eq!(contract.get_contract(), Ok(H160([2; 20])));
    assert_eq!(
        contract.add_pair("p".to_string(), U256::zero(), "d".to_string(), U256::zero()),
        Ok(ContractRequest::AddPair {
            contract: H160([2; 20]),
            pair: "p".to_string(),
            decimal: U256::zero(),
            description: "d".to_string(),
            version: U256::zero(),
        })
    );
    assert_eq!(
        contract.update_answers(vec![], vec![], vec![]),
        Ok(ContractRequest::UpdateAnswers {
            contract: H160([2; 20]),
            pairs: vec![],
            timestamps: vec![],
            prices: vec![],
        })
    );
}

#[test]
fn account_record_is_written_once() {
    let tx = Transaction {
        hash: H256([0; 32]),
        nonce: U256::zero(),
        from: H160([9; 20]),
        to: None,
        value: U256::zero(),
        gas_price: None,
        gas: U256::zero(),
        input: vec![1],
        v: 0,
        r: U256::zero(),
        s: U256::zero(),
    };
    let mut account = SelfAccount::new();
    assert_eq!(account.get_account(), Err(Error::NotRegistered));
    assert_eq!(account.register_account(), Ok(()));
    assert_eq!(
        account.finish_register_account(&tx, vec![1], Err("e".to_string())),
        Err(Error::RemoteCallFailed("e".to_string()))
    );
    assert_eq!(account.get_account(), Err(Error::NotRegistered));
    assert_eq!(account.finish_register_account(&tx, vec![1], Ok(())), Ok(()));
    assert_eq!(account.get_account(), Ok(H160([9; 20])));
    assert_eq!(account.register_account(), Err(Error::AlreadyRegistered(H160([9; 20]))));
}

#[test]
fn quotes_are_found_by_exact_name() {
    let quotes = vec![("A".to_string(), 1u64), ("B".to_string(), 2), ("A".to_string(), 3)];
    assert_eq!(find_quote(&quotes, &PairKey("A".to_string())), Some(1));
    assert_eq!(find_quote(&quotes, &PairKey("B".to_string())), Some(2));
    assert_eq!(find_quote(&quotes, &PairKey("a".to_string())), None);
    assert_eq!(find_quote(&vec![], &PairKey("A".to_string())), None);
}

#[test]
fn sync_writes_into_the_store() {
    let mut store = PairPrice::new(2);
    store.add_pair(PairKey("A".to_string())).unwrap();
    store.add_pair(PairKey("B".to_string())).unwrap();
    let a = PairKey("A".to_string());
    let b = PairKey("B".to_string());
    assert!(all_exist(&vec![a.clone(), b.clone()], &store));
    assert!(!all_exist(&vec![a.clone(), PairKey("C".to_string())], &store));
    assert!(all_exist(&vec![], &store));
    assert_eq!(sync_coinbase_price(&a, 10, Ok(100), &mut store), Ok(()));
    assert_eq!(
        sync_coinbase_price(&PairKey("C".to_string()), 10, Ok(100), &mut store),
        Err(Error::PairNotExist)
    );
    assert_eq!(
        sync_coinbase_price(&a, 11, Err(FetchError::Malformed("x".to_string())), &mut store),
        Err(Error::InvalidArgument("x".to_string()))
    );
    assert_eq!(store.get_prices(&a, 5), vec![(10, 100)]);
    assert_eq!(
        failed_fetch(FetchError::Transport("t".to_string())),
        Error::RemoteCallFailed("t".to_string())
    );
    let quotes = vec![("A".to_string(), 7u64)];
    assert_eq!(
        sync_coingecko_price(&vec![a.clone(), b.clone(), a.clone()], 20, Ok(quotes), &mut store),
        Ok(())
    );
    assert_eq!(store.get_prices(&a, 5), vec![(20, 7), (20, 7)]);
    assert_eq!(store.get_prices(&b, 5), vec![]);
}

#[test]
fn transform_drops_every_header() {
    let out = transform(TransformArgs {
        response: HttpResponse { status: 404, headers: vec![], body: vec![] },
        context: vec![],
    });
    assert_eq!(out, HttpResponse { status: 404, headers: vec![], body: vec![] });
}
