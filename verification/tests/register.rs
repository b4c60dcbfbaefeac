use oracle_canister::did::{H160, U256};
use oracle_canister::principal::Principal;
use oracle_canister::register::cli::{
    generate_wallet, get_wallet, network_url, wallet_summary, Registration, RegisterArgs,
    DEFAULT_CHAIN_ID,
};
use oracle_canister::register::error::Error;
use oracle_canister::register::registration::{
    Progress, RegistrationCall, RegistrationReply, RegistrationService, RegistrationStep,
};
use oracle_canister::register::transaction::{
    recovery_value, registration_request, sign_transaction, RegistrationInfo, TransactionRequest,
    REGISTRATION_GAS,
};
use oracle_canister::register::wallet::Wallet;

const KEY_46: &str = "4646464646464646464646464646464646464646464646464646464646464646";
const KEY_AC: &str = "ac0974bec39a17e36ba4a6b4d238ff944bacb478cbed5efcae784d7bf4f2ff80";

fn id(byte: u8) -> Principal {
    Principal::try_from_slice(&[byte, 1, 2, 3]).unwrap()
}

fn info() -> RegistrationInfo {
    RegistrationInfo { minter_address: H160([0x35; 20]), registration_fee: U256::from_u64(1000) }
}

fn service(amount_to_mint: Option<u64>) -> RegistrationService {
    RegistrationService::new(
        amount_to_mint,
        DEFAULT_CHAIN_ID,
        id(1),
        id(2),
        id(3),
        info(),
        get_wallet(KEY_46).unwrap(),
    )
}

#[test]
fn network_names_map_to_urls() {
    assert_eq!(network_url("local"), "http://localhost:8000");
    assert_eq!(network_url("ic"), "https://ic0.app");
    assert_eq!(network_url("http://example.org:1"), "http://example.org:1");
    assert_eq!(network_url("IC"), "IC");
    assert_eq!(network_url(""), "");
}

#[test]
fn wallet_address_follows_from_key() {
    let wallet = get_wallet(KEY_AC).unwrap();
    assert_eq!(wallet.address().to_hex_str(), "0xf39fd6e51aad88f6f4ce6ab8827279cfffb92266");
    assert_eq!(wallet.signer().len(), 32);
    assert_eq!(wallet.signer()[0], 0xac);
    let upper = get_wallet(&KEY_AC.to_uppercase()).unwrap();
    assert_eq!(upper.address(), wallet.address());
    let other = get_wallet(KEY_46).unwrap();
    assert_eq!(other.address().to_hex_str(), "0x9d8a62f656a8d1615c1294fd71e9cfb3e4855a4f");
}

#[test]
fn bad_keys_are_refused() {
    assert_eq!(get_wallet("zz"), Err(Error::InvalidHex));
    assert_eq!(get_wallet("abc"), Err(Error::InvalidHex));
    assert_eq!(get_wallet("0xab"), Err(Error::InvalidHex));
    assert_eq!(get_wallet(""), Err(Error::InvalidSigningKey));
    assert_eq!(get_wallet("abcd"), Err(Error::InvalidSigningKey));
    assert_eq!(get_wallet(&"00".repeat(32)), Err(Error::InvalidSigningKey));
    assert_eq!(get_wallet(&"ff".repeat(32)), Err(Error::InvalidSigningKey));
    assert_eq!(Wallet::from_bytes(&[1; 23]), Err(Error::InvalidSigningKey));
    assert_eq!(Wallet::from_bytes(&[1; 33]), Err(Error::InvalidSigningKey));
}

#[test]
fn short_keys_are_padded_in_front() {
    let short = Wallet::from_bytes(&[1; 31]).unwrap();
    let mut full = [1u8; 32];
    full[0] = 0;
    assert_eq!(short.signer(), full.to_vec());
    assert_eq!(short, Wallet::from_bytes(&full).unwrap());
}

#[test]
fn summary_is_hexadecimal() {
    let wallet = get_wallet(KEY_AC).unwrap();
    let summary = wallet_summary(&wallet);
    assert_eq!(summary.private_key, KEY_AC);
    assert_eq!(summary.address, "0xf39fd6e51aad88f6f4ce6ab8827279cfffb92266");
    assert_eq!(
        summary.public_key,
        "038318535b54105d4a7aae60c08fc45f9687181b4fdfc625bd1a753fa7397fed75"
    );
}

#[test]
fn generated_wallet_can_be_read_back() {
    let (wallet, summary) = generate_wallet().unwrap();
    let again = get_wallet(&summary.private_key).unwrap();
    assert_eq!(again, wallet);
    assert_eq!(summary.address, wallet.address().to_hex_str());
    assert_eq!(summary.private_key.len(), 64);
    assert_eq!(summary, wallet_summary(&wallet));
    assert_eq!(wallet.public_key().len(), 33);
    for _ in 0..20 {
        let (second, text) = generate_wallet().unwrap();
        assert_ne!(second.signer(), wallet.signer());
        assert_eq!(second.signer().len(), 32);
        assert_eq!(get_wallet(&text.private_key), Ok(second));
    }
}

#[test]
fn registration_request_pays_the_fee_to_the_minter() {
    let request = registration_request(&info(), H160([1; 20]), 7, U256::from_u64(4));
    assert_eq!(
        request,
        TransactionRequest {
            from: H160([1; 20]),
            to: H160([0x35; 20]),
            value: U256([1000, 0, 0, 0]),
            chain_id: 7,
            nonce: U256([4, 0, 0, 0]),
            gas_price: U256([0, 0, 0, 0]),
            gas: U256([53000, 0, 0, 0]),
        }
    );
    assert_eq!(REGISTRATION_GAS, 53000);
}

#[test]
fn signature_matches_the_chain_bound_example() {
    let wallet = get_wallet(KEY_46).unwrap();
    let request = TransactionRequest {
        from: wallet.address(),
        to: H160([0x35; 20]),
        value: U256([0x0de0_b6b3_a764_0000, 0, 0, 0]),
        chain_id: 1,
        nonce: U256::from_u64(9),
        gas_price: U256::from_u64(20_000_000_000),
        gas: U256::from_u64(21000),
    };
    let tx = sign_transaction(&request, &wallet).unwrap();
    assert_eq!(tx.v, 37);
    assert_eq!(
        tx.r,
        U256([0xe1590620aa636276, 0x03e1a15d3c71ff63, 0x2195fe5375678660, 0x28ef61340bd939bc])
    );
    assert_eq!(
        tx.s,
        U256([0x297fb1966a3b6d83, 0xf555c9f3dc64214b, 0xecb703304b3800cc, 0x67cbe9d8997f761a])
    );
    assert_eq!(tx.from, wallet.address());
    assert_eq!(tx.to, Some(H160([0x35; 20])));
    assert_eq!(tx.nonce, U256::from_u64(9));
    assert_eq!(tx.value, request.value);
    assert_eq!(tx.gas, U256::from_u64(21000));
    assert_eq!(tx.gas_price, Some(U256::from_u64(20_000_000_000)));
    assert_eq!(tx.input, Vec::<u8>::new());
    let raw = hex::decode(concat_raw()).unwrap();
    assert_eq!(tx.hash.0, ethers_core::utils::keccak256(raw));
}

fn concat_raw() -> String {
    let mut raw = String::from("f86c098504a817c800825208943535353535353535353535353535353535353535");
    raw.push_str("880de0b6b3a76400008025");
    raw.push_str("a028ef61340bd939bc2195fe537567866003e1a15d3c71ff63e1590620aa636276");
    raw.push_str("a067cbe9d8997f761aecb703304b3800ccf555c9f3dc64214b297fb1966a3b6d83");
    raw
}

#[test]
fn recovery_value_folds_the_chain_in() {
    assert_eq!(recovery_value(0, 1), Ok(37));
    assert_eq!(recovery_value(1, 1), Ok(38));
    assert_eq!(recovery_value(0, 0), Ok(35));
    assert_eq!(recovery_value(1, 355113), Ok(710262));
    assert_eq!(recovery_value(0, (u64::MAX - 35) / 2), Ok(u64::MAX));
    assert_eq!(recovery_value(1, (u64::MAX - 35) / 2), Err(Error::ChainIdTooLarge));
    assert_eq!(recovery_value(0, u64::MAX / 2 + 1), Err(Error::ChainIdTooLarge));
}

#[test]
fn huge_chain_id_is_refused() {
    let wallet = get_wallet(KEY_46).unwrap();
    let mut request = registration_request(&info(), wallet.address(), u64::MAX, U256::zero());
    assert_eq!(sign_transaction(&request, &wallet), Err(Error::ChainIdTooLarge));
    request.chain_id = (u64::MAX - 38) / 2;
    let tx = sign_transaction(&request, &wallet).unwrap();
    assert!(tx.v == u64::MAX - 3 || tx.v == u64::MAX - 4 || tx.v == u64::MAX - 2);
}

#[test]
fn registration_runs_through_its_steps() {
    let s = service(None);
    let address = s.wallet.address();
    let first = s.register();
    assert_eq!(
        first,
        Progress::Call {
            step: RegistrationStep::CheckingAddress,
            call: RegistrationCall::AddressRegistered { address, canister: id(2) },
        }
    );
    let second =
        s.advance(RegistrationStep::CheckingAddress, RegistrationReply::AddressRegistered(Some(false)));
    assert_eq!(
        second,
        Progress::Call {
            step: RegistrationStep::FetchingNonce,
            call: RegistrationCall::AccountBasic { address },
        }
    );
    let third =
        s.advance(RegistrationStep::FetchingNonce, RegistrationReply::AccountBasic(U256::from_u64(3)));
    let transaction = match third {
        Progress::Call {
            step: RegistrationStep::Registering,
            call: RegistrationCall::RegisterIcAgent { transaction, canister },
        } => {
            assert_eq!(canister, id(2));
            transaction
        }
        other => panic!("unexpected progress {:?}", other),
    };
    assert_eq!(transaction, s.registration_transaction(U256::from_u64(3)).unwrap());
    assert_eq!(transaction.from, address);
    assert_eq!(transaction.to, Some(H160([0x35; 20])));
    assert_eq!(transaction.value, U256::from_u64(1000));
    assert_eq!(transaction.gas, U256::from_u64(53000));
    assert_eq!(transaction.nonce, U256::from_u64(3));
    assert_eq!(transaction.gas_price, Some(U256::zero()));
    assert!(transaction.v == 2 * DEFAULT_CHAIN_ID + 35 || transaction.v == 2 * DEFAULT_CHAIN_ID + 36);
    let fourth = s.advance(RegistrationStep::Registering, RegistrationReply::AgentRegistered(Ok(())));
    assert_eq!(
        fourth,
        Progress::Call {
            step: RegistrationStep::Verifying,
            call: RegistrationCall::VerifyRegistration { signing_key: vec![0x46; 32], canister: id(2) },
        }
    );
    let last = s.advance(RegistrationStep::Verifying, RegistrationReply::Verified(Ok(())));
    assert_eq!(last, Progress::Done(Ok(())));
}

#[test]
fn registered_address_stops_the_registration() {
    let s = service(None);
    assert_eq!(
        s.advance(RegistrationStep::CheckingAddress, RegistrationReply::AddressRegistered(Some(true))),
        Progress::Done(Err(Error::AlreadyRegistered(id(3))))
    );
    assert_eq!(
        s.advance(RegistrationStep::CheckingAddress, RegistrationReply::AddressRegistered(None)),
        Progress::Done(Err(Error::CouldNotCheckRegistrationStatus(
            "0x9d8a62f656a8d1615c1294fd71e9cfb3e4855a4f".to_string(),
            id(3)
        )))
    );
    assert_eq!(s.is_address_registered(Some(false)), Ok(false));
}

#[test]
fn minting_comes_before_the_registration_call() {
    let s = service(Some(500));
    let address = s.wallet.address();
    let progress =
        s.advance(RegistrationStep::FetchingNonce, RegistrationReply::AccountBasic(U256::zero()));
    let transaction = match progress {
        Progress::Call {
            step: RegistrationStep::Minting { transaction },
            call: RegistrationCall::MintNativeTokens { address: to, amount },
        } => {
            assert_eq!(to, address);
            assert_eq!(amount, U256([500, 0, 0, 0]));
            transaction
        }
        other => panic!("unexpected progress {:?}", other),
    };
    let rejected = s.advance(
        RegistrationStep::Minting { transaction: transaction.clone() },
        RegistrationReply::Minted(Err("not a testnet".to_string())),
    );
    assert_eq!(rejected, Progress::Done(Err(Error::Evm("not a testnet".to_string()))));
    let next = s.advance(
        RegistrationStep::Minting { transaction: transaction.clone() },
        RegistrationReply::Minted(Ok(U256::from_u64(500))),
    );
    assert_eq!(
        next,
        Progress::Call {
            step: RegistrationStep::Registering,
            call: RegistrationCall::RegisterIcAgent { transaction, canister: id(2) },
        }
    );
}

#[test]
fn rejections_and_stray_answers_end_the_registration() {
    let s = service(None);
    assert_eq!(
        s.advance(RegistrationStep::Registering, RegistrationReply::AgentRegistered(Err("no".to_string()))),
        Progress::Done(Err(Error::Evm("no".to_string())))
    );
    assert_eq!(
        s.advance(RegistrationStep::Verifying, RegistrationReply::Verified(Err("bad".to_string()))),
        Progress::Done(Err(Error::Evm("bad".to_string())))
    );
    assert_eq!(
        s.advance(RegistrationStep::Verifying, RegistrationReply::AgentRegistered(Ok(()))),
        Progress::Done(Err(Error::UnexpectedReply))
    );
    assert_eq!(
        s.advance(RegistrationStep::CheckingAddress, RegistrationReply::AccountBasic(U256::zero())),
        Progress::Done(Err(Error::UnexpectedReply))
    );
}

#[test]
fn calls_name_their_methods() {
    let a = H160([1; 20]);
    let call = RegistrationCall::AddressRegistered { address: a, canister: id(1) };
    assert_eq!(call.method(), "is_address_registered");
    assert!(!call.is_update());
    let call = RegistrationCall::AccountBasic { address: a };
    assert_eq!(call.method(), "account_basic");
    assert!(!call.is_update());
    let call = RegistrationCall::MintNativeTokens { address: a, amount: U256::zero() };
    assert_eq!(call.method(), "mint_native_tokens");
    assert!(call.is_update());
    let call = RegistrationCall::VerifyRegistration { signing_key: vec![], canister: id(1) };
    assert_eq!(call.method(), "verify_registration");
    assert!(call.is_update());
}

#[test]
fn registration_info_answer_is_read() {
    assert_eq!(RegistrationService::get_registration_info(Ok(info())), Ok(info()));
    assert_eq!(
        RegistrationService::get_registration_info(Err("trailing bytes".to_string())),
        Err(Error::CouldNotGetRegistrationInfo("trailing bytes".to_string()))
    );
}

#[test]
fn exec_reads_key_and_network() {
    let mut args = RegisterArgs {
        amount_to_mint: None,
        chain_id: DEFAULT_CHAIN_ID,
        identity: "identity.pem".to_string(),
        evmc: id(1),
        network: "local".to_string(),
        register_canister_id: id(2),
        signing_key: KEY_46.to_string(),
    };
    let plan = args.exec().unwrap();
    assert_eq!(plan.network, "http://localhost:8000");
    assert_eq!(plan.wallet, get_wallet(KEY_46).unwrap());
    args.signing_key = "xyz".to_string();
    assert_eq!(args.exec(), Err(Error::InvalidHex));
    let address = H160([0xab; 20]);
    let text = "0xabababababababababababababababababababab".to_string();
    assert_eq!(
        args.finish_exec(address, Ok(())),
        Ok(Registration::Registered { wallet_address: text.clone(), principal: id(2) })
    );
    assert_eq!(
        args.finish_exec(address, Err(Error::AlreadyRegistered(id(3)))),
        Ok(Registration::AlreadyRegistered { wallet_address: text, principal: id(3) })
    );
    assert_eq!(
        args.finish_exec(address, Err(Error::Evm("x".to_string()))),
        Err(Error::Evm("x".to_string()))
    );
    assert_eq!(DEFAULT_CHAIN_ID, 355113);
}
