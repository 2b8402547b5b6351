use cosmwasm_std::testing::MockStorage;
use cosmwasm_std::{Addr, Coin, IbcTimeout, Storage, Timestamp};
use sg_marketplace::state::SaleType;

use nft_bridge::contract::{
    count, execute, instantiate, query, receive_nft, Collaborators, MessageInfo, Response,
    UniversalNftInfoResponse, CONTRACT_NAME, CONTRACT_VERSION,
};
use nft_bridge::error::ContractError;
use nft_bridge::ledger::{Ledger, MAX_CLASS_ID_BYTES};
use nft_bridge::msg::{
    Cw721ReceiveMsg, ExecuteMsg, GetCountResponse, IbcStargazeMarketplaceSetAskMsg,
    InstantiateMsg, QueryMsg,
};
use nft_bridge::packet::ListNftPacketData;

const OUTGOING: cw_storage_plus::Map<(String, String), String> =
    cw_storage_plus::Map::new("outgoing_class_token_to_channel");
const NFT_CONTRACT_TO_CLASS_ID: cw_storage_plus::Map<Addr, String> =
    cw_storage_plus::Map::new("contract_to_class_id");
const CLASS_ID_TO_NFT_CONTRACT: cw_storage_plus::Map<String, Addr> =
    cw_storage_plus::Map::new("class_id_to_contract");
const CLASS_ID_TO_CLASS_URI: cw_storage_plus::Map<String, Option<String>> =
    cw_storage_plus::Map::new("class_id_to_class_uri");
const CW721_ICS_CODE_ID: cw_storage_plus::Item<u64> = cw_storage_plus::Item::new("cw721_code_id");

fn key(class_id: &str, token_id: &str) -> (String, String) {
    (class_id.to_string(), token_id.to_string())
}

fn info(collection: &str) -> MessageInfo {
    MessageInfo { sender: collection.to_string() }
}

fn timeout() -> IbcTimeout {
    IbcTimeout::with_timestamp(Timestamp::from_seconds(1_800_000_000))
}

fn ask(channel_id: &str) -> IbcStargazeMarketplaceSetAskMsg {
    IbcStargazeMarketplaceSetAskMsg {
        channel_id: channel_id.to_string(),
        timeout: timeout(),
        sale_type: SaleType::Auction,
        price: Coin::new(250, "ustars"),
        payment_address: "stars1payee".to_string(),
        expires_at: Timestamp::from_seconds(1_700_000_000),
    }
}

fn answers(token_uri: Option<&str>) -> Collaborators {
    Collaborators {
        sender: Ok("stars1sender".to_string()),
        nft_info: Ok(UniversalNftInfoResponse { token_uri: token_uri.map(str::to_string) }),
    }
}

fn payload(class_id: &str, class_uri: Option<&str>, token_id: &str, token_uri: &str) -> ListNftPacketData {
    ListNftPacketData {
        class_id: class_id.to_string(),
        class_uri: class_uri.map(str::to_string),
        token_id: token_id.to_string(),
        token_uri: token_uri.to_string(),
        sender: "stars1sender".to_string(),
        sale_type: SaleType::Auction,
        price: Coin::new(250, "ustars"),
        payment_address: "stars1payee".to_string(),
        expires_at: Timestamp::from_seconds(1_700_000_000),
    }
}

fn is_empty(store: &MockStorage) -> bool {
    store.range(None, None, cosmwasm_std::Order::Ascending).next().is_none()
}


#[test]
fn deposit_of_a_local_token_is_escrowed_and_sent() {
    let mut store = MockStorage::new();
    let response = receive_nft(
        &mut Ledger { storage: &mut store },
        info("wasm.contractA"),
        "7".to_string(),
        Ok(ask("channel-0")),
        answers(Some("ipfs://token/7")),
    );
    assert_eq!(
        response,
        Ok(Response {
            channel_id: "channel-0".to_string(),
            data: payload("wasm.contractA", None, "7", "ipfs://token/7"),
            timeout: timeout(),
        })
    );
    assert_eq!(OUTGOING.load(&store, key("wasm.contractA", "7")).unwrap(), "channel-0");
    // The collection is registered under its own identity.
    let contract = Addr::unchecked("wasm.contractA");
    assert_eq!(NFT_CONTRACT_TO_CLASS_ID.load(&store, contract.clone()).unwrap(), "wasm.contractA");
    assert_eq!(
        CLASS_ID_TO_NFT_CONTRACT.load(&store, "wasm.contractA".to_string()).unwrap(),
        contract
    );
    assert_eq!(CLASS_ID_TO_CLASS_URI.load(&store, "wasm.contractA".to_string()).unwrap(), None);
}

#[test]
fn deposit_of_a_wrapped_token_travels_under_its_registered_class() {
    let mut store = MockStorage::new();
    let class_id = "wasm.outpost/channel-0/wasm.remote".to_string();
    NFT_CONTRACT_TO_CLASS_ID.save(&mut store, Addr::unchecked("wasm.wrapped"), &class_id).unwrap();
    CLASS_ID_TO_CLASS_URI
        .save(&mut store, class_id.clone(), &Some("ipfs://class".to_string()))
        .unwrap();
    let response = receive_nft(
        &mut Ledger { storage: &mut store },
        info("wasm.wrapped"),
        "11".to_string(),
        Ok(ask("channel-0")),
        answers(None),
    )
    .unwrap();
    assert_eq!(response.channel_id, "channel-0");
    assert_eq!(response.data, payload(&class_id, Some("ipfs://class"), "11", ""));
    assert_eq!(OUTGOING.load(&store, key(&class_id, "11")).unwrap(), "channel-0");
    // Nothing is registered anew.
    assert!(!CLASS_ID_TO_NFT_CONTRACT.has(&store, "wasm.wrapped".to_string()));
    assert!(!CLASS_ID_TO_NFT_CONTRACT.has(&store, class_id.clone()));
    assert_eq!(
        CLASS_ID_TO_CLASS_URI.load(&store, class_id).unwrap(),
        Some("ipfs://class".to_string())
    );
}

#[test]
fn registered_class_without_uri_record_has_no_class_uri() {
    let mut store = MockStorage::new();
    NFT_CONTRACT_TO_CLASS_ID
        .save(&mut store, Addr::unchecked("wasm.wrapped"), &"a/b/c".to_string())
        .unwrap();
    let response = receive_nft(
        &mut Ledger { storage: &mut store },
        info("wasm.wrapped"),
        "1".to_string(),
        Ok(ask("channel-2")),
        answers(Some("uri")),
    )
    .unwrap();
    assert_eq!(response.data, payload("a/b/c", None, "1", "uri"));
}

#[test]
fn token_without_metadata_uri_travels_with_an_empty_one() {
    let mut store = MockStorage::new();
    let response = receive_nft(
        &mut Ledger { storage: &mut store },
        info("wasm.contractA"),
        "7".to_string(),
        Ok(ask("channel-0")),
        answers(None),
    )
    .unwrap();
    assert_eq!(response.data.token_uri, "");
}

#[test]
fn unresolved_sender_fails_before_anything_is_written() {
    let mut store = MockStorage::new();
    let response = receive_nft(
        &mut Ledger { storage: &mut store },
        info("wasm.contractA"),
        "7".to_string(),
        Ok(ask("channel-0")),
        Collaborators {
            sender: Err("address not normalized".to_string()),
            nft_info: Ok(UniversalNftInfoResponse { token_uri: None }),
        },
    );
    let error = ContractError::UnresolvedSender { reason: "address not normalized".to_string() };
    assert_eq!(error.message(), "cannot resolve sender: address not normalized");
    assert_eq!(response, Err(error));
    assert!(is_empty(&store));
}

#[test]
fn missing_token_metadata_fails_before_anything_is_written() {
    let mut store = MockStorage::new();
    let response = receive_nft(
        &mut Ledger { storage: &mut store },
        info("wasm.contractA"),
        "7".to_string(),
        Ok(ask("channel-0")),
        Collaborators {
            sender: Ok("stars1sender".to_string()),
            nft_info: Err("token not found".to_string()),
        },
    );
    let error = ContractError::Collaborator { reason: "token not found".to_string() };
    assert_eq!(error.message(), "NFT module failure: token not found");
    assert_eq!(response, Err(error));
    assert!(is_empty(&store));
}

#[test]
fn undecodable_message_fails_before_anything_is_written() {
    let mut store = MockStorage::new();
    let response = receive_nft(
        &mut Ledger { storage: &mut store },
        info("wasm.contractA"),
        "7".to_string(),
        Err("missing field `channel_id`".to_string()),
        answers(None),
    );
    assert_eq!(
        response,
        Err(ContractError::PayloadParse { reason: "missing field `channel_id`".to_string() })
    );
    assert!(is_empty(&store));
}

#[test]
fn failures_are_reported_in_a_fixed_order() {
    let mut store = MockStorage::new();
    let response = receive_nft(
        &mut Ledger { storage: &mut store },
        info("wasm.contractA"),
        "7".to_string(),
        Err("bad message".to_string()),
        Collaborators {
            sender: Err("bad sender".to_string()),
            nft_info: Err("bad token".to_string()),
        },
    );
    assert_eq!(
        response,
        Err(ContractError::UnresolvedSender { reason: "bad sender".to_string() })
    );
    let response = receive_nft(
        &mut Ledger { storage: &mut store },
        info("wasm.contractA"),
        "7".to_string(),
        Err("bad message".to_string()),
        Collaborators {
            sender: Ok("stars1sender".to_string()),
            nft_info: Err("bad token".to_string()),
        },
    );
    assert_eq!(response, Err(ContractError::PayloadParse { reason: "bad message".to_string() }));
}

#[test]
fn collection_with_an_overlong_identity_is_refused() {
    let mut store = MockStorage::new();
    let collection = "c".repeat(MAX_CLASS_ID_BYTES + 1);
    let response = receive_nft(
        &mut Ledger { storage: &mut store },
        info(&collection),
        "7".to_string(),
        Ok(ask("channel-0")),
        answers(None),
    );
    let error = ContractError::IdentifierFormat { identifier: collection.clone() };
    assert_eq!(error.message(), format!("malformed identifier: {}", collection));
    assert_eq!(response, Err(error));
    assert!(is_empty(&store));
}

#[test]
fn unreadable_registry_is_a_failure_of_the_host() {
    let mut store = MockStorage::new();
    let path = NFT_CONTRACT_TO_CLASS_ID.key(Addr::unchecked("wasm.contractA"));
    store.set(&path, b"???");
    let response = receive_nft(
        &mut Ledger { storage: &mut store },
        info("wasm.contractA"),
        "7".to_string(),
        Ok(ask("channel-0")),
        answers(None),
    );
    match response {
        Err(error @ ContractError::Host { .. }) => {
            assert!(error.message().starts_with("storage failure: "))
        }
        other => panic!("unexpected: {:?}", other),
    }
    assert!(!OUTGOING.has(&store, key("wasm.contractA", "7")));
}

#[test]
fn execute_hands_a_deposit_to_receive_nft() {
    let mut store = MockStorage::new();
    let msg = ExecuteMsg::ReceiveNft(Cw721ReceiveMsg {
        sender: "stars1sender".to_string(),
        token_id: "7".to_string(),
        msg: Ok(ask("channel-0")),
    });
    let response = execute(
        &mut Ledger { storage: &mut store },
        info("wasm.contractA"),
        msg,
        answers(Some("ipfs://token/7")),
    )
    .unwrap();
    assert_eq!(response.channel_id, "channel-0");
    assert_eq!(response.data.token_id, "7");
    assert_eq!(response.data.sender, "stars1sender");
    assert_eq!(response.data.class_id, "wasm.contractA");
    assert_eq!(OUTGOING.load(&store, key("wasm.contractA", "7")).unwrap(), "channel-0");
}

#[test]
fn instantiate_stores_version_and_code_id() {
    let mut store = MockStorage::new();
    let msg = InstantiateMsg { cw721_base_code_id: 17 };
    assert_eq!(instantiate(&mut Ledger { storage: &mut store }, msg), Ok(()));
    assert_eq!(CW721_ICS_CODE_ID.load(&store).unwrap(), 17);
    let version = cw2::get_contract_version(&store).unwrap();
    assert_eq!(version.contract, "crates.io:sg-marketplace-outpost");
    assert_eq!(version.contract, CONTRACT_NAME);
    assert_eq!(version.version, CONTRACT_VERSION);
}

#[test]
fn count_is_five() {
    assert_eq!(count(), GetCountResponse { count: 5 });
    assert_eq!(query(QueryMsg::GetCount {}), GetCountResponse { count: 5 });
}
