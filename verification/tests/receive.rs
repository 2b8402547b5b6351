use cosmwasm_std::testing::MockStorage;
use cosmwasm_std::{Coin, Storage, Timestamp};

use nft_bridge::ack::{ack_fail, ack_success};
use nft_bridge::error::ContractError;
use nft_bridge::ledger::Ledger;
use nft_bridge::packet::{Endpoint, ListNftPacketData, Packet};
use sg_marketplace::state::SaleType;
use nft_bridge::contract::{receive_nft, Collaborators, MessageInfo, UniversalNftInfoResponse};
use nft_bridge::msg::IbcStargazeMarketplaceSetAskMsg;
use nft_bridge::receive::{do_ibc_packet_receive, ibc_packet_receive, refusal, Action};

const OUTGOING: cw_storage_plus::Map<(String, String), String> =
    cw_storage_plus::Map::new("outgoing_class_token_to_channel");
const INCOMING: cw_storage_plus::Map<(String, String), String> =
    cw_storage_plus::Map::new("incoming_class_token_to_channel");

fn endpoint(port: &str, channel: &str) -> Endpoint {
    Endpoint { port_id: port.to_string(), channel_id: channel.to_string() }
}

fn payload(class_id: &str, token_id: &str) -> ListNftPacketData {
    ListNftPacketData {
        class_id: class_id.to_string(),
        class_uri: Some("https://example.com/class".to_string()),
        token_id: token_id.to_string(),
        token_uri: "https://example.com/token".to_string(),
        sender: "stars1sender".to_string(),
        sale_type: SaleType::FixedPrice,
        price: Coin::new(100, "ustars"),
        payment_address: "stars1payee".to_string(),
        expires_at: Timestamp::from_seconds(1_700_000_000),
    }
}

fn key(class_id: &str, token_id: &str) -> (String, String) {
    (class_id.to_string(), token_id.to_string())
}

#[test]
fn fresh_arrival_is_minted_under_prefixed_class() {
    let mut store = MockStorage::new();
    let packet = Packet {
        data: Ok(payload("wasm.contractB", "9")),
        src: endpoint("wasm.outpost", "channel-8"),
        dest: endpoint("wasm.hub", "channel-3"),
    };
    let response = ibc_packet_receive(&mut Ledger { storage: &mut store }, packet).unwrap();
    assert_eq!(response.acknowledgement, ack_success());
    assert_eq!(response.error, None);
    assert_eq!(
        response.action,
        Some(Action::InstantiateAndMint {
            class_id: "wasm.hub/channel-3/wasm.contractB".to_string(),
            class_uri: Some("https://example.com/class".to_string()),
            token_id: "9".to_string(),
            token_uri: "https://example.com/token".to_string(),
        })
    );
    assert_eq!(
        INCOMING.may_load(&store, key("wasm.hub/channel-3/wasm.contractB", "9")).unwrap(),
        Some("channel-3".to_string())
    );
    assert_eq!(OUTGOING.may_load(&store, key("wasm.contractB", "9")).unwrap(), None);
}

#[test]
fn return_on_the_same_channel_unlocks() {
    let mut store = MockStorage::new();
    Ledger { storage: &mut store }.set_outgoing("wasm.contractA", "7", "channel-0").unwrap();
    assert_eq!(
        OUTGOING.may_load(&store, key("wasm.contractA", "7")).unwrap(),
        Some("channel-0".to_string())
    );
    let packet = Packet {
        data: Ok(payload("wasm.hub/channel-4/wasm.contractA", "7")),
        src: endpoint("wasm.hub", "channel-4"),
        dest: endpoint("wasm.outpost", "channel-0"),
    };
    let action = do_ibc_packet_receive(&mut Ledger { storage: &mut store }, packet).unwrap();
    assert_eq!(
        action,
        Action::Transfer { class_id: "wasm.contractA".to_string(), token_id: "7".to_string() }
    );
    assert_eq!(OUTGOING.may_load(&store, key("wasm.contractA", "7")).unwrap(), None);
    assert!(INCOMING
        .may_load(&store, key("wasm.outpost/channel-0/wasm.hub/channel-4/wasm.contractA", "7"))
        .unwrap()
        .is_none());
}

#[test]
fn prefix_of_another_route_is_a_fresh_arrival() {
    let mut store = MockStorage::new();
    let packet = Packet {
        data: Ok(payload("wasm.hub/channel-3/wasm.contractB", "9")),
        src: endpoint("wasm.outpost", "channel-9"),
        dest: endpoint("wasm.hub", "channel-5"),
    };
    let action = do_ibc_packet_receive(&mut Ledger { storage: &mut store }, packet).unwrap();
    assert_eq!(
        action,
        Action::InstantiateAndMint {
            class_id: "wasm.hub/channel-5/wasm.hub/channel-3/wasm.contractB".to_string(),
            class_uri: Some("https://example.com/class".to_string()),
            token_id: "9".to_string(),
            token_uri: "https://example.com/token".to_string(),
        }
    );
    assert_eq!(
        INCOMING
            .may_load(&store, key("wasm.hub/channel-5/wasm.hub/channel-3/wasm.contractB", "9"))
            .unwrap(),
        Some("channel-5".to_string())
    );
}

#[test]
fn undecodable_payload_gets_an_error_ack() {
    let mut store = MockStorage::new();
    let packet = Packet {
        data: Err("missing field `class_id`".to_string()),
        src: endpoint("wasm.outpost", "channel-9"),
        dest: endpoint("wasm.hub", "channel-5"),
    };
    let response = ibc_packet_receive(&mut Ledger { storage: &mut store }, packet).unwrap();
    let text = "cannot parse packet data: missing field `class_id`";
    assert_eq!(response.error, Some(text.to_string()));
    assert_eq!(response.action, None);
    assert_eq!(response.acknowledgement, ack_fail(text));
    assert_eq!(
        response.acknowledgement,
        b"{\"error\":\"cannot parse packet data: missing field `class_id`\"}".to_vec()
    );
    let error = ContractError::PayloadParse { reason: "missing field `class_id`".to_string() };
    assert_eq!(error.message(), text);
}

#[test]
fn send_then_return_on_the_same_channel() {
    let mut store = MockStorage::new();
    receive_nft(
        &mut Ledger { storage: &mut store },
        MessageInfo { sender: "wasm.contractA".to_string() },
        "7".to_string(),
        Ok(IbcStargazeMarketplaceSetAskMsg {
            channel_id: "channel-0".to_string(),
            timeout: cosmwasm_std::IbcTimeout::with_timestamp(Timestamp::from_seconds(5)),
            sale_type: SaleType::FixedPrice,
            price: Coin::new(100, "ustars"),
            payment_address: "stars1payee".to_string(),
            expires_at: Timestamp::from_seconds(4),
        }),
        Collaborators {
            sender: Ok("stars1sender".to_string()),
            nft_info: Ok(UniversalNftInfoResponse { token_uri: None }),
        },
    )
    .unwrap();
    assert_eq!(
        OUTGOING.load(&store, key("wasm.contractA", "7")).unwrap(),
        "channel-0".to_string()
    );

    let packet = Packet {
        data: Ok(payload("wasm.hub/channel-4/wasm.contractA", "7")),
        src: endpoint("wasm.hub", "channel-4"),
        dest: endpoint("wasm.outpost", "channel-0"),
    };
    let response = ibc_packet_receive(&mut Ledger { storage: &mut store }, packet).unwrap();
    assert_eq!(response.acknowledgement, ack_success());
    assert_eq!(
        response.action,
        Some(Action::Transfer { class_id: "wasm.contractA".to_string(), token_id: "7".to_string() })
    );
    assert!(!OUTGOING.has(&store, key("wasm.contractA", "7")));
}

#[test]
fn return_on_another_channel_is_minted_with_both_prefixes() {
    let mut store = MockStorage::new();
    Ledger { storage: &mut store }.set_outgoing("wasm.contractA", "7", "channel-0").unwrap();
    let packet = Packet {
        data: Ok(payload("wasm.hub/channel-4/wasm.contractA", "7")),
        src: endpoint("wasm.hub", "channel-4"),
        dest: endpoint("wasm.outpost", "channel-1"),
    };
    let action = do_ibc_packet_receive(&mut Ledger { storage: &mut store }, packet).unwrap();
    let minted = "wasm.outpost/channel-1/wasm.hub/channel-4/wasm.contractA";
    assert_eq!(
        action,
        Action::InstantiateAndMint {
            class_id: minted.to_string(),
            class_uri: Some("https://example.com/class".to_string()),
            token_id: "7".to_string(),
            token_uri: "https://example.com/token".to_string(),
        }
    );
    // The escrow stays, and the arrival is on record.
    assert_eq!(OUTGOING.load(&store, key("wasm.contractA", "7")).unwrap(), "channel-0");
    assert_eq!(INCOMING.load(&store, key(minted, "7")).unwrap(), "channel-1");
}

#[test]
fn same_class_other_token_is_a_fresh_arrival() {
    let mut store = MockStorage::new();
    Ledger { storage: &mut store }.set_outgoing("wasm.contractA", "7", "channel-0").unwrap();
    let packet = Packet {
        data: Ok(payload("wasm.hub/channel-4/wasm.contractA", "8")),
        src: endpoint("wasm.hub", "channel-4"),
        dest: endpoint("wasm.outpost", "channel-0"),
    };
    let action = do_ibc_packet_receive(&mut Ledger { storage: &mut store }, packet).unwrap();
    assert!(matches!(action, Action::InstantiateAndMint { .. }));
    assert!(OUTGOING.has(&store, key("wasm.contractA", "7")));
}

#[test]
fn malformed_class_id_gets_an_error_ack() {
    for class_id in ["", "a//b", "wasm.hub/channel-4/", "a/b"] {
        let mut store = MockStorage::new();
        let packet = Packet {
            data: Ok(payload(class_id, "7")),
            src: endpoint("wasm.hub", "channel-4"),
            dest: endpoint("wasm.outpost", "channel-0"),
        };
        let response = ibc_packet_receive(&mut Ledger { storage: &mut store }, packet).unwrap();
        let text = format!("malformed identifier: {}", class_id);
        assert_eq!(response.action, None);
        assert_eq!(response.error, Some(text.clone()));
        assert_eq!(response.acknowledgement, ack_fail(&text));
        assert_ne!(response.acknowledgement, ack_success());
        assert!(!INCOMING.has(&store, key(&format!("wasm.outpost/channel-0/{}", class_id), "7")));
    }
}

#[test]
fn endpoint_with_a_separator_gets_an_error_ack() {
    let mut store = MockStorage::new();
    let packet = Packet {
        data: Ok(payload("wasm.contractA", "7")),
        src: endpoint("wasm/hub", "channel-4"),
        dest: endpoint("wasm.outpost", "channel-0"),
    };
    assert_eq!(
        do_ibc_packet_receive(&mut Ledger { storage: &mut store }, packet),
        Err(ContractError::IdentifierFormat { identifier: "wasm/hub/channel-4/".to_string() })
    );
    let packet = Packet {
        data: Ok(payload("wasm.contractA", "7")),
        src: endpoint("wasm.hub", "channel-4"),
        dest: endpoint("wasm.outpost", ""),
    };
    assert_eq!(
        do_ibc_packet_receive(&mut Ledger { storage: &mut store }, packet),
        Err(ContractError::IdentifierFormat { identifier: "wasm.outpost//".to_string() })
    );
    assert!(!INCOMING.has(&store, key("wasm.outpost//wasm.contractA", "7")));
}

#[test]
fn class_id_too_long_once_prefixed_gets_an_error_ack() {
    let mut store = MockStorage::new();
    let class_id = "a".repeat(65535 - "wasm.outpost/channel-0/".len() + 1);
    let packet = Packet {
        data: Ok(payload(&class_id, "7")),
        src: endpoint("wasm.hub", "channel-4"),
        dest: endpoint("wasm.outpost", "channel-0"),
    };
    let response = ibc_packet_receive(&mut Ledger { storage: &mut store }, packet).unwrap();
    assert_eq!(response.action, None);
    assert_eq!(
        response.error,
        Some(format!("malformed identifier: wasm.outpost/channel-0/{}", class_id))
    );
    // One character less fits.
    let class_id = "a".repeat(65535 - "wasm.outpost/channel-0/".len());
    let packet = Packet {
        data: Ok(payload(&class_id, "7")),
        src: endpoint("wasm.hub", "channel-4"),
        dest: endpoint("wasm.outpost", "channel-0"),
    };
    let response = ibc_packet_receive(&mut Ledger { storage: &mut store }, packet).unwrap();
    assert_eq!(response.error, None);
}

#[test]
fn unreadable_escrow_entry_fails_the_invocation() {
    let mut store = MockStorage::new();
    let path = OUTGOING.key(key("wasm.contractA", "7"));
    store.set(&path, b"\xff");
    let packet = Packet {
        data: Ok(payload("wasm.hub/channel-4/wasm.contractA", "7")),
        src: endpoint("wasm.hub", "channel-4"),
        dest: endpoint("wasm.outpost", "channel-0"),
    };
    let response = ibc_packet_receive(&mut Ledger { storage: &mut store }, packet);
    assert!(matches!(response, Err(ContractError::Host { .. })));
    assert!(!INCOMING
        .has(&store, key("wasm.outpost/channel-0/wasm.hub/channel-4/wasm.contractA", "7")));
}

#[test]
fn refusal_is_an_error_ack_with_the_text_of_the_error() {
    let error = ContractError::Collaborator { reason: "mint failed".to_string() };
    let response = refusal(&error);
    assert_eq!(response.action, None);
    assert_eq!(response.error, Some("NFT module failure: mint failed".to_string()));
    assert_eq!(
        response.acknowledgement,
        b"{\"error\":\"NFT module failure: mint failed\"}".to_vec()
    );
}
