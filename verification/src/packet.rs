//! The wire payload of a transfer packet and the route it travels.

use vstd::prelude::*;

use crate::identifier::{is_segment, is_valid_segment};

verus! {

/// An amount of a currency, as `cosmwasm-std` holds it. The bridge carries it
/// through and never looks inside.
#[verifier::external_type_specification]
#[verifier::external_body]
pub struct ExCoin(cosmwasm_std::Coin);

/// A point in time, as `cosmwasm-std` holds it. The bridge carries it through
/// and never looks inside.
#[verifier::external_type_specification]
#[verifier::external_body]
pub struct ExTimestamp(cosmwasm_std::Timestamp);

/// How a listed token is sold, as `sg-marketplace` holds it. The bridge
/// carries it through and never looks inside.
#[verifier::external_type_specification]
#[verifier::external_body]
pub struct ExSaleType(sg_marketplace::state::SaleType);

/// Everything needed to identify an NFT and list it on the marketplace of the
/// receiving chain.
#[derive(Debug, PartialEq)]
pub struct ListNftPacketData {
    /// Identifies the collection of the token on the sending chain.
    pub class_id: String,
    /// Where the metadata of the collection is found, if anywhere.
    pub class_uri: Option<String>,
    /// Identifies the token within its collection.
    pub token_id: String,
    /// Where the metadata of the token is found; empty if nowhere.
    pub token_uri: String,
    /// The address that sends the token, on the sending chain.
    pub sender: String,
    pub sale_type: sg_marketplace::state::SaleType,
    pub price: cosmwasm_std::Coin,
    pub payment_address: String,
    pub expires_at: cosmwasm_std::Timestamp,
}

/// A `ListNftPacketData` with its texts as sequences of characters.
pub struct ListNftPacketDataView {
    pub class_id: Seq<char>,
    pub class_uri: Option<Seq<char>>,
    pub token_id: Seq<char>,
    pub token_uri: Seq<char>,
    pub sender: Seq<char>,
    pub sale_type: sg_marketplace::state::SaleType,
    pub price: cosmwasm_std::Coin,
    pub payment_address: Seq<char>,
    pub expires_at: cosmwasm_std::Timestamp,
}

impl View for ListNftPacketData {
    type V = ListNftPacketDataView;

    open spec fn view(&self) -> ListNftPacketDataView {
        ListNftPacketDataView {
            class_id: self.class_id@,
            class_uri: self.class_uri.deep_view(),
            token_id: self.token_id@,
            token_uri: self.token_uri@,
            sender: self.sender@,
            sale_type: self.sale_type,
            price: self.price,
            payment_address: self.payment_address@,
            expires_at: self.expires_at,
        }
    }
}

/// One end of a channel: a port and a channel on one chain.
#[derive(Debug, Clone, PartialEq, Eq)]
pub struct Endpoint {
    pub port_id: String,
    pub channel_id: String,
}

/// An `Endpoint` with its texts as sequences of characters.
pub struct EndpointView {
    pub port_id: Seq<char>,
    pub channel_id: Seq<char>,
}

impl EndpointView {
    /// Port and channel can stand in a prefix: each is a segment.
    pub open spec fn is_valid(self) -> bool {
        is_segment(self.port_id) && is_segment(self.channel_id)
    }
}

impl View for Endpoint {
    type V = EndpointView;

    open spec fn view(&self) -> EndpointView {
        EndpointView { port_id: self.port_id@, channel_id: self.channel_id@ }
    }
}

impl Endpoint {
    /// Tells whether port and channel can stand in a prefix.
    pub fn is_valid(&self) -> (ok: bool)
        ensures
            ok == self@.is_valid(),
    {
        is_valid_segment(self.port_id.as_str()) && is_valid_segment(self.channel_id.as_str())
    }
}

/// A transfer packet as the host delivers it, its payload already decoded or
/// found undecodable.
#[derive(Debug, PartialEq)]
pub struct Packet {
    /// The payload, or why the raw data could not be decoded.
    pub data: Result<ListNftPacketData, String>,
    /// The channel and port on the sending chain.
    pub src: Endpoint,
    /// The channel and port on the receiving chain.
    pub dest: Endpoint,
}

/// A `Packet` with its texts as sequences of characters.
pub struct PacketView {
    pub data: Result<ListNftPacketDataView, Seq<char>>,
    pub src: EndpointView,
    pub dest: EndpointView,
}

impl View for Packet {
    type V = PacketView;

    open spec fn view(&self) -> PacketView {
        PacketView {
            data: match self.data {
                Ok(data) => Ok(data@),
                Err(reason) => Err(reason@),
            },
            src: self.src@,
            dest: self.dest@,
        }
    }
}

} // verus!
