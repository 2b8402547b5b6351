//! The sending side: what to do with a token that is deposited for transfer.
//!
//! A deposit is turned into a transfer packet, and the token is recorded as
//! escrowed against the channel that the packet leaves on. The record is
//! written before the packet is handed to the host; what the remote side
//! answers later decides whether it stays.

use vstd::prelude::*;

use crate::error::{ContractError, ContractErrorView};
use crate::ledger::{can_hold, fits_key, Ledger, LedgerState};
use crate::msg::{
    Cw721ReceiveMsg,
    ExecuteMsg,
    GetCountResponse,
    InstantiateMsg,
    IbcStargazeMarketplaceSetAskMsg,
    IbcStargazeMarketplaceSetAskMsgView,
    QueryMsg,
};
use crate::packet::{ListNftPacketData, ListNftPacketDataView};

verus! {

/// The name under which the contract is stored.
pub const CONTRACT_NAME: &'static str = "crates.io:sg-marketplace-outpost";

/// The version under which the contract is stored.
pub const CONTRACT_VERSION: &'static str = "0.1.0";

/// Who called: the collection that hands a token over.
#[derive(Debug, Clone, PartialEq, Eq)]
pub struct MessageInfo {
    pub sender: String,
}

/// What the NFT module says of a token. Only the metadata URI is read.
#[derive(Debug, Clone, PartialEq, Eq)]
pub struct UniversalNftInfoResponse {
    pub token_uri: Option<String>,
}

/// What the host and the NFT module answered for a deposit, asked before the
/// deposit is handled.
#[derive(Debug, PartialEq, Eq)]
pub struct Collaborators {
    /// The depositor's address as the host resolved it, or why it could not.
    pub sender: Result<String, String>,
    /// What the NFT module says of the token, or why it says nothing.
    pub nft_info: Result<UniversalNftInfoResponse, String>,
}

/// The packet to send for a deposit, with the channel it leaves on.
#[derive(Debug, PartialEq)]
pub struct Response {
    /// The local channel that the packet is sent on.
    pub channel_id: String,
    /// The payload of the packet.
    pub data: ListNftPacketData,
    /// When the packet times out.
    pub timeout: cosmwasm_std::IbcTimeout,
}

/// A `Response` with its texts as sequences of characters.
pub struct ResponseView {
    pub channel_id: Seq<char>,
    pub data: ListNftPacketDataView,
    pub timeout: cosmwasm_std::IbcTimeout,
}

impl View for Response {
    type V = ResponseView;

    open spec fn view(&self) -> ResponseView {
        ResponseView { channel_id: self.channel_id@, data: self.data@, timeout: self.timeout }
    }
}

/// A deposit as the sending side sees it, in sequences of characters.
pub struct DepositView {
    /// The collection that hands the token over.
    pub collection: Seq<char>,
    pub token_id: Seq<char>,
    pub sender: Result<Seq<char>, Seq<char>>,
    pub msg: Result<IbcStargazeMarketplaceSetAskMsgView, Seq<char>>,
    /// The metadata URI of the token, if it has one, or why the NFT module
    /// says nothing of the token.
    pub token_uri: Result<Option<Seq<char>>, Seq<char>>,
}

/// How the handling of one deposit ends.
pub enum Dispatch {
    /// The token is escrowed and the packet is due: the ledger is as given.
    Sent { response: ResponseView, ledger: LedgerState },
    /// The deposit is refused and the ledger stays as it was.
    Refused { error: ContractErrorView },
    /// The ledger cannot be read: the ledger stays as it was.
    Halted,
}

/// The class identifier under which the tokens of `collection` travel: the
/// one registered for it, or its own identity if it is seen for the first
/// time.
pub open spec fn class_id_for(ledger: LedgerState, collection: Seq<char>) -> Seq<char> {
    match ledger.class_id_of(collection) {
        Some(class_id) => class_id,
        None => collection,
    }
}

/// The class-level URI that goes into the packet: the one on record for the
/// class, none for a collection that is seen for the first time.
pub open spec fn class_uri_for(ledger: LedgerState, collection: Seq<char>) -> Option<Seq<char>> {
    match ledger.class_id_of(collection) {
        Some(class_id) => ledger.class_uri_of(class_id),
        None => None,
    }
}

/// The ledger cannot answer what a deposit from `collection` asks of it.
pub open spec fn registry_damaged(ledger: LedgerState, collection: Seq<char>) -> bool {
    ||| ledger.class_ids_unreadable.contains(collection)
    ||| (ledger.class_id_of(collection) matches Some(class_id)
        && ledger.class_uris_unreadable.contains(class_id))
}

/// The ledger after a deposit from `collection` has been escrowed against
/// `channel`: the collection is registered if it was not, and the outgoing
/// entry is written.
pub open spec fn escrowed(
    ledger: LedgerState,
    collection: Seq<char>,
    token_id: Seq<char>,
    channel: Seq<char>,
) -> LedgerState {
    let registered = if ledger.class_id_of(collection) is Some {
        ledger
    } else {
        ledger.with_local_class(collection)
    };
    registered.with_outgoing((class_id_for(ledger, collection), token_id), channel)
}

/// How the handling of `deposit` ends on a ledger that holds `ledger`.
pub open spec fn dispatch(ledger: LedgerState, deposit: DepositView) -> Dispatch {
    match (deposit.sender, deposit.msg, deposit.token_uri) {
        (Err(reason), _, _) => Dispatch::Refused {
            error: ContractErrorView::UnresolvedSender { reason },
        },
        (Ok(_), Err(reason), _) => Dispatch::Refused {
            error: ContractErrorView::PayloadParse { reason },
        },
        (Ok(_), Ok(_), Err(reason)) => Dispatch::Refused {
            error: ContractErrorView::Collaborator { reason },
        },
        (Ok(sender), Ok(msg), Ok(token_uri)) => if registry_damaged(
            ledger,
            deposit.collection,
        ) {
            Dispatch::Halted
        } else if !can_hold(class_id_for(ledger, deposit.collection)) {
            Dispatch::Refused {
                error: ContractErrorView::IdentifierFormat {
                    identifier: class_id_for(ledger, deposit.collection),
                },
            }
        } else {
            Dispatch::Sent {
                response: ResponseView {
                    channel_id: msg.channel_id,
                    data: ListNftPacketDataView {
                        class_id: class_id_for(ledger, deposit.collection),
                        class_uri: class_uri_for(ledger, deposit.collection),
                        token_id: deposit.token_id,
                        token_uri: match token_uri {
                            Some(uri) => uri,
                            None => Seq::empty(),
                        },
                        sender,
                        sale_type: msg.sale_type,
                        price: msg.price,
                        payment_address: msg.payment_address,
                        expires_at: msg.expires_at,
                    },
                    timeout: msg.timeout,
                },
                ledger: escrowed(ledger, deposit.collection, deposit.token_id, msg.channel_id),
            }
        },
    }
}

/// The deposit that `receive_nft` is called with.
pub open spec fn deposit_view(
    info: MessageInfo,
    token_id: String,
    msg: Result<IbcStargazeMarketplaceSetAskMsg, String>,
    collaborators: Collaborators,
) -> DepositView {
    DepositView {
        collection: info.sender@,
        token_id: token_id@,
        sender: match collaborators.sender {
            Ok(sender) => Ok(sender@),
            Err(reason) => Err(reason@),
        },
        msg: match msg {
            Ok(msg) => Ok(msg@),
            Err(reason) => Err(reason@),
        },
        token_uri: match collaborators.nft_info {
            Ok(nft_info) => Ok(nft_info.token_uri.deep_view()),
            Err(reason) => Err(reason@),
        },
    }
}

/// The outcome `r` on the ledger `after` is what `dispatch` gives.
pub open spec fn dispatched(
    outcome: Dispatch,
    before: LedgerState,
    after: LedgerState,
    r: Result<Response, ContractError>,
) -> bool {
    match outcome {
        Dispatch::Sent { response, ledger } => r matches Ok(sent) && sent@ == response && after
            == ledger,
        Dispatch::Refused { error } => r matches Err(e) && e@ == error && after == before,
        Dispatch::Halted => r matches Err(e) && e@ is Host && after == before,
    }
}

/// Takes a deposited token into escrow and makes the packet that transfers
/// it.
///
/// The deposit is refused, and nothing is written, if the host could not
/// resolve the depositor, the attached message could not be decoded, or the
/// NFT module says nothing of the token. Otherwise the collection is
/// registered under its own identity if it is seen for the first time, and the
/// token is recorded as escrowed against the channel of the packet.
pub fn receive_nft(
    ledger: &mut Ledger,
    info: MessageInfo,
    token_id: String,
    msg: Result<IbcStargazeMarketplaceSetAskMsg, String>,
    collaborators: Collaborators,
) -> (r: Result<Response, ContractError>)
    ensures
        dispatched(
            dispatch(old(ledger)@, deposit_view(info, token_id, msg, collaborators)),
            old(ledger)@,
            final(ledger)@,
            r,
        ),
{
    let Collaborators { sender, nft_info } = collaborators;
    let sender = match sender {
        Ok(sender) => sender,
        Err(reason) => {
            return Err(ContractError::UnresolvedSender { reason });
        },
    };
    let msg = match msg {
        Ok(msg) => msg,
        Err(reason) => {
            return Err(ContractError::PayloadParse { reason });
        },
    };
    let token_uri = match nft_info {
        Ok(UniversalNftInfoResponse { token_uri }) => token_uri,
        Err(reason) => {
            return Err(ContractError::Collaborator { reason });
        },
    };
    let registered = match ledger.get_class_id(info.sender.as_str()) {
        Ok(registered) => registered,
        Err(e) => {
            return Err(e);
        },
    };
    let (class_id, class_uri, first_seen) = match registered {
        Some(class_id) => {
            let class_uri = match ledger.get_class_uri(class_id.as_str()) {
                Ok(class_uri) => class_uri,
                Err(e) => {
                    return Err(e);
                },
            };
            (class_id, class_uri, false)
        },
        // A collection without a class identifier is a local one: its class
        // identifier is its own address, and it has no class-level metadata.
        None => (info.sender.clone(), None, true),
    };
    if !fits_key(class_id.as_str()) {
        return Err(ContractError::IdentifierFormat { identifier: class_id });
    }
    if first_seen {
        if let Err(e) = ledger.register_local_class(info.sender.as_str()) {
            return Err(e);
        }
    }
    if let Err(e) = ledger.set_outgoing(
        class_id.as_str(),
        token_id.as_str(),
        msg.channel_id.as_str(),
    ) {
        return Err(e);
    }
    let data = ListNftPacketData {
        class_id,
        class_uri,
        token_id,
        // A token without a metadata URI travels with an empty one.
        token_uri: match token_uri {
            Some(uri) => uri,
            None => String::new(),
        },
        sender,
        sale_type: msg.sale_type,
        price: msg.price,
        payment_address: msg.payment_address,
        expires_at: msg.expires_at,
    };
    Ok(Response { channel_id: msg.channel_id, data, timeout: msg.timeout })
}

/// Sets the contract up: its name and version are stored, and the code that
/// wrapped collections are instantiated from.
pub fn instantiate(ledger: &mut Ledger, msg: InstantiateMsg) -> (r: Result<(), ContractError>)
    ensures
        r is Ok,
        final(ledger)@ == old(ledger)@.set_up(
            CONTRACT_NAME@,
            CONTRACT_VERSION@,
            msg.cw721_base_code_id,
        ),
{
    ledger.set_up(CONTRACT_NAME, CONTRACT_VERSION, msg.cw721_base_code_id)
}

/// Handles a message sent to the bridge.
pub fn execute(
    ledger: &mut Ledger,
    info: MessageInfo,
    msg: ExecuteMsg,
    collaborators: Collaborators,
) -> (r: Result<Response, ContractError>)
    ensures
        msg matches ExecuteMsg::ReceiveNft(deposit) && dispatched(
            dispatch(
                old(ledger)@,
                deposit_view(info, deposit.token_id, deposit.msg, collaborators),
            ),
            old(ledger)@,
            final(ledger)@,
            r,
        ),
{
    match msg {
        ExecuteMsg::ReceiveNft(Cw721ReceiveMsg { sender: _, token_id, msg }) => receive_nft(
            ledger,
            info,
            token_id,
            msg,
            collaborators,
        ),
    }
}

/// The current count.
pub fn count() -> (response: GetCountResponse)
    ensures
        response.count == 5,
{
    GetCountResponse { count: 5 }
}

/// Answers a query.
pub fn query(msg: QueryMsg) -> (response: GetCountResponse)
    ensures
        response.count == 5,
{
    match msg {
        QueryMsg::GetCount {  } => count(),
    }
}

} // verus!
