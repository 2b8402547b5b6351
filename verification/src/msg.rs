//! The messages that the sending side takes and answers.

use vstd::prelude::*;

verus! {

/// When a packet times out, as `cosmwasm-std` holds it. The bridge carries it
/// through and never looks inside.
#[verifier::external_type_specification]
#[verifier::external_body]
pub struct ExIbcTimeout(cosmwasm_std::IbcTimeout);

#[derive(Debug, Clone, PartialEq, Eq)]
pub struct InstantiateMsg {
    /// The code that wrapped collections are instantiated from.
    pub cw721_base_code_id: u64,
}

/// The transfer that a depositor asks for, sent along with the token.
#[derive(Debug, PartialEq)]
pub struct IbcStargazeMarketplaceSetAskMsg {
    /// The local channel that the token is to be sent away on.
    pub channel_id: String,
    /// When the packet times out.
    pub timeout: cosmwasm_std::IbcTimeout,
    pub sale_type: sg_marketplace::state::SaleType,
    pub price: cosmwasm_std::Coin,
    pub payment_address: String,
    pub expires_at: cosmwasm_std::Timestamp,
}

/// An `IbcStargazeMarketplaceSetAskMsg` with its texts as sequences of
/// characters.
pub struct IbcStargazeMarketplaceSetAskMsgView {
    pub channel_id: Seq<char>,
    pub timeout: cosmwasm_std::IbcTimeout,
    pub sale_type: sg_marketplace::state::SaleType,
    pub price: cosmwasm_std::Coin,
    pub payment_address: Seq<char>,
    pub expires_at: cosmwasm_std::Timestamp,
}

impl View for IbcStargazeMarketplaceSetAskMsg {
    type V = IbcStargazeMarketplaceSetAskMsgView;

    open spec fn view(&self) -> IbcStargazeMarketplaceSetAskMsgView {
        IbcStargazeMarketplaceSetAskMsgView {
            channel_id: self.channel_id@,
            timeout: self.timeout,
            sale_type: self.sale_type,
            price: self.price,
            payment_address: self.payment_address@,
            expires_at: self.expires_at,
        }
    }
}

/// What a collection sends along when it hands a token to the bridge.
#[derive(Debug, PartialEq)]
pub struct Cw721ReceiveMsg {
    /// The address that deposited the token.
    pub sender: String,
    pub token_id: String,
    /// The transfer asked for, or why the attached message could not be
    /// decoded.
    pub msg: Result<IbcStargazeMarketplaceSetAskMsg, String>,
}

#[derive(Debug, PartialEq)]
pub enum ExecuteMsg {
    /// Receives an NFT to be transferred away.
    ReceiveNft(Cw721ReceiveMsg),
}

#[derive(Debug, Clone, Copy, PartialEq, Eq)]
pub enum QueryMsg {
    /// Asks for the current count.
    GetCount {  },
}

#[derive(Debug, Clone, Copy, PartialEq, Eq)]
pub struct GetCountResponse {
    pub count: i32,
}

} // verus!
