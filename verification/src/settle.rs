//! What becomes of an escrow once the fate of its packet is known.
//!
//! The sending side escrows a token before it knows whether the packet will
//! be delivered. The host reports later: with the acknowledgement of the
//! remote side, or with a timeout. An acknowledgement of success lets the
//! escrow stand. An acknowledgement of failure and a timeout take it back, as
//! if the token had never been sent. Either way the packet is done with:
//! nothing is sent again.

use vstd::prelude::*;
use vstd::string::*;

use crate::ack::{
    ack_decoding,
    ack_error,
    decode_ack,
    decoded_view,
    reported_error,
    Acknowledgement,
};
use crate::ledger::{can_hold, EscrowKey, Ledger, LedgerState};
use crate::packet::ListNftPacketData;

verus! {

/// What became of the escrow of one packet.
#[derive(Debug, Clone, PartialEq, Eq)]
pub enum Settlement {
    /// The remote side settled the packet: the escrow stands.
    Kept,
    /// The packet failed: the escrow is taken back, for the reason given.
    Reverted { reason: String },
}

/// A `Settlement` with its text as a sequence of characters.
pub enum SettlementView {
    Kept,
    Reverted { reason: Seq<char> },
}

impl View for Settlement {
    type V = SettlementView;

    open spec fn view(&self) -> SettlementView {
        match self {
            Settlement::Kept => SettlementView::Kept,
            Settlement::Reverted { reason } => SettlementView::Reverted { reason: reason@ },
        }
    }
}

/// The ledger after the escrow under `key` has been taken back: the outgoing
/// entry is gone and everything else is as before.
pub open spec fn reverted(ledger: LedgerState, key: EscrowKey) -> LedgerState {
    if can_hold(key.0) {
        ledger.without_outgoing(key)
    } else {
        ledger
    }
}

/// What becomes of an escrow whose packet was answered with an
/// acknowledgement that reports `error`.
pub open spec fn settlement(error: Option<Seq<char>>) -> SettlementView {
    match error {
        Some(reason) => SettlementView::Reverted { reason },
        None => SettlementView::Kept,
    }
}

/// The ledger after the packet of the escrow under `key` was answered with an
/// acknowledgement that reports `error`.
pub open spec fn settled(ledger: LedgerState, key: EscrowKey, error: Option<Seq<char>>) -> LedgerState {
    match error {
        Some(_) => reverted(ledger, key),
        None => ledger,
    }
}

/// The key under which the token of `data` is escrowed on the sending side.
pub open spec fn escrow_key(data: &ListNftPacketData) -> EscrowKey {
    (data.class_id@, data.token_id@)
}

/// Settles the escrow of the packet that carried `sent`, given the
/// acknowledgement as far as it could be decoded.
///
/// An acknowledgement that reports an error, or data that is no
/// acknowledgement at all, takes the escrow back. One that reports success
/// leaves the ledger as it is.
pub fn settle(
    ledger: &mut Ledger,
    sent: &ListNftPacketData,
    decoded: Option<Acknowledgement>,
) -> (outcome: Settlement)
    ensures
        outcome@ == settlement(reported_error(decoded_view(decoded))),
        final(ledger)@ == settled(
            old(ledger)@,
            escrow_key(sent),
            reported_error(decoded_view(decoded)),
        ),
{
    match ack_error(decoded) {
        Some(reason) => {
            ledger.remove_outgoing(sent.class_id.as_str(), sent.token_id.as_str());
            Settlement::Reverted { reason }
        },
        None => Settlement::Kept,
    }
}

/// Handles the acknowledgement that the remote side gave for the packet that
/// carried `sent`.
pub fn ibc_packet_ack(
    ledger: &mut Ledger,
    sent: &ListNftPacketData,
    acknowledgement: &[u8],
) -> (outcome: Settlement)
    ensures
        outcome@ == settlement(reported_error(ack_decoding(acknowledgement@))),
        final(ledger)@ == settled(
            old(ledger)@,
            escrow_key(sent),
            reported_error(ack_decoding(acknowledgement@)),
        ),
{
    settle(ledger, sent, decode_ack(acknowledgement))
}

/// Handles the timeout of the packet that carried `sent`: the escrow is
/// taken back.
pub fn ibc_packet_timeout(ledger: &mut Ledger, sent: &ListNftPacketData) -> (outcome:
    Settlement)
    ensures
        outcome@ == (SettlementView::Reverted { reason: "timeout"@ }),
        final(ledger)@ == reverted(old(ledger)@, escrow_key(sent)),
{
    ledger.remove_outgoing(sent.class_id.as_str(), sent.token_id.as_str());
    Settlement::Reverted { reason: "timeout".to_owned() }
}

} // verus!
