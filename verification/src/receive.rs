//! The receiving side: what to do with a transfer packet that arrives.
//!
//! An asset that left this chain on the channel it now comes back on is
//! released from escrow. Every other asset is a fresh arrival: it gets a local
//! class identifier, made of the route it arrived by and the class identifier
//! it carries, and a wrapped copy is minted under it.

use vstd::prelude::*;

use crate::ack::{ack_fail, ack_success, framed_error_ack, json_text, success_ack};
use crate::error::{ContractError, ContractErrorView};
use crate::identifier::{
    add_prefix,
    derive_prefix,
    law_prefixed_class_id_is_well_formed,
    law_strip_undoes_prefix,
    law_stripped_class_id_is_well_formed,
    prefix_of,
    strip_local_prefix,
    stripped,
    well_formed_class_id,
};
use crate::ledger::{can_hold, EscrowKey, Ledger, LedgerState};
use crate::packet::{ListNftPacketDataView, Packet, PacketView};

verus! {

/// What the NFT module is to do for a packet that was settled.
#[derive(Debug, Clone, PartialEq, Eq)]
pub enum Action {
    /// Release the escrowed token to the receiver.
    Transfer { class_id: String, token_id: String },
    /// Make sure that a wrapped collection exists for the class, then mint
    /// the token in it.
    InstantiateAndMint {
        class_id: String,
        class_uri: Option<String>,
        token_id: String,
        token_uri: String,
    },
}

/// An `Action` with its texts as sequences of characters.
pub enum ActionView {
    Transfer { class_id: Seq<char>, token_id: Seq<char> },
    InstantiateAndMint {
        class_id: Seq<char>,
        class_uri: Option<Seq<char>>,
        token_id: Seq<char>,
        token_uri: Seq<char>,
    },
}

impl View for Action {
    type V = ActionView;

    open spec fn view(&self) -> ActionView {
        match self {
            Action::Transfer { class_id, token_id } => ActionView::Transfer {
                class_id: class_id@,
                token_id: token_id@,
            },
            Action::InstantiateAndMint {
                class_id,
                class_uri,
                token_id,
                token_uri,
            } => ActionView::InstantiateAndMint {
                class_id: class_id@,
                class_uri: class_uri.deep_view(),
                token_id: token_id@,
                token_uri: token_uri@,
            },
        }
    }
}

/// How the handling of one packet ends.
pub enum Resolution {
    /// The packet is settled: one action is due and the ledger is as given.
    Settled { action: ActionView, ledger: LedgerState },
    /// The packet is refused: the ledger stays as it was and the sender is
    /// told why.
    Rejected { error: ContractErrorView },
    /// The ledger cannot be read: the ledger stays as it was and the
    /// invocation fails without an acknowledgement.
    Halted,
}

/// The key under which the asset of `data` is escrowed if it was sent away
/// from here over the route that `packet` came by: the class identifier it
/// carries, less the prefix of the sending end.
pub open spec fn returning_key(packet: PacketView, data: ListNftPacketDataView) -> Option<
    EscrowKey,
> {
    match stripped(packet.src.port_id, packet.src.channel_id, data.class_id) {
        Some(local_class_id) => Some((local_class_id, data.token_id)),
        None => None,
    }
}

/// The asset of `data` comes home with `packet`: it is escrowed here, against
/// the very channel that the packet is delivered on.
pub open spec fn is_return(
    ledger: LedgerState,
    packet: PacketView,
    data: ListNftPacketDataView,
) -> bool {
    match returning_key(packet, data) {
        Some(key) => ledger.outgoing_channel(key) == Some(packet.dest.channel_id),
        None => false,
    }
}

/// The local class identifier of an asset that arrives fresh: the class
/// identifier it carries behind the prefix of the receiving end.
pub open spec fn fresh_class_id(packet: PacketView, data: ListNftPacketDataView) -> Seq<char> {
    prefix_of(packet.dest.port_id, packet.dest.channel_id) + data.class_id
}

/// How the handling of `packet` ends on a ledger that holds `ledger`.
pub open spec fn resolve(ledger: LedgerState, packet: PacketView) -> Resolution {
    match packet.data {
        Err(reason) => Resolution::Rejected { error: ContractErrorView::PayloadParse { reason } },
        Ok(data) => if !packet.src.is_valid() {
            Resolution::Rejected {
                error: ContractErrorView::IdentifierFormat {
                    identifier: prefix_of(packet.src.port_id, packet.src.channel_id),
                },
            }
        } else if !packet.dest.is_valid() {
            Resolution::Rejected {
                error: ContractErrorView::IdentifierFormat {
                    identifier: prefix_of(packet.dest.port_id, packet.dest.channel_id),
                },
            }
        } else if !well_formed_class_id(data.class_id) {
            Resolution::Rejected {
                error: ContractErrorView::IdentifierFormat { identifier: data.class_id },
            }
        } else if returning_key(packet, data) is Some && ledger.outgoing_damaged(
            returning_key(packet, data)->0,
        ) {
            Resolution::Halted
        } else if is_return(ledger, packet, data) {
            let key = returning_key(packet, data)->0;
            Resolution::Settled {
                action: ActionView::Transfer { class_id: key.0, token_id: key.1 },
                ledger: ledger.without_outgoing(key),
            }
        } else if !can_hold(fresh_class_id(packet, data)) {
            Resolution::Rejected {
                error: ContractErrorView::IdentifierFormat {
                    identifier: fresh_class_id(packet, data),
                },
            }
        } else {
            Resolution::Settled {
                action: ActionView::InstantiateAndMint {
                    class_id: fresh_class_id(packet, data),
                    class_uri: data.class_uri,
                    token_id: data.token_id,
                    token_uri: data.token_uri,
                },
                ledger: ledger.with_incoming(
                    (fresh_class_id(packet, data), data.token_id),
                    packet.dest.channel_id,
                ),
            }
        },
    }
}

/// Settles one packet against the ledger.
///
/// The ledger is written only when the packet is settled, and then before the
/// action is handed out. A refusal and a failure of the host leave it as it
/// was.
pub fn do_ibc_packet_receive(ledger: &mut Ledger, packet: Packet) -> (r: Result<
    Action,
    ContractError,
>)
    ensures
        match resolve(old(ledger)@, packet@) {
            Resolution::Settled { action, ledger: after } => r matches Ok(done) && done@ == action
                && final(ledger)@ == after,
            Resolution::Rejected { error } => r matches Err(e) && e@ == error && final(ledger)@
                == old(ledger)@,
            Resolution::Halted => r matches Err(e) && e@ is Host && final(ledger)@ == old(
                ledger,
            )@,
        },
{
    let Packet { data, src, dest } = packet;
    let data = match data {
        Ok(data) => data,
        Err(reason) => {
            return Err(ContractError::PayloadParse { reason });
        },
    };
    if !src.is_valid() {
        return Err(
            ContractError::IdentifierFormat {
                identifier: derive_prefix(src.port_id.as_str(), src.channel_id.as_str()),
            },
        );
    }
    if !dest.is_valid() {
        return Err(
            ContractError::IdentifierFormat {
                identifier: derive_prefix(dest.port_id.as_str(), dest.channel_id.as_str()),
            },
        );
    }
    let local_class_id = match strip_local_prefix(
        src.port_id.as_str(),
        src.channel_id.as_str(),
        data.class_id.as_str(),
    ) {
        Ok(local_class_id) => local_class_id,
        Err(e) => {
            return Err(e);
        },
    };
    if let Some(local_class_id) = local_class_id {
        let outgoing_channel = match ledger.get_outgoing_channel(
            local_class_id.as_str(),
            data.token_id.as_str(),
        ) {
            Ok(outgoing_channel) => outgoing_channel,
            Err(e) => {
                return Err(e);
            },
        };
        let returning_to_source = match outgoing_channel {
            Some(outgoing_channel) => outgoing_channel == dest.channel_id,
            None => false,
        };
        if returning_to_source {
            // We sent this token out on this channel: release the local one.
            ledger.remove_outgoing(local_class_id.as_str(), data.token_id.as_str());
            return Ok(Action::Transfer { class_id: local_class_id, token_id: data.token_id });
        }
    }
    // Nothing we sent out before: mint a wrapped token.
    let local_class_id = add_prefix(
        dest.port_id.as_str(),
        dest.channel_id.as_str(),
        data.class_id.as_str(),
    );
    match ledger.set_incoming(
        local_class_id.as_str(),
        data.token_id.as_str(),
        dest.channel_id.as_str(),
    ) {
        Ok(()) => Ok(
            Action::InstantiateAndMint {
                class_id: local_class_id,
                class_uri: data.class_uri,
                token_id: data.token_id,
                token_uri: data.token_uri,
            },
        ),
        Err(e) => Err(e),
    }
}

/// What the receiving side hands back to the host for one packet.
#[derive(Debug, Clone, PartialEq, Eq)]
pub struct ReceiveResponse {
    /// The acknowledgement to commit for the packet.
    pub acknowledgement: Vec<u8>,
    /// What the NFT module is to do; nothing for a packet that was refused.
    pub action: Option<Action>,
    /// Why the packet was refused; nothing for a packet that was settled.
    pub error: Option<String>,
}

impl ReceiveResponse {
    /// The response is the one for a settled packet with the action `action`.
    pub open spec fn settles(self, action: ActionView) -> bool {
        &&& self.acknowledgement@ == success_ack()
        &&& self.action matches Some(due) && due@ == action
        &&& self.error is None
    }

    /// The response is the one for a packet refused with the text `text`.
    pub open spec fn refuses(self, text: Seq<char>) -> bool {
        &&& self.acknowledgement@ == framed_error_ack(json_text(text))
        &&& self.action is None
        &&& self.error matches Some(shown) && shown@ == text
    }
}

/// The response that refuses a packet for the reason `error`: an
/// acknowledgement of failure with the text of the error, and no action.
pub fn refusal(error: &ContractError) -> (response: ReceiveResponse)
    ensures
        response.refuses(error@.text()),
        response.acknowledgement@ != success_ack(),
{
    let text = error.message();
    let acknowledgement = ack_fail(text.as_str());
    ReceiveResponse { acknowledgement, action: None, error: Some(text) }
}

/// Handles one packet that the host delivers.
///
/// Whatever the packet holds, it gets an acknowledgement: the one of success
/// with the action that settles it, or one of failure with the reason, in
/// which case the ledger is as before. Only a ledger that cannot be read makes
/// the invocation fail.
pub fn ibc_packet_receive(ledger: &mut Ledger, packet: Packet) -> (r: Result<
    ReceiveResponse,
    ContractError,
>)
    ensures
        match resolve(old(ledger)@, packet@) {
            Resolution::Settled { action, ledger: after } => r matches Ok(response)
                && response.settles(action) && final(ledger)@ == after,
            Resolution::Rejected { error } => r matches Ok(response) && response.refuses(
                error.text(),
            ) && final(ledger)@ == old(ledger)@,
            Resolution::Halted => r matches Err(e) && e@ is Host && final(ledger)@ == old(
                ledger,
            )@,
        },
        r matches Ok(response) ==> (response.acknowledgement@ == success_ack()
            <==> response.action is Some),
{
    // Whether or not the packet can be settled, an acknowledgement has to be
    // committed: a refusal becomes an acknowledgement of failure.
    match do_ibc_packet_receive(ledger, packet) {
        Ok(action) => Ok(
            ReceiveResponse { acknowledgement: ack_success(), action: Some(action), error: None },
        ),
        Err(ContractError::Host { reason }) => Err(ContractError::Host { reason }),
        Err(error) => Ok(refusal(&error)),
    }
}

/// A token that was sent away on a channel and comes back on that channel is
/// released and nothing is minted: the outgoing entry goes and the incoming
/// table stays as it is.
pub proof fn law_return_on_same_channel_unlocks(
    ledger: LedgerState,
    packet: PacketView,
    class_id: Seq<char>,
    token_id: Seq<char>,
)
    requires
        packet.src.is_valid(),
        packet.dest.is_valid(),
        packet.data is Ok,
        packet.data->Ok_0.token_id == token_id,
        packet.data->Ok_0.class_id == prefix_of(packet.src.port_id, packet.src.channel_id)
            + class_id,
        well_formed_class_id(packet.data->Ok_0.class_id),
        ledger.outgoing_channel((class_id, token_id)) == Some(packet.dest.channel_id),
        !ledger.outgoing_damaged((class_id, token_id)),
    ensures
        resolve(ledger, packet) == (Resolution::Settled {
            action: ActionView::Transfer { class_id, token_id },
            ledger: ledger.without_outgoing((class_id, token_id)),
        }),
        ledger.without_outgoing((class_id, token_id)).incoming == ledger.incoming,
        !ledger.without_outgoing((class_id, token_id)).outgoing.contains_key((class_id, token_id)),
{
    law_strip_undoes_prefix(packet.src.port_id, packet.src.channel_id, class_id);
}

/// A token that was sent away on one channel and comes back on another is a
/// fresh arrival: a wrapped token is minted under the class identifier with
/// both prefixes, that of the receiving end in front of that of the sending
/// end, and the outgoing entry stays.
pub proof fn law_return_on_other_channel_mints(
    ledger: LedgerState,
    packet: PacketView,
    class_id: Seq<char>,
    token_id: Seq<char>,
)
    requires
        packet.src.is_valid(),
        packet.dest.is_valid(),
        packet.data is Ok,
        packet.data->Ok_0.token_id == token_id,
        packet.data->Ok_0.class_id == prefix_of(packet.src.port_id, packet.src.channel_id)
            + class_id,
        well_formed_class_id(packet.data->Ok_0.class_id),
        ledger.outgoing_channel((class_id, token_id)) is Some,
        ledger.outgoing_channel((class_id, token_id)) != Some(packet.dest.channel_id),
        !ledger.outgoing_damaged((class_id, token_id)),
        can_hold(fresh_class_id(packet, packet.data->Ok_0)),
    ensures
        fresh_class_id(packet, packet.data->Ok_0) == prefix_of(
            packet.dest.port_id,
            packet.dest.channel_id,
        ) + (prefix_of(packet.src.port_id, packet.src.channel_id) + class_id),
        resolve(ledger, packet) matches Resolution::Settled {
            action: ActionView::InstantiateAndMint { class_id: minted, token_id: token, .. },
            ledger: after,
        } && minted == fresh_class_id(packet, packet.data->Ok_0) && token == token_id
            && after.outgoing == ledger.outgoing && after.incoming == ledger.incoming.insert(
            (minted, token_id),
            packet.dest.channel_id,
        ),
{
    law_strip_undoes_prefix(packet.src.port_id, packet.src.channel_id, class_id);
}

/// A token is released only when it comes home: the class identifier that the
/// packet carries is the released one behind the prefix of the sending end,
/// and the token is escrowed against the very channel that the packet is
/// delivered on. A matching prefix alone releases nothing.
pub proof fn law_release_only_on_return(ledger: LedgerState, packet: PacketView)
    ensures
        resolve(ledger, packet) matches Resolution::Settled {
            action: ActionView::Transfer { class_id, token_id },
            ..
        } ==> {
            &&& packet.data matches Ok(data) && data.token_id == token_id && data.class_id
                == prefix_of(packet.src.port_id, packet.src.channel_id) + class_id
            &&& ledger.outgoing.contains_key((class_id, token_id))
            &&& ledger.outgoing[(class_id, token_id)] == packet.dest.channel_id
        },
{
    if let Resolution::Settled { action: ActionView::Transfer { class_id, token_id }, .. } =
        resolve(ledger, packet) {
        let data = packet.data->Ok_0;
        let prefix = prefix_of(packet.src.port_id, packet.src.channel_id);
        assert(data.class_id =~= prefix + data.class_id.skip(prefix.len() as int));
    }
}

/// The class identifier under which a packet is settled is well-formed and
/// fits a key of the ledger, whether the token is released or minted.
pub proof fn law_settled_class_id_is_well_formed(ledger: LedgerState, packet: PacketView)
    ensures
        match resolve(ledger, packet) {
            Resolution::Settled {
                action: ActionView::Transfer { class_id, .. },
                ..
            } => well_formed_class_id(class_id) && can_hold(class_id),
            Resolution::Settled {
                action: ActionView::InstantiateAndMint { class_id, .. },
                ..
            } => well_formed_class_id(class_id) && can_hold(class_id),
            Resolution::Rejected { .. } => true,
            Resolution::Halted => true,
        },
{
    if let Resolution::Settled { action, .. } = resolve(ledger, packet) {
        let data = packet.data->Ok_0;
        match action {
            ActionView::Transfer { .. } => {
                law_stripped_class_id_is_well_formed(
                    packet.src.port_id,
                    packet.src.channel_id,
                    data.class_id,
                );
            },
            ActionView::InstantiateAndMint { .. } => {
                law_prefixed_class_id_is_well_formed(
                    packet.dest.port_id,
                    packet.dest.channel_id,
                    data.class_id,
                );
            },
        }
    }
}

} // verus!
