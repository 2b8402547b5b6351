//! The escrow ledger over time.
//!
//! Every entry point changes the escrow tables by at most one event: a token
//! is sent away, comes home, arrives fresh, or has its sending taken back.
//! This module states what the tables hold after any run of such events.

use vstd::prelude::*;

use crate::contract::{class_id_for, dispatch, DepositView, Dispatch};
use crate::ledger::{can_hold, EscrowKey, LedgerState};
use crate::packet::PacketView;
use crate::receive::{resolve, ActionView, Resolution};
use crate::settle::{reverted, settled};

verus! {

/// One change of the escrow tables.
pub enum Event {
    /// A deposited token was sent away on `channel`.
    Sent { key: EscrowKey, channel: Seq<char> },
    /// A token that had been sent away came home.
    Returned { key: EscrowKey },
    /// The sending of a token was taken back, after an acknowledgement of
    /// failure or a timeout.
    RolledBack { key: EscrowKey },
    /// A token arrived fresh on `channel`.
    Arrived { key: EscrowKey, channel: Seq<char> },
}

impl Event {
    /// The event puts the token under `key` into escrow.
    pub open spec fn escrows(self, key: EscrowKey) -> bool {
        self matches Event::Sent { key: sent, .. } && sent == key
    }

    /// The event takes the token under `key` out of escrow.
    pub open spec fn releases(self, key: EscrowKey) -> bool {
        match self {
            Event::Returned { key: released } => released == key,
            Event::RolledBack { key: released } => released == key,
            _ => false,
        }
    }
}

/// The ledger after one event.
pub open spec fn step(ledger: LedgerState, event: Event) -> LedgerState {
    match event {
        Event::Sent { key, channel } => ledger.with_outgoing(key, channel),
        Event::Returned { key } => ledger.without_outgoing(key),
        Event::RolledBack { key } => ledger.without_outgoing(key),
        Event::Arrived { key, channel } => ledger.with_incoming(key, channel),
    }
}

/// The ledger after a run of events, the first one first.
pub open spec fn replay(ledger: LedgerState, events: Seq<Event>) -> LedgerState
    decreases events.len(),
{
    if events.len() == 0 {
        ledger
    } else {
        step(replay(ledger, events.drop_last()), events.last())
    }
}

/// The event at `at` sent the token under `key` away on `channel`, and no
/// later event of `events` sent it again or took it out of escrow.
pub open spec fn holds_in_escrow(
    events: Seq<Event>,
    at: int,
    key: EscrowKey,
    channel: Seq<char>,
) -> bool {
    &&& 0 <= at < events.len()
    &&& events[at] == (Event::Sent { key, channel })
    &&& forall|later: int|
        at < later < events.len() ==> !(#[trigger] events[later]).escrows(key)
            && !events[later].releases(key)
}

/// The token under `key` was sent away on `channel` in the course of `events`
/// and has neither come home nor been rolled back since.
pub open spec fn in_escrow(events: Seq<Event>, key: EscrowKey, channel: Seq<char>) -> bool {
    exists|at: int| holds_in_escrow(events, at, key, channel)
}

/// An outgoing entry exists exactly for the tokens that were sent away and
/// have neither come home nor been rolled back since, and it names the channel
/// of the last sending. This holds after any run of events, for every key
/// that had no entry before the run.
pub proof fn law_entry_iff_in_escrow(
    ledger: LedgerState,
    events: Seq<Event>,
    key: EscrowKey,
    channel: Seq<char>,
)
    requires
        !ledger.outgoing.contains_key(key),
    ensures
        in_escrow(events, key, channel) <==> replay(ledger, events).outgoing.contains_key(key)
            && replay(ledger, events).outgoing[key] == channel,
    decreases events.len(),
{
    if events.len() > 0 {
        let earlier = events.drop_last();
        let last = events.last();
        let n: int = events.len() - 1;
        law_entry_iff_in_escrow(ledger, earlier, key, channel);
        if in_escrow(events, key, channel) {
            let at: int = choose|at: int| holds_in_escrow(events, at, key, channel);
            if at < n {
                // The sending is among the earlier events, and the last
                // event leaves the token alone.
                assert(!events[n].escrows(key) && !events[n].releases(key));
                assert(holds_in_escrow(earlier, at, key, channel)) by {
                    assert(earlier[at] == events[at]);
                    assert forall|later: int| at < later < earlier.len() implies !(
                    #[trigger] earlier[later]).escrows(key) && !earlier[later].releases(key) by {
                        assert(earlier[later] == events[later]);
                    }
                }
            }
        }
        if last == (Event::Sent { key, channel }) {
            assert(holds_in_escrow(events, n, key, channel));
        } else if in_escrow(earlier, key, channel) && !last.escrows(key) && !last.releases(key) {
            let at: int = choose|at: int| holds_in_escrow(earlier, at, key, channel);
            assert(holds_in_escrow(events, at, key, channel)) by {
                assert(events[at] == earlier[at]);
                assert forall|later: int| at < later < events.len() implies !(
                #[trigger] events[later]).escrows(key) && !events[later].releases(key) by {
                    if later < n {
                        assert(events[later] == earlier[later]);
                    }
                }
            }
        }
    }
}

/// Settling a packet changes the ledger by one event: the token comes home
/// when the action is to release it, and arrives fresh when the action is to
/// mint it. A packet that is not settled changes nothing.
pub proof fn law_receive_is_one_event(ledger: LedgerState, packet: PacketView)
    ensures
        match resolve(ledger, packet) {
            Resolution::Settled {
                action: ActionView::Transfer { class_id, token_id },
                ledger: after,
            } => after == step(ledger, Event::Returned { key: (class_id, token_id) }),
            Resolution::Settled {
                action: ActionView::InstantiateAndMint { class_id, token_id, .. },
                ledger: after,
            } => after == step(
                ledger,
                Event::Arrived { key: (class_id, token_id), channel: packet.dest.channel_id },
            ),
            Resolution::Rejected { .. } => true,
            Resolution::Halted => true,
        },
{
}

/// Sending a deposit changes the escrow tables by one event: the token is
/// sent away on the channel of the packet, under the class identifier that the
/// packet carries. A deposit that is not sent changes nothing.
pub proof fn law_send_is_one_event(ledger: LedgerState, deposit: DepositView)
    ensures
        match dispatch(ledger, deposit) {
            Dispatch::Sent { response, ledger: after } => {
                let sent = step(
                    ledger,
                    Event::Sent {
                        key: (response.data.class_id, response.data.token_id),
                        channel: response.channel_id,
                    },
                );
                &&& after.outgoing == sent.outgoing
                &&& after.outgoing_unreadable == sent.outgoing_unreadable
                &&& after.incoming == sent.incoming
                &&& can_hold(response.data.class_id)
            },
            Dispatch::Refused { .. } => true,
            Dispatch::Halted => true,
        },
{
}

/// Taking an escrow back changes the ledger by one event, or by none where
/// the key is one that no table can hold.
pub proof fn law_rollback_is_one_event(ledger: LedgerState, key: EscrowKey)
    ensures
        reverted(ledger, key) == if can_hold(key.0) {
            step(ledger, Event::RolledBack { key })
        } else {
            ledger
        },
{
}

/// Every sending can be taken back: after a deposit was sent, the rollback
/// that an acknowledgement of failure or a timeout triggers leaves the escrow
/// tables as they were before the deposit, provided the token was not in
/// escrow already.
pub proof fn law_rollback_undoes_send(ledger: LedgerState, deposit: DepositView)
    requires
        dispatch(ledger, deposit) is Sent,
        !ledger.outgoing.contains_key((class_id_for(ledger, deposit.collection), deposit.token_id)),
        !ledger.outgoing_unreadable.contains(
            (class_id_for(ledger, deposit.collection), deposit.token_id),
        ),
    ensures
        ({
            let key = (class_id_for(ledger, deposit.collection), deposit.token_id);
            let back = reverted(dispatch(ledger, deposit)->Sent_ledger, key);
            &&& back.outgoing == ledger.outgoing
            &&& back.outgoing_unreadable == ledger.outgoing_unreadable
            &&& back.incoming == ledger.incoming
            &&& forall|reason: Seq<char>|
                #[trigger] settled(dispatch(ledger, deposit)->Sent_ledger, key, Some(reason))
                    == back
        }),
{
    let key = (class_id_for(ledger, deposit.collection), deposit.token_id);
    let back = reverted(dispatch(ledger, deposit)->Sent_ledger, key);
    assert(back.outgoing =~= ledger.outgoing);
    assert(back.outgoing_unreadable =~= ledger.outgoing_unreadable);
}

} // verus!
