//! The escrow ledger and the class registry, kept in the host's storage.
//!
//! The tables live in the key-value storage that the host hands to every
//! entry point, under the namespaces and in the encoding of `cw-storage-plus`.
//! This module names what the tables hold and states what each access does to
//! them; everything else in the library works against those statements.

use vstd::prelude::*;
use vstd::string::*;

use crate::error::{ContractError, ContractErrorView};

verus! {

/// The error type of `cosmwasm-std`.
#[verifier::external_type_specification]
#[verifier::external_body]
pub struct ExStdError(cosmwasm_std::StdError);

/// The bridge's tables inside the host's storage.
///
/// An entry point makes one around the storage that the host hands it for the
/// invocation. The library reaches the storage through the functions of this
/// module only; what the tables hold is named by the functions below.
#[verifier::external_body]
pub struct Ledger<'a> {
    pub storage: &'a mut dyn cosmwasm_std::Storage,
}

/// A class identifier and a token identifier: the key of both escrow tables.
pub type EscrowKey = (Seq<char>, Seq<char>);

/// The longest first part of a key, in bytes, that the storage encoding takes.
pub const MAX_CLASS_ID_BYTES: usize = 0xFFFF;

/// Tells whether `class_id` can be the first part of a key.
pub open spec fn can_hold(class_id: Seq<char>) -> bool {
    vstd::utf8::encode_utf8(class_id).len() <= MAX_CLASS_ID_BYTES
}

/// The outgoing escrow entries that can be read: for each asset sent away, the
/// local channel it left on.
pub uninterp spec fn outgoing_entries(ledger: &Ledger) -> Map<EscrowKey, Seq<char>>;

/// The keys of the outgoing table whose stored value cannot be read back.
pub uninterp spec fn outgoing_unreadable(ledger: &Ledger) -> Set<EscrowKey>;

/// The incoming records that can be read: for each asset that arrived, under
/// its local class identifier, the local channel it arrived on.
pub uninterp spec fn incoming_entries(ledger: &Ledger) -> Map<EscrowKey, Seq<char>>;

/// The class identifier registered for each collection, where it can be read.
pub uninterp spec fn class_id_entries(ledger: &Ledger) -> Map<Seq<char>, Seq<char>>;

/// The collections whose registered class identifier cannot be read back.
pub uninterp spec fn class_id_unreadable(ledger: &Ledger) -> Set<Seq<char>>;

/// The collection registered for each class identifier, where it can be read.
pub uninterp spec fn collection_entries(ledger: &Ledger) -> Map<Seq<char>, Seq<char>>;

/// The class-level metadata URI recorded for each class identifier, where it
/// can be read. A class may be recorded as having none.
pub uninterp spec fn class_uri_entries(ledger: &Ledger) -> Map<Seq<char>, Option<Seq<char>>>;

/// The class identifiers whose recorded URI cannot be read back.
pub uninterp spec fn class_uri_unreadable(ledger: &Ledger) -> Set<Seq<char>>;

/// The code that wrapped collections are instantiated from, once it has been
/// stored.
pub uninterp spec fn code_id_entry(ledger: &Ledger) -> Option<u64>;

/// The name and the version of the contract, once they have been stored.
pub uninterp spec fn version_entry(ledger: &Ledger) -> Option<(Seq<char>, Seq<char>)>;

/// Everything the tables hold, as one value.
pub struct LedgerState {
    pub outgoing: Map<EscrowKey, Seq<char>>,
    pub outgoing_unreadable: Set<EscrowKey>,
    pub incoming: Map<EscrowKey, Seq<char>>,
    pub class_ids: Map<Seq<char>, Seq<char>>,
    pub class_ids_unreadable: Set<Seq<char>>,
    pub collections: Map<Seq<char>, Seq<char>>,
    pub class_uris: Map<Seq<char>, Option<Seq<char>>>,
    pub class_uris_unreadable: Set<Seq<char>>,
    pub code_id: Option<u64>,
    pub contract_version: Option<(Seq<char>, Seq<char>)>,
}

impl<'a> View for Ledger<'a> {
    type V = LedgerState;

    open spec fn view(&self) -> LedgerState {
        LedgerState {
            outgoing: outgoing_entries(self),
            outgoing_unreadable: outgoing_unreadable(self),
            incoming: incoming_entries(self),
            class_ids: class_id_entries(self),
            class_ids_unreadable: class_id_unreadable(self),
            collections: collection_entries(self),
            class_uris: class_uri_entries(self),
            class_uris_unreadable: class_uri_unreadable(self),
            code_id: code_id_entry(self),
            contract_version: version_entry(self),
        }
    }
}

/// The two escrow tables of `a` and `b` hold the same.
pub open spec fn same_escrow(a: &Ledger, b: &Ledger) -> bool {
    &&& outgoing_entries(a) == outgoing_entries(b)
    &&& outgoing_unreadable(a) == outgoing_unreadable(b)
    &&& incoming_entries(a) == incoming_entries(b)
}

/// The class registry of `a` and `b` holds the same.
pub open spec fn same_registry(a: &Ledger, b: &Ledger) -> bool {
    &&& class_id_entries(a) == class_id_entries(b)
    &&& class_id_unreadable(a) == class_id_unreadable(b)
    &&& collection_entries(a) == collection_entries(b)
    &&& class_uri_entries(a) == class_uri_entries(b)
    &&& class_uri_unreadable(a) == class_uri_unreadable(b)
}

/// What was stored when the contract was set up is the same in `a` and `b`.
pub open spec fn same_setup(a: &Ledger, b: &Ledger) -> bool {
    &&& code_id_entry(a) == code_id_entry(b)
    &&& version_entry(a) == version_entry(b)
}

/// `Map::may_load` of `cw-storage-plus` on the outgoing table: the channel
/// stored under the key if one is stored and can be parsed, nothing if the key
/// is absent, and an error if the stored bytes cannot be parsed. The key
/// encoding panics on a first part above the limit, which `requires` excludes.
#[verifier::external_body]
fn outgoing_may_load(ledger: &Ledger, class_id: &str, token_id: &str) -> (r: Result<
    Option<String>,
    cosmwasm_std::StdError,
>)
    requires
        can_hold(class_id@),
    ensures
        match r {
            Ok(Some(channel)) => outgoing_entries(ledger).contains_key((class_id@, token_id@))
                && outgoing_entries(ledger)[(class_id@, token_id@)] == channel@
                && !outgoing_unreadable(ledger).contains((class_id@, token_id@)),
            Ok(None) => !outgoing_entries(ledger).contains_key((class_id@, token_id@))
                && !outgoing_unreadable(ledger).contains((class_id@, token_id@)),
            Err(_) => outgoing_unreadable(ledger).contains((class_id@, token_id@))
                && !outgoing_entries(ledger).contains_key((class_id@, token_id@)),
        },
{
    cw_storage_plus::Map::<(String, String), String>::new("outgoing_class_token_to_channel")
        .may_load(ledger.storage, (class_id.to_string(), token_id.to_string()))
}

/// `Map::save` of `cw-storage-plus` on the outgoing table: the key holds the
/// channel afterwards and every other key and table is as before. Saving a
/// string cannot fail: the JSON encoder has no failing path for one.
#[verifier::external_body]
fn outgoing_save(ledger: &mut Ledger, class_id: &str, token_id: &str, channel: &str) -> (r: Result<
    (),
    cosmwasm_std::StdError,
>)
    requires
        can_hold(class_id@),
    ensures
        r is Ok,
        outgoing_entries(final(ledger)) == outgoing_entries(old(ledger)).insert(
            (class_id@, token_id@),
            channel@,
        ),
        outgoing_unreadable(final(ledger)) == outgoing_unreadable(old(ledger)).remove(
            (class_id@, token_id@),
        ),
        incoming_entries(final(ledger)) == incoming_entries(old(ledger)),
        same_registry(final(ledger), old(ledger)),
        same_setup(final(ledger), old(ledger)),
{
    cw_storage_plus::Map::<(String, String), String>::new("outgoing_class_token_to_channel").save(
        ledger.storage,
        (class_id.to_string(), token_id.to_string()),
        &channel.to_string(),
    )
}

/// `Map::remove` of `cw-storage-plus` on the outgoing table: the key is absent
/// afterwards and every other key and table is as before.
#[verifier::external_body]
fn outgoing_remove(ledger: &mut Ledger, class_id: &str, token_id: &str)
    requires
        can_hold(class_id@),
    ensures
        outgoing_entries(final(ledger)) == outgoing_entries(old(ledger)).remove(
            (class_id@, token_id@),
        ),
        outgoing_unreadable(final(ledger)) == outgoing_unreadable(old(ledger)).remove(
            (class_id@, token_id@),
        ),
        incoming_entries(final(ledger)) == incoming_entries(old(ledger)),
        same_registry(final(ledger), old(ledger)),
        same_setup(final(ledger), old(ledger)),
{
    cw_storage_plus::Map::<(String, String), String>::new("outgoing_class_token_to_channel")
        .remove(ledger.storage, (class_id.to_string(), token_id.to_string()))
}

/// `Map::save` of `cw-storage-plus` on the incoming table: the key holds the
/// channel afterwards and every other key and table is as before. Saving a
/// string cannot fail.
#[verifier::external_body]
fn incoming_save(ledger: &mut Ledger, class_id: &str, token_id: &str, channel: &str) -> (r: Result<
    (),
    cosmwasm_std::StdError,
>)
    requires
        can_hold(class_id@),
    ensures
        r is Ok,
        incoming_entries(final(ledger)) == incoming_entries(old(ledger)).insert(
            (class_id@, token_id@),
            channel@,
        ),
        outgoing_entries(final(ledger)) == outgoing_entries(old(ledger)),
        outgoing_unreadable(final(ledger)) == outgoing_unreadable(old(ledger)),
        same_registry(final(ledger), old(ledger)),
        same_setup(final(ledger), old(ledger)),
{
    cw_storage_plus::Map::<(String, String), String>::new("incoming_class_token_to_channel").save(
        ledger.storage,
        (class_id.to_string(), token_id.to_string()),
        &channel.to_string(),
    )
}

/// `Map::may_load` of `cw-storage-plus` on the table of class identifiers by
/// collection: the class identifier stored for the collection if one is stored
/// and can be parsed, nothing if there is none, and an error if the stored
/// bytes cannot be parsed.
#[verifier::external_body]
fn class_id_may_load(ledger: &Ledger, collection: &str) -> (r: Result<
    Option<String>,
    cosmwasm_std::StdError,
>)
    ensures
        match r {
            Ok(Some(class_id)) => class_id_entries(ledger).contains_key(collection@)
                && class_id_entries(ledger)[collection@] == class_id@ && !class_id_unreadable(
                ledger,
            ).contains(collection@),
            Ok(None) => !class_id_entries(ledger).contains_key(collection@)
                && !class_id_unreadable(ledger).contains(collection@),
            Err(_) => class_id_unreadable(ledger).contains(collection@) && !class_id_entries(
                ledger,
            ).contains_key(collection@),
        },
{
    cw_storage_plus::Map::<cosmwasm_std::Addr, String>::new("contract_to_class_id").may_load(
        ledger.storage,
        cosmwasm_std::Addr::unchecked(collection),
    )
}

/// `Map::save` of `cw-storage-plus` on the table of class identifiers by
/// collection: the collection holds the class identifier afterwards and every
/// other key and table is as before. Saving a string cannot fail.
#[verifier::external_body]
fn class_id_save(ledger: &mut Ledger, collection: &str, class_id: &str) -> (r: Result<
    (),
    cosmwasm_std::StdError,
>)
    ensures
        r is Ok,
        class_id_entries(final(ledger)) == class_id_entries(old(ledger)).insert(
            collection@,
            class_id@,
        ),
        class_id_unreadable(final(ledger)) == class_id_unreadable(old(ledger)).remove(
            collection@,
        ),
        collection_entries(final(ledger)) == collection_entries(old(ledger)),
        class_uri_entries(final(ledger)) == class_uri_entries(old(ledger)),
        class_uri_unreadable(final(ledger)) == class_uri_unreadable(old(ledger)),
        same_escrow(final(ledger), old(ledger)),
        same_setup(final(ledger), old(ledger)),
{
    cw_storage_plus::Map::<cosmwasm_std::Addr, String>::new("contract_to_class_id").save(
        ledger.storage,
        cosmwasm_std::Addr::unchecked(collection),
        &class_id.to_string(),
    )
}

/// `Map::save` of `cw-storage-plus` on the table of collections by class
/// identifier: the class identifier holds the collection afterwards and every
/// other key and table is as before. Saving an address, which is a string,
/// cannot fail.
#[verifier::external_body]
fn collection_save(ledger: &mut Ledger, class_id: &str, collection: &str) -> (r: Result<
    (),
    cosmwasm_std::StdError,
>)
    ensures
        r is Ok,
        collection_entries(final(ledger)) == collection_entries(old(ledger)).insert(
            class_id@,
            collection@,
        ),
        class_id_entries(final(ledger)) == class_id_entries(old(ledger)),
        class_id_unreadable(final(ledger)) == class_id_unreadable(old(ledger)),
        class_uri_entries(final(ledger)) == class_uri_entries(old(ledger)),
        class_uri_unreadable(final(ledger)) == class_uri_unreadable(old(ledger)),
        same_escrow(final(ledger), old(ledger)),
        same_setup(final(ledger), old(ledger)),
{
    cw_storage_plus::Map::<String, cosmwasm_std::Addr>::new("class_id_to_contract").save(
        ledger.storage,
        class_id.to_string(),
        &cosmwasm_std::Addr::unchecked(collection),
    )
}

/// `Map::may_load` of `cw-storage-plus` on the table of class-level URIs: what
/// is recorded for the class identifier if something is and can be parsed,
/// nothing if the key is absent, and an error if the stored bytes cannot be
/// parsed.
#[verifier::external_body]
fn class_uri_may_load(ledger: &Ledger, class_id: &str) -> (r: Result<
    Option<Option<String>>,
    cosmwasm_std::StdError,
>)
    ensures
        match r {
            Ok(Some(recorded)) => class_uri_entries(ledger).contains_key(class_id@) && (
            match recorded {
                Some(uri) => class_uri_entries(ledger)[class_id@] == Some(uri@),
                None => class_uri_entries(ledger)[class_id@] is None,
            }) && !class_uri_unreadable(ledger).contains(class_id@),
            Ok(None) => !class_uri_entries(ledger).contains_key(class_id@)
                && !class_uri_unreadable(ledger).contains(class_id@),
            Err(_) => class_uri_unreadable(ledger).contains(class_id@) && !class_uri_entries(
                ledger,
            ).contains_key(class_id@),
        },
{
    cw_storage_plus::Map::<String, Option<String>>::new("class_id_to_class_uri").may_load(
        ledger.storage,
        class_id.to_string(),
    )
}

/// `Map::save` of `cw-storage-plus` on the table of class-level URIs, with no
/// URI: the class identifier is recorded as having none afterwards and every
/// other key and table is as before. Saving an absent value cannot fail.
#[verifier::external_body]
fn class_uri_save_none(ledger: &mut Ledger, class_id: &str) -> (r: Result<
    (),
    cosmwasm_std::StdError,
>)
    ensures
        r is Ok,
        class_uri_entries(final(ledger)) == class_uri_entries(old(ledger)).insert(
            class_id@,
            None,
        ),
        class_uri_unreadable(final(ledger)) == class_uri_unreadable(old(ledger)).remove(
            class_id@,
        ),
        class_id_entries(final(ledger)) == class_id_entries(old(ledger)),
        class_id_unreadable(final(ledger)) == class_id_unreadable(old(ledger)),
        collection_entries(final(ledger)) == collection_entries(old(ledger)),
        same_escrow(final(ledger), old(ledger)),
        same_setup(final(ledger), old(ledger)),
{
    cw_storage_plus::Map::<String, Option<String>>::new("class_id_to_class_uri").save(
        ledger.storage,
        class_id.to_string(),
        &None,
    )
}

/// `Item::save` of `cw-storage-plus` on the code identifier: it is stored
/// afterwards and every table is as before. Saving a number cannot fail.
#[verifier::external_body]
fn code_id_save(ledger: &mut Ledger, code_id: u64) -> (r: Result<(), cosmwasm_std::StdError>)
    ensures
        r is Ok,
        code_id_entry(final(ledger)) == Some(code_id),
        version_entry(final(ledger)) == version_entry(old(ledger)),
        same_escrow(final(ledger), old(ledger)),
        same_registry(final(ledger), old(ledger)),
{
    cw_storage_plus::Item::<u64>::new("cw721_code_id").save(ledger.storage, &code_id)
}

/// `set_contract_version` of `cw2`: name and version are stored afterwards
/// and every table is as before. Saving two strings cannot fail.
#[verifier::external_body]
fn contract_version_save(ledger: &mut Ledger, name: &str, version: &str) -> (r: Result<
    (),
    cosmwasm_std::StdError,
>)
    ensures
        r is Ok,
        version_entry(final(ledger)) == Some((name@, version@)),
        code_id_entry(final(ledger)) == code_id_entry(old(ledger)),
        same_escrow(final(ledger), old(ledger)),
        same_registry(final(ledger), old(ledger)),
{
    cw2::set_contract_version(ledger.storage, name, version)
}

/// The text of a `StdError`, through its `Display` impl. Nothing is claimed
/// of it.
#[verifier::external_body]
fn std_error_text(error: &cosmwasm_std::StdError) -> (text: String) {
    error.to_string()
}

/// Tells whether `class_id` can be the first part of a key.
pub fn fits_key(class_id: &str) -> (ok: bool)
    ensures
        ok == can_hold(class_id@),
{
    class_id.as_bytes().len() <= MAX_CLASS_ID_BYTES
}

impl LedgerState {
    /// The channel that the asset under `key` is escrowed against, if it is
    /// escrowed and the entry can be read.
    pub open spec fn outgoing_channel(self, key: EscrowKey) -> Option<Seq<char>> {
        if can_hold(key.0) && self.outgoing.contains_key(key) {
            Some(self.outgoing[key])
        } else {
            None
        }
    }

    /// The outgoing entry under `key` is there but cannot be read.
    pub open spec fn outgoing_damaged(self, key: EscrowKey) -> bool {
        can_hold(key.0) && self.outgoing_unreadable.contains(key)
    }

    /// The state after an outgoing entry for `key` has been written.
    pub open spec fn with_outgoing(self, key: EscrowKey, channel: Seq<char>) -> LedgerState {
        LedgerState {
            outgoing: self.outgoing.insert(key, channel),
            outgoing_unreadable: self.outgoing_unreadable.remove(key),
            ..self
        }
    }

    /// The state after the outgoing entry for `key` has been removed.
    pub open spec fn without_outgoing(self, key: EscrowKey) -> LedgerState {
        LedgerState {
            outgoing: self.outgoing.remove(key),
            outgoing_unreadable: self.outgoing_unreadable.remove(key),
            ..self
        }
    }

    /// The state after an incoming record for `key` has been written.
    pub open spec fn with_incoming(self, key: EscrowKey, channel: Seq<char>) -> LedgerState {
        LedgerState { incoming: self.incoming.insert(key, channel), ..self }
    }

    /// The state after the contract has been set up.
    pub open spec fn set_up(self, name: Seq<char>, version: Seq<char>, code_id: u64) -> LedgerState {
        LedgerState { code_id: Some(code_id), contract_version: Some((name, version)), ..self }
    }

    /// The class identifier that is registered for `collection`, if one is
    /// and can be read.
    pub open spec fn class_id_of(self, collection: Seq<char>) -> Option<Seq<char>> {
        if self.class_ids.contains_key(collection) {
            Some(self.class_ids[collection])
        } else {
            None
        }
    }

    /// The class-level URI on record for `class_id`; a class without a record
    /// has none.
    pub open spec fn class_uri_of(self, class_id: Seq<char>) -> Option<Seq<char>> {
        if self.class_uris.contains_key(class_id) {
            self.class_uris[class_id]
        } else {
            None
        }
    }

    /// The state after `collection` has been registered as a local class:
    /// its class identifier is its own identity, and it has no class-level
    /// URI.
    pub open spec fn with_local_class(self, collection: Seq<char>) -> LedgerState {
        LedgerState {
            class_ids: self.class_ids.insert(collection, collection),
            class_ids_unreadable: self.class_ids_unreadable.remove(collection),
            collections: self.collections.insert(collection, collection),
            class_uris: self.class_uris.insert(collection, None),
            class_uris_unreadable: self.class_uris_unreadable.remove(collection),
            ..self
        }
    }
}

impl<'a> Ledger<'a> {
    /// Looks up the channel that the asset is escrowed against.
    ///
    /// An identifier too long for a key is in no table. An entry that is
    /// there but cannot be read is a failure of the host.
    pub fn get_outgoing_channel(&self, class_id: &str, token_id: &str) -> (r: Result<
        Option<String>,
        ContractError,
    >)
        ensures
            match r {
                Ok(Some(channel)) => self@.outgoing_channel((class_id@, token_id@)) == Some(
                    channel@,
                ) && !self@.outgoing_damaged((class_id@, token_id@)),
                Ok(None) => self@.outgoing_channel((class_id@, token_id@)) is None
                    && !self@.outgoing_damaged((class_id@, token_id@)),
                Err(e) => self@.outgoing_damaged((class_id@, token_id@)) && e@
                    is Host,
            },
    {
        if !fits_key(class_id) {
            return Ok(None);
        }
        match outgoing_may_load(self, class_id, token_id) {
            Ok(found) => Ok(found),
            Err(e) => Err(ContractError::Host { reason: std_error_text(&e) }),
        }
    }

    /// Records that the asset is escrowed against `channel`.
    ///
    /// A class identifier too long for a key is refused and nothing is
    /// written.
    pub fn set_outgoing(&mut self, class_id: &str, token_id: &str, channel: &str) -> (r: Result<
        (),
        ContractError,
    >)
        ensures
            match r {
                Ok(()) => can_hold(class_id@) && final(self)@ == old(self)@.with_outgoing(
                    (class_id@, token_id@),
                    channel@,
                ),
                Err(e) => !can_hold(class_id@) && final(self)@ == old(self)@ && e@ == (
                ContractErrorView::IdentifierFormat { identifier: class_id@ }),
            },
    {
        if !fits_key(class_id) {
            return Err(ContractError::IdentifierFormat { identifier: class_id.to_owned() });
        }
        match outgoing_save(self, class_id, token_id, channel) {
            Ok(()) => Ok(()),
            Err(e) => Err(ContractError::Host { reason: std_error_text(&e) }),
        }
    }

    /// Removes the outgoing entry of the asset, if there is one.
    pub fn remove_outgoing(&mut self, class_id: &str, token_id: &str)
        ensures
            can_hold(class_id@) ==> final(self)@ == old(self)@.without_outgoing(
                (class_id@, token_id@),
            ),
            !can_hold(class_id@) ==> final(self)@ == old(self)@,
    {
        if fits_key(class_id) {
            outgoing_remove(self, class_id, token_id);
        }
    }

    /// Stores the name and the version of the contract and the code that
    /// wrapped collections are instantiated from.
    pub fn set_up(&mut self, name: &str, version: &str, code_id: u64) -> (r: Result<
        (),
        ContractError,
    >)
        ensures
            r is Ok,
            final(self)@ == old(self)@.set_up(name@, version@, code_id),
    {
        if let Err(e) = contract_version_save(self, name, version) {
            return Err(ContractError::Host { reason: std_error_text(&e) });
        }
        if let Err(e) = code_id_save(self, code_id) {
            return Err(ContractError::Host { reason: std_error_text(&e) });
        }
        Ok(())
    }

    /// Looks up the class identifier that is registered for `collection`.
    ///
    /// An entry that is there but cannot be read is a failure of the host.
    pub fn get_class_id(&self, collection: &str) -> (r: Result<Option<String>, ContractError>)
        ensures
            match r {
                Ok(found) => found.deep_view() == self@.class_id_of(collection@)
                    && !self@.class_ids_unreadable.contains(collection@),
                Err(e) => self@.class_ids_unreadable.contains(collection@) && e@ is Host,
            },
    {
        match class_id_may_load(self, collection) {
            Ok(found) => Ok(found),
            Err(e) => Err(ContractError::Host { reason: std_error_text(&e) }),
        }
    }

    /// Looks up the class-level URI on record for `class_id`.
    ///
    /// An entry that is there but cannot be read is a failure of the host.
    pub fn get_class_uri(&self, class_id: &str) -> (r: Result<Option<String>, ContractError>)
        ensures
            match r {
                Ok(found) => found.deep_view() == self@.class_uri_of(class_id@)
                    && !self@.class_uris_unreadable.contains(class_id@),
                Err(e) => self@.class_uris_unreadable.contains(class_id@) && e@ is Host,
            },
    {
        match class_uri_may_load(self, class_id) {
            Ok(Some(recorded)) => Ok(recorded),
            Ok(None) => Ok(None),
            Err(e) => Err(ContractError::Host { reason: std_error_text(&e) }),
        }
    }

    /// Registers `collection` as a local class: its class identifier is its
    /// own identity, and it has no class-level URI.
    pub fn register_local_class(&mut self, collection: &str) -> (r: Result<(), ContractError>)
        ensures
            r is Ok,
            final(self)@ == old(self)@.with_local_class(collection@),
    {
        if let Err(e) = class_id_save(self, collection, collection) {
            return Err(ContractError::Host { reason: std_error_text(&e) });
        }
        if let Err(e) = collection_save(self, collection, collection) {
            return Err(ContractError::Host { reason: std_error_text(&e) });
        }
        // Class-level metadata is not known for a local collection.
        if let Err(e) = class_uri_save_none(self, collection) {
            return Err(ContractError::Host { reason: std_error_text(&e) });
        }
        Ok(())
    }

    /// Records that the asset arrived on `channel`, under its local class
    /// identifier.
    ///
    /// A class identifier too long for a key is refused and nothing is
    /// written.
    pub fn set_incoming(&mut self, class_id: &str, token_id: &str, channel: &str) -> (r: Result<
        (),
        ContractError,
    >)
        ensures
            match r {
                Ok(()) => can_hold(class_id@) && final(self)@ == old(self)@.with_incoming(
                    (class_id@, token_id@),
                    channel@,
                ),
                Err(e) => !can_hold(class_id@) && final(self)@ == old(self)@ && e@ == (
                ContractErrorView::IdentifierFormat { identifier: class_id@ }),
            },
    {
        if !fits_key(class_id) {
            return Err(ContractError::IdentifierFormat { identifier: class_id.to_owned() });
        }
        match incoming_save(self, class_id, token_id, channel) {
            Ok(()) => Ok(()),
            Err(e) => Err(ContractError::Host { reason: std_error_text(&e) }),
        }
    }
}

} // verus!
