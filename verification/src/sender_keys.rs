//! The store of sender keys, as serialized records by sender and distribution id.

use crate::address::{AddressView, WasmProtocolAddress};
use crate::error::{BridgeError, ProtocolError};
use crate::ids::parse_distribution_id;
use crate::table::{copy_bytes, same_bytes, RecordTable, TableKey};
use vstd::prelude::*;

verus! {

/// What a sender key is filed under: a sender and the bytes of a distribution id.
pub type SenderKeyView = (AddressView, Seq<u8>);

/// What a sender key is filed under.
pub struct SenderKeyName {
    sender: WasmProtocolAddress,
    distribution_id: Vec<u8>,
}

impl View for SenderKeyName {
    type V = SenderKeyView;

    closed spec fn view(&self) -> SenderKeyView {
        (self.sender@, self.distribution_id@)
    }
}

impl SenderKeyName {
    /// The name of a sender's key for a distribution.
    pub fn new(sender: &WasmProtocolAddress, distribution_id: &Vec<u8>) -> (name: SenderKeyName)
        ensures
            name@ == (sender@, distribution_id@),
    {
        SenderKeyName { sender: sender.clone(), distribution_id: copy_bytes(distribution_id) }
    }
}

impl TableKey for SenderKeyName {
    fn same_key(&self, other: &Self) -> (same: bool) {
        self.sender.same_key(&other.sender) && same_bytes(
            &self.distribution_id,
            &other.distribution_id,
        )
    }

    fn copy_key(&self) -> (copy: Self) {
        SenderKeyName::new(&self.sender, &self.distribution_id)
    }
}

/// `record` is what the keys hold under `name`.
pub open spec fn loaded(
    keys: Map<SenderKeyView, Seq<u8>>,
    name: SenderKeyView,
    record: Option<Vec<u8>>,
) -> bool {
    match record {
        Some(bytes) => keys.dom().contains(name) && keys[name] == bytes@,
        None => !keys.dom().contains(name),
    }
}

/// Sender keys with removal. Rotating a group's key takes the old record away
/// before a new one is made.
pub struct RemovableSenderKeyStore {
    keys: RecordTable<SenderKeyName>,
}

impl View for RemovableSenderKeyStore {
    type V = Map<SenderKeyView, Seq<u8>>;

    closed spec fn view(&self) -> Map<SenderKeyView, Seq<u8>> {
        self.keys@
    }
}

impl RemovableSenderKeyStore {
    /// A store without records.
    pub fn new() -> (store: Self)
        ensures
            store@ == Map::<SenderKeyView, Seq<u8>>::empty(),
    {
        RemovableSenderKeyStore { keys: RecordTable::new() }
    }

    /// Takes the record of `sender` for a distribution away. Whether there was one.
    pub fn remove(&mut self, sender: &WasmProtocolAddress, distribution_id: &Vec<u8>) -> (removed:
        bool)
        ensures
            removed == old(self)@.dom().contains((sender@, distribution_id@)),
            final(self)@ == old(self)@.remove((sender@, distribution_id@)),
    {
        self.keys.remove(&SenderKeyName::new(sender, distribution_id))
    }

    /// Keeps `record` for `sender` and a distribution.
    pub fn store_sender_key(
        &mut self,
        sender: &WasmProtocolAddress,
        distribution_id: &Vec<u8>,
        record: Vec<u8>,
    )
        ensures
            final(self)@ == old(self)@.insert((sender@, distribution_id@), record@),
    {
        self.keys.insert(&SenderKeyName::new(sender, distribution_id), record);
    }

    /// The record of `sender` for a distribution.
    pub fn load_sender_key(&self, sender: &WasmProtocolAddress, distribution_id: &Vec<u8>) -> (record:
        Option<Vec<u8>>)
        ensures
            loaded(self@, (sender@, distribution_id@), record),
    {
        self.keys.get(&SenderKeyName::new(sender, distribution_id))
    }
}

/// An in-memory store of sender keys.
pub struct WasmInMemSenderKeyStore {
    records: RemovableSenderKeyStore,
}

impl View for WasmInMemSenderKeyStore {
    type V = Map<SenderKeyView, Seq<u8>>;

    closed spec fn view(&self) -> Map<SenderKeyView, Seq<u8>> {
        self.records@
    }
}

/// What exporting answers for the distribution with these id bytes.
pub open spec fn export_outcome(
    keys: Map<SenderKeyView, Seq<u8>>,
    name: SenderKeyView,
    r: Result<Option<Vec<u8>>, BridgeError>,
) -> bool {
    r matches Ok(record) && loaded(keys, name, record)
}

/// What importing does with a decoded record.
pub open spec fn import_outcome(
    before: Map<SenderKeyView, Seq<u8>>,
    after: Map<SenderKeyView, Seq<u8>>,
    name: SenderKeyView,
    decoded: Result<Vec<u8>, ProtocolError>,
    r: Result<(), BridgeError>,
) -> bool {
    match decoded {
        Ok(record) => after == before.insert(name, record@) && r == Ok::<(), BridgeError>(()),
        Err(e) => after == before && r == Err::<(), BridgeError>(BridgeError::Protocol(e)),
    }
}

/// `r` refuses `id` as a distribution id.
pub open spec fn refuses_distribution_id<T>(id: Seq<char>, r: Result<T, BridgeError>) -> bool {
    r matches Err(e) && crate::error::refused_with(
        e,
        "Invalid distribution id (must be a UUID string): "@ + id,
    )
}

impl WasmInMemSenderKeyStore {
    /// A store without sender keys.
    pub fn new() -> (store: WasmInMemSenderKeyStore)
        ensures
            store@ == Map::<SenderKeyView, Seq<u8>>::empty(),
    {
        WasmInMemSenderKeyStore { records: RemovableSenderKeyStore::new() }
    }

    /// Keeps `record` for `sender` and the distribution with these id bytes.
    pub fn store_sender_key(
        &mut self,
        sender: &WasmProtocolAddress,
        distribution_id: &Vec<u8>,
        record: Vec<u8>,
    )
        ensures
            final(self)@ == old(self)@.insert((sender@, distribution_id@), record@),
    {
        self.records.store_sender_key(sender, distribution_id, record);
    }

    /// The record of `sender` for the distribution with these id bytes.
    pub fn load_sender_key(&self, sender: &WasmProtocolAddress, distribution_id: &Vec<u8>) -> (record:
        Option<Vec<u8>>)
        ensures
            loaded(self@, (sender@, distribution_id@), record),
    {
        self.records.load_sender_key(sender, distribution_id)
    }

    /// The record of `address` for a distribution, to be kept elsewhere.
    pub fn export_sender_key(
        &self,
        address: &WasmProtocolAddress,
        distribution_id: String,
    ) -> (r: Result<Option<Vec<u8>>, BridgeError>)
        ensures
            match crate::ids::uuid_of_text(distribution_id@) {
                Some(id) => export_outcome(self@, (address@, id), r),
                None => refuses_distribution_id(distribution_id@, r),
            },
    {
        match parse_distribution_id(distribution_id.as_str()) {
            Ok(id) => Ok(self.records.load_sender_key(address, &id)),
            Err(e) => Err(e),
        }
    }

    /// Takes over a record for `address` and a distribution. `decode` reads it and
    /// gives it back in its serialized form; it is not asked where the id is
    /// refused.
    pub fn import_sender_key<F: FnOnce(&[u8]) -> Result<Vec<u8>, ProtocolError>>(
        &mut self,
        address: &WasmProtocolAddress,
        distribution_id: String,
        record_bytes: &[u8],
        decode: F,
    ) -> (r: Result<(), BridgeError>)
        requires
            crate::ids::uuid_of_text(distribution_id@) is Some ==> call_requires(
                decode,
                (record_bytes,),
            ),
        ensures
            match crate::ids::uuid_of_text(distribution_id@) {
                Some(id) => exists|decoded: Result<Vec<u8>, ProtocolError>| #[trigger]
                    call_ensures(decode, (record_bytes,), decoded) && import_outcome(
                        old(self)@,
                        final(self)@,
                        (address@, id),
                        decoded,
                        r,
                    ),
                None => final(self)@ == old(self)@ && refuses_distribution_id(distribution_id@, r),
            },
    {
        match parse_distribution_id(distribution_id.as_str()) {
            Ok(id) => match decode(record_bytes) {
                Ok(record) => {
                    self.records.store_sender_key(address, &id, record);
                    Ok(())
                },
                Err(e) => Err(BridgeError::Protocol(e)),
            },
            Err(e) => Err(e),
        }
    }

    /// Takes the record of `address` for a distribution away. A rotation that does
    /// not would go on with the existing chain, from which removed members derive
    /// future message keys. Whether there was a record.
    pub fn remove_sender_key(
        &mut self,
        address: &WasmProtocolAddress,
        distribution_id: String,
    ) -> (r: Result<bool, BridgeError>)
        ensures
            match crate::ids::uuid_of_text(distribution_id@) {
                Some(id) => r == Ok::<bool, BridgeError>(old(self)@.dom().contains((address@, id)))
                    && final(self)@ == old(self)@.remove((address@, id)),
                None => final(self)@ == old(self)@ && refuses_distribution_id(distribution_id@, r),
            },
    {
        match parse_distribution_id(distribution_id.as_str()) {
            Ok(id) => Ok(self.records.remove(address, &id)),
            Err(e) => Err(e),
        }
    }
}

impl Default for WasmInMemSenderKeyStore {
    fn default() -> (store: Self)
        ensures
            store@ == Map::<SenderKeyView, Seq<u8>>::empty(),
    {
        Self::new()
    }
}

/// After a removal there is nothing to export under that name, a second removal
/// finds nothing and changes nothing, and every other record is still there.
pub proof fn law_removal_is_complete_and_local(
    keys: Map<SenderKeyView, Seq<u8>>,
    name: SenderKeyView,
    r: Result<Option<Vec<u8>>, BridgeError>,
)
    ensures
        export_outcome(keys.remove(name), name, r) ==> r == Ok::<Option<Vec<u8>>, BridgeError>(
            None,
        ),
        !keys.remove(name).dom().contains(name),
        keys.remove(name).remove(name) == keys.remove(name),
        forall|other: SenderKeyView|
            other != name ==> (#[trigger] keys.remove(name).dom().contains(other)
                <==> keys.dom().contains(other)),
        forall|other: SenderKeyView|
            other != name && keys.dom().contains(other) ==> #[trigger] keys.remove(name)[other]
                == keys[other],
{
    assert(keys.remove(name).remove(name) =~= keys.remove(name));
}

/// An exported sender key, imported into any store by a decoder that reads it
/// faithfully, exports as it was, and no other record of that store changes.
pub proof fn law_sender_key_survives_a_restart(
    exporter: Map<SenderKeyView, Seq<u8>>,
    before: Map<SenderKeyView, Seq<u8>>,
    after: Map<SenderKeyView, Seq<u8>>,
    name: SenderKeyView,
    decoded: Result<Vec<u8>, ProtocolError>,
    imported: Result<(), BridgeError>,
    exported: Result<Option<Vec<u8>>, BridgeError>,
)
    requires
        exporter.dom().contains(name),
        decoded matches Ok(record) && record@ == exporter[name],
        import_outcome(before, after, name, decoded, imported),
        export_outcome(after, name, exported),
    ensures
        imported is Ok,
        exported matches Ok(Some(bytes)) && bytes@ == exporter[name],
        forall|other: SenderKeyView|
            other != name ==> (#[trigger] after.dom().contains(other) <==> before.dom().contains(
                other,
            )),
        forall|other: SenderKeyView|
            other != name && before.dom().contains(other) ==> #[trigger] after[other]
                == before[other],
{
}

/// A change of the store: a record that is stored under a name, or a name whose record
/// is removed.
pub enum SenderKeyChange {
    Stored(SenderKeyView, Seq<u8>),
    Removed(SenderKeyView),
}

impl SenderKeyChange {
    /// The name whose record is changed.
    pub open spec fn name(self) -> SenderKeyView {
        match self {
            SenderKeyChange::Stored(name, _) => name,
            SenderKeyChange::Removed(name) => name,
        }
    }

    /// The record that the name has after the change.
    pub open spec fn record(self) -> Option<Seq<u8>> {
        match self {
            SenderKeyChange::Stored(_, record) => Some(record),
            SenderKeyChange::Removed(_) => None,
        }
    }

    /// The keys after the change.
    pub open spec fn applied(self, keys: Map<SenderKeyView, Seq<u8>>) -> Map<
        SenderKeyView,
        Seq<u8>,
    > {
        match self {
            SenderKeyChange::Stored(name, record) => keys.insert(name, record),
            SenderKeyChange::Removed(name) => keys.remove(name),
        }
    }
}

/// What a new store holds after a series of changes.
pub open spec fn keys_after_all(changes: Seq<SenderKeyChange>) -> Map<SenderKeyView, Seq<u8>>
    decreases changes.len(),
{
    if changes.len() == 0 {
        Map::empty()
    } else {
        changes.last().applied(keys_after_all(changes.drop_last()))
    }
}

/// The record that the last change of exactly this name left, if there was such a
/// change and it was no removal.
pub open spec fn last_record(changes: Seq<SenderKeyChange>, name: SenderKeyView) -> Option<Seq<u8>>
    decreases changes.len(),
{
    if changes.len() == 0 {
        None
    } else if changes.last().name() == name {
        changes.last().record()
    } else {
        last_record(changes.drop_last(), name)
    }
}

/// After any series of stores and removals, a sender key loads as the last record that
/// was stored for exactly its name, or as nothing where none was or it was removed
/// since.
pub proof fn law_last_record_is_loaded(
    changes: Seq<SenderKeyChange>,
    name: SenderKeyView,
    record: Option<Vec<u8>>,
)
    requires
        loaded(keys_after_all(changes), name, record),
    ensures
        match record {
            Some(bytes) => last_record(changes, name) == Some(bytes@),
            None => last_record(changes, name) is None,
        },
    decreases changes.len(),
{
    if changes.len() > 0 && changes.last().name() != name {
        law_last_record_is_loaded(changes.drop_last(), name, record);
    }
}

} // verus!
