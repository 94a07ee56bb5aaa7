//! The stores of one-time, signed and Kyber pre-keys, as serialized records by id.

use crate::error::{validation_error, BridgeError, ProtocolError, ProtocolErrorKind};
use crate::table::RecordTable;
use vstd::prelude::*;
use vstd::string::*;

verus! {

/// A pre-key record that was decoded: the id that it carries, and the record in
/// its serialized form.
#[derive(Debug)]
pub struct DecodedRecord {
    pub id: u32,
    pub record: Vec<u8>,
}

/// What importing under `id` does with a decoded record: a record that carries
/// another id is refused with the message `mismatch`.
pub open spec fn import_outcome(
    before: Map<u32, Seq<u8>>,
    after: Map<u32, Seq<u8>>,
    id: u32,
    decoded: Result<DecodedRecord, ProtocolError>,
    mismatch: Seq<char>,
    r: Result<(), BridgeError>,
) -> bool {
    match decoded {
        Err(e) => after == before && r == Err::<(), BridgeError>(BridgeError::Protocol(e)),
        Ok(d) => if d.id == id {
            after == before.insert(id, d.record@) && r == Ok::<(), BridgeError>(())
        } else {
            after == before && (r matches Err(e) && crate::error::refused_with(e, mismatch))
        },
    }
}

/// What loading the record of `id` gives: the error that marks an absent record
/// has the kind `absent`.
pub open spec fn load_outcome(
    records: Map<u32, Seq<u8>>,
    id: u32,
    absent: ProtocolErrorKind,
    r: Result<Vec<u8>, ProtocolError>,
) -> bool {
    match r {
        Ok(bytes) => records.dom().contains(id) && records[id] == bytes@,
        Err(e) => !records.dom().contains(id) && e.kind == absent,
    }
}

/// What exporting the record of `id` gives: an absent record is no error.
pub open spec fn export_outcome(
    records: Map<u32, Seq<u8>>,
    id: u32,
    r: Result<Option<Vec<u8>>, BridgeError>,
) -> bool {
    r matches Ok(record) && match record {
        Some(bytes) => records.dom().contains(id) && records[id] == bytes@,
        None => !records.dom().contains(id),
    }
}

/// What exporting makes of a load: only the error that marks an absent record
/// becomes `None`; any other is passed on.
pub open spec fn exported(loaded: Result<Vec<u8>, ProtocolError>, absent: ProtocolErrorKind) -> Result<
    Option<Vec<u8>>,
    BridgeError,
> {
    match loaded {
        Ok(record) => Ok(Some(record)),
        Err(e) => if e.kind == absent {
            Ok(None)
        } else {
            Err(BridgeError::Protocol(e))
        },
    }
}

/// What exporting makes of a load. Only the error that marks an absent record
/// becomes `None`; any other is passed on, not swallowed.
pub fn export_loaded(loaded: Result<Vec<u8>, ProtocolError>, absent: ProtocolErrorKind) -> (r:
    Result<Option<Vec<u8>>, BridgeError>)
    ensures
        r == exported(loaded, absent),
{
    match loaded {
        Ok(record) => Ok(Some(record)),
        Err(e) => if e.kind == absent {
            Ok(None)
        } else {
            Err(BridgeError::Protocol(e))
        },
    }
}

/// Files a decoded record under `id`, if it carries that id.
fn file_decoded(
    records: &mut RecordTable<u32>,
    id: u32,
    decoded: Result<DecodedRecord, ProtocolError>,
    mismatch: &str,
) -> (r: Result<(), BridgeError>)
    ensures
        import_outcome(old(records)@, final(records)@, id, decoded, mismatch@, r),
{
    match decoded {
        Ok(d) => {
            if d.id != id {
                return Err(validation_error(mismatch));
            }
            records.insert(&id, d.record);
            Ok(())
        },
        Err(e) => Err(BridgeError::Protocol(e)),
    }
}

/// The record of `id`, or the error that marks an absent record.
fn load_record(records: &RecordTable<u32>, id: u32, absent: ProtocolErrorKind) -> (r: Result<
    Vec<u8>,
    ProtocolError,
>)
    ensures
        load_outcome(records@, id, absent, r),
{
    match records.get(&id) {
        Some(record) => Ok(record),
        None => Err(
            ProtocolError { kind: absent, detail: String::from_str("no record has this id") },
        ),
    }
}

/// An in-memory store of one-time pre-keys.
pub struct WasmInMemPreKeyStore {
    records: RecordTable<u32>,
}

impl View for WasmInMemPreKeyStore {
    type V = Map<u32, Seq<u8>>;

    closed spec fn view(&self) -> Map<u32, Seq<u8>> {
        self.records@
    }
}

impl WasmInMemPreKeyStore {
    /// A store without pre-keys.
    pub fn new() -> (store: WasmInMemPreKeyStore)
        ensures
            store@ == Map::<u32, Seq<u8>>::empty(),
    {
        WasmInMemPreKeyStore { records: RecordTable::new() }
    }

    /// The record of `id`; `InvalidPreKeyId` marks an absent one.
    pub fn get_pre_key(&self, id: u32) -> (r: Result<Vec<u8>, ProtocolError>)
        ensures
            load_outcome(self@, id, ProtocolErrorKind::InvalidPreKeyId, r),
    {
        load_record(&self.records, id, ProtocolErrorKind::InvalidPreKeyId)
    }

    /// Keeps `record` under `id`.
    pub fn save_pre_key(&mut self, id: u32, record: Vec<u8>)
        ensures
            final(self)@ == old(self)@.insert(id, record@),
    {
        self.records.insert(&id, record);
    }

    /// Takes the record of `id` away, as the protocol does once the pre-key was
    /// used.
    pub fn remove_pre_key(&mut self, id: u32)
        ensures
            final(self)@ == old(self)@.remove(id),
    {
        let _ = self.records.remove(&id);
    }

    /// Takes over a record under `id`. `decode` reads it.
    pub fn import_pre_key<F: FnOnce(&[u8]) -> Result<DecodedRecord, ProtocolError>>(
        &mut self,
        id: u32,
        record_bytes: &[u8],
        decode: F,
    ) -> (r: Result<(), BridgeError>)
        requires
            call_requires(decode, (record_bytes,)),
        ensures
            exists|decoded: Result<DecodedRecord, ProtocolError>| #[trigger]
                call_ensures(decode, (record_bytes,), decoded) && import_outcome(
                    old(self)@,
                    final(self)@,
                    id,
                    decoded,
                    "PreKey ID mismatch"@,
                    r,
                ),
    {
        let decoded = decode(record_bytes);
        file_decoded(&mut self.records, id, decoded, "PreKey ID mismatch")
    }

    /// The record of `id`, to be kept elsewhere.
    pub fn export_pre_key(&self, id: u32) -> (r: Result<Option<Vec<u8>>, BridgeError>)
        ensures
            export_outcome(self@, id, r),
    {
        export_loaded(self.get_pre_key(id), ProtocolErrorKind::InvalidPreKeyId)
    }
}

impl Default for WasmInMemPreKeyStore {
    fn default() -> (store: Self)
        ensures
            store@ == Map::<u32, Seq<u8>>::empty(),
    {
        Self::new()
    }
}

/// An in-memory store of signed pre-keys.
pub struct WasmInMemSignedPreKeyStore {
    records: RecordTable<u32>,
}

impl View for WasmInMemSignedPreKeyStore {
    type V = Map<u32, Seq<u8>>;

    closed spec fn view(&self) -> Map<u32, Seq<u8>> {
        self.records@
    }
}

impl WasmInMemSignedPreKeyStore {
    /// A store without signed pre-keys.
    pub fn new() -> (store: WasmInMemSignedPreKeyStore)
        ensures
            store@ == Map::<u32, Seq<u8>>::empty(),
    {
        WasmInMemSignedPreKeyStore { records: RecordTable::new() }
    }

    /// The record of `id`; `InvalidSignedPreKeyId` marks an absent one.
    pub fn get_signed_pre_key(&self, id: u32) -> (r: Result<Vec<u8>, ProtocolError>)
        ensures
            load_outcome(self@, id, ProtocolErrorKind::InvalidSignedPreKeyId, r),
    {
        load_record(&self.records, id, ProtocolErrorKind::InvalidSignedPreKeyId)
    }

    /// Keeps `record` under `id`.
    pub fn save_signed_pre_key(&mut self, id: u32, record: Vec<u8>)
        ensures
            final(self)@ == old(self)@.insert(id, record@),
    {
        self.records.insert(&id, record);
    }

    /// Takes over a record under `id`. `decode` reads it.
    pub fn import_signed_pre_key<F: FnOnce(&[u8]) -> Result<DecodedRecord, ProtocolError>>(
        &mut self,
        id: u32,
        record_bytes: &[u8],
        decode: F,
    ) -> (r: Result<(), BridgeError>)
        requires
            call_requires(decode, (record_bytes,)),
        ensures
            exists|decoded: Result<DecodedRecord, ProtocolError>| #[trigger]
                call_ensures(decode, (record_bytes,), decoded) && import_outcome(
                    old(self)@,
                    final(self)@,
                    id,
                    decoded,
                    "Signed PreKey ID mismatch"@,
                    r,
                ),
    {
        let decoded = decode(record_bytes);
        file_decoded(&mut self.records, id, decoded, "Signed PreKey ID mismatch")
    }

    /// The record of `id`, to be kept elsewhere.
    pub fn export_signed_pre_key(&self, id: u32) -> (r: Result<Option<Vec<u8>>, BridgeError>)
        ensures
            export_outcome(self@, id, r),
    {
        export_loaded(self.get_signed_pre_key(id), ProtocolErrorKind::InvalidSignedPreKeyId)
    }
}

impl Default for WasmInMemSignedPreKeyStore {
    fn default() -> (store: Self)
        ensures
            store@ == Map::<u32, Seq<u8>>::empty(),
    {
        Self::new()
    }
}

/// An in-memory store of Kyber pre-keys.
pub struct WasmInMemKyberPreKeyStore {
    records: RecordTable<u32>,
}

impl View for WasmInMemKyberPreKeyStore {
    type V = Map<u32, Seq<u8>>;

    closed spec fn view(&self) -> Map<u32, Seq<u8>> {
        self.records@
    }
}

impl WasmInMemKyberPreKeyStore {
    /// A store without Kyber pre-keys.
    pub fn new() -> (store: WasmInMemKyberPreKeyStore)
        ensures
            store@ == Map::<u32, Seq<u8>>::empty(),
    {
        WasmInMemKyberPreKeyStore { records: RecordTable::new() }
    }

    /// The record of `id`; `InvalidKyberPreKeyId` marks an absent one.
    pub fn get_kyber_pre_key(&self, id: u32) -> (r: Result<Vec<u8>, ProtocolError>)
        ensures
            load_outcome(self@, id, ProtocolErrorKind::InvalidKyberPreKeyId, r),
    {
        load_record(&self.records, id, ProtocolErrorKind::InvalidKyberPreKeyId)
    }

    /// Keeps `record` under `id`.
    pub fn save_kyber_pre_key(&mut self, id: u32, record: Vec<u8>)
        ensures
            final(self)@ == old(self)@.insert(id, record@),
    {
        self.records.insert(&id, record);
    }

    /// Takes over a record under `id`. `decode` reads it.
    pub fn import_kyber_pre_key<F: FnOnce(&[u8]) -> Result<DecodedRecord, ProtocolError>>(
        &mut self,
        id: u32,
        record_bytes: &[u8],
        decode: F,
    ) -> (r: Result<(), BridgeError>)
        requires
            call_requires(decode, (record_bytes,)),
        ensures
            exists|decoded: Result<DecodedRecord, ProtocolError>| #[trigger]
                call_ensures(decode, (record_bytes,), decoded) && import_outcome(
                    old(self)@,
                    final(self)@,
                    id,
                    decoded,
                    "Kyber PreKey ID mismatch"@,
                    r,
                ),
    {
        let decoded = decode(record_bytes);
        file_decoded(&mut self.records, id, decoded, "Kyber PreKey ID mismatch")
    }

    /// The record of `id`, to be kept elsewhere.
    pub fn export_kyber_pre_key(&self, id: u32) -> (r: Result<Option<Vec<u8>>, BridgeError>)
        ensures
            export_outcome(self@, id, r),
    {
        export_loaded(self.get_kyber_pre_key(id), ProtocolErrorKind::InvalidKyberPreKeyId)
    }
}

impl Default for WasmInMemKyberPreKeyStore {
    fn default() -> (store: Self)
        ensures
            store@ == Map::<u32, Seq<u8>>::empty(),
    {
        Self::new()
    }
}

/// No import changes a record of another id, and one that fails changes nothing.
pub proof fn law_import_is_local(
    before: Map<u32, Seq<u8>>,
    after: Map<u32, Seq<u8>>,
    id: u32,
    decoded: Result<DecodedRecord, ProtocolError>,
    mismatch: Seq<char>,
    r: Result<(), BridgeError>,
)
    requires
        import_outcome(before, after, id, decoded, mismatch, r),
    ensures
        r is Err ==> after == before,
        forall|other: u32|
            other != id ==> (#[trigger] after.dom().contains(other) <==> before.dom().contains(
                other,
            )),
        forall|other: u32|
            other != id && before.dom().contains(other) ==> #[trigger] after[other]
                == before[other],
{
}

/// An exported pre-key, imported under its id into any store by a decoder that
/// reads it faithfully, exports as it was.
pub proof fn law_pre_key_survives_a_restart(
    exporter: Map<u32, Seq<u8>>,
    before: Map<u32, Seq<u8>>,
    after: Map<u32, Seq<u8>>,
    id: u32,
    decoded: Result<DecodedRecord, ProtocolError>,
    mismatch: Seq<char>,
    imported: Result<(), BridgeError>,
    exported: Result<Option<Vec<u8>>, BridgeError>,
)
    requires
        exporter.dom().contains(id),
        decoded matches Ok(d) && d.id == id && d.record@ == exporter[id],
        import_outcome(before, after, id, decoded, mismatch, imported),
        export_outcome(after, id, exported),
    ensures
        imported is Ok,
        exported matches Ok(Some(bytes)) && bytes@ == exporter[id],
{
}

} // verus!
