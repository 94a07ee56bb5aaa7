//! Laws on the stores of sessions, pre-keys and sender keys.

use crate::address::WasmProtocolAddress;
use crate::error::{BridgeError, ProtocolError, ProtocolErrorKind};
use crate::ids::parse_distribution_id;
use crate::pre_key_stores::{
    export_loaded, DecodedRecord, WasmInMemKyberPreKeyStore, WasmInMemPreKeyStore,
    WasmInMemSignedPreKeyStore,
};
use crate::sender_keys::{RemovableSenderKeyStore, WasmInMemSenderKeyStore};
use crate::session_store::WasmInMemSessionStore;
use vstd::prelude::*;

verus! {

/// Two lookups found the same record, or both found none.
pub open spec fn same_record(a: Option<Vec<u8>>, b: Option<Vec<u8>>) -> bool {
    match (a, b) {
        (Some(x), Some(y)) => x@ == y@,
        (None, None) => true,
        _ => false,
    }
}

/// A new store has no session.
pub proof fn law_new_session_store_is_empty(
    made: WasmInMemSessionStore,
    by_default: WasmInMemSessionStore,
    address: &WasmProtocolAddress,
    found: Option<Vec<u8>>,
    found_by_default: Option<Vec<u8>>,
)
    requires
        call_ensures(WasmInMemSessionStore::new, (), made),
        call_ensures(<WasmInMemSessionStore as Default>::default, (), by_default),
        call_ensures(WasmInMemSessionStore::load_session, (&made, address), found),
        call_ensures(
            WasmInMemSessionStore::load_session,
            (&by_default, address),
            found_by_default,
        ),
    ensures
        found is None,
        found_by_default is None,
{
}

/// A stored session is loaded from then on, and another address, by name or device,
/// loads as before.
pub proof fn law_stored_session_is_loaded(
    before: WasmInMemSessionStore,
    after: WasmInMemSessionStore,
    address: &WasmProtocolAddress,
    record: Vec<u8>,
    other: &WasmProtocolAddress,
    found: Option<Vec<u8>>,
    other_before: Option<Vec<u8>>,
    other_after: Option<Vec<u8>>,
)
    requires
        exists|store: &mut WasmInMemSessionStore|
            *store == before && *final(store) == after && #[trigger] call_ensures(
                WasmInMemSessionStore::store_session,
                (store, address, record),
                (),
            ),
        call_ensures(WasmInMemSessionStore::load_session, (&after, address), found),
        other@ != address@,
        call_ensures(WasmInMemSessionStore::load_session, (&before, other), other_before),
        call_ensures(WasmInMemSessionStore::load_session, (&after, other), other_after),
    ensures
        found matches Some(bytes) && bytes@ == record@,
        same_record(other_before, other_after),
{
}

/// There is a session exactly if one is loaded, and what is exported is what is loaded.
pub proof fn law_session_lookups_agree(
    store: &WasmInMemSessionStore,
    address: &WasmProtocolAddress,
    found: Option<Vec<u8>>,
    has: Result<bool, BridgeError>,
    exported: Result<Option<Vec<u8>>, BridgeError>,
)
    requires
        call_ensures(WasmInMemSessionStore::load_session, (store, address), found),
        call_ensures(WasmInMemSessionStore::has_session, (store, address), has),
        call_ensures(WasmInMemSessionStore::export_session, (store, address), exported),
    ensures
        has == Ok::<bool, BridgeError>(found is Some),
        exported matches Ok(record) && same_record(record, found),
        found is Some <==> store@.dom().contains(address@),
        found matches Some(record) ==> record@ == store@[address@],
{
}

/// Archiving hands exactly the stored record over and keeps what comes back, or changes
/// nothing and tells the error. Where there is no session it does nothing.
pub proof fn law_archiving_keeps_what_comes_back<
    F: FnOnce(Vec<u8>) -> Result<Vec<u8>, ProtocolError>,
>(
    before: WasmInMemSessionStore,
    after: WasmInMemSessionStore,
    address: &WasmProtocolAddress,
    archive: F,
    r: Result<(), BridgeError>,
)
    requires
        exists|store: &mut WasmInMemSessionStore|
            *store == before && *final(store) == after && #[trigger] call_ensures(
                WasmInMemSessionStore::archive_session::<F>,
                (store, address, archive),
                r,
            ),
    ensures
        !before@.dom().contains(address@) ==> r is Ok && after@ == before@,
        before@.dom().contains(address@) ==> exists|
            record: Vec<u8>,
            archived: Result<Vec<u8>, ProtocolError>,
        |
            {
                &&& record@ == before@[address@]
                &&& #[trigger] call_ensures(archive, (record,), archived)
                &&& r is Ok <==> archived is Ok
                &&& archived is Ok ==> after@ == before@.insert(address@, archived->Ok_0@)
                &&& archived matches Err(e) ==> after@ == before@ && r == Err::<(), BridgeError>(
                    BridgeError::Protocol(e),
                )
            },
{
}

/// Importing keeps what reading the bytes gave for this address, or changes nothing and
/// tells the error.
pub proof fn law_imported_session_is_what_was_read<
    F: FnOnce(&[u8]) -> Result<Vec<u8>, ProtocolError>,
>(
    before: WasmInMemSessionStore,
    after: WasmInMemSessionStore,
    address: &WasmProtocolAddress,
    bytes: &[u8],
    decode: F,
    r: Result<(), BridgeError>,
)
    requires
        exists|store: &mut WasmInMemSessionStore|
            *store == before && *final(store) == after && #[trigger] call_ensures(
                WasmInMemSessionStore::import_session::<F>,
                (store, address, bytes, decode),
                r,
            ),
    ensures
        exists|decoded: Result<Vec<u8>, ProtocolError>| #[trigger]
            call_ensures(decode, (bytes,), decoded) && {
                &&& r is Ok <==> decoded is Ok
                &&& decoded is Ok ==> after@ == before@.insert(address@, decoded->Ok_0@)
                &&& decoded matches Err(e) ==> after@ == before@ && r == Err::<(), BridgeError>(
                    BridgeError::Protocol(e),
                )
            },
{
}

/// Only the error that marks an absent record exports as none. A record exports as it
/// is, and any other error is passed on.
pub proof fn law_only_absence_exports_as_none(
    loaded: Result<Vec<u8>, ProtocolError>,
    absent: ProtocolErrorKind,
    r: Result<Option<Vec<u8>>, BridgeError>,
)
    requires
        call_ensures(export_loaded, (loaded, absent), r),
    ensures
        loaded matches Ok(record) ==> r == Ok::<Option<Vec<u8>>, BridgeError>(Some(record)),
        loaded matches Err(e) ==> e.kind == absent ==> r == Ok::<Option<Vec<u8>>, BridgeError>(
            None,
        ),
        loaded matches Err(e) ==> e.kind != absent ==> r == Err::<Option<Vec<u8>>, BridgeError>(
            BridgeError::Protocol(e),
        ),
{
}

/// A new store of one-time pre-keys has no record.
pub proof fn law_new_one_time_store_is_empty(
    made: WasmInMemPreKeyStore,
    by_default: WasmInMemPreKeyStore,
    id: u32,
    found: Result<Vec<u8>, ProtocolError>,
    found_by_default: Result<Vec<u8>, ProtocolError>,
)
    requires
        call_ensures(WasmInMemPreKeyStore::new, (), made),
        call_ensures(<WasmInMemPreKeyStore as Default>::default, (), by_default),
        call_ensures(WasmInMemPreKeyStore::get_pre_key, (&made, id), found),
        call_ensures(WasmInMemPreKeyStore::get_pre_key, (&by_default, id), found_by_default),
    ensures
        found matches Err(e) && e.kind == ProtocolErrorKind::InvalidPreKeyId,
        found_by_default matches Err(e) && e.kind == ProtocolErrorKind::InvalidPreKeyId,
{
}

/// The record of a one-time pre-key is loaded under its id alone. An absent one is marked
/// by its own kind of error, and exports as none; what is exported is what is loaded.
pub proof fn law_one_time_lookups_agree(
    store: &WasmInMemPreKeyStore,
    id: u32,
    found: Result<Vec<u8>, ProtocolError>,
    exported: Result<Option<Vec<u8>>, BridgeError>,
)
    requires
        call_ensures(WasmInMemPreKeyStore::get_pre_key, (store, id), found),
        call_ensures(WasmInMemPreKeyStore::export_pre_key, (store, id), exported),
    ensures
        found is Ok <==> store@.dom().contains(id),
        found matches Ok(record) ==> record@ == store@[id],
        found matches Err(e) ==> e.kind == ProtocolErrorKind::InvalidPreKeyId,
        exported is Ok,
        exported->Ok_0 is Some <==> found is Ok,
        exported->Ok_0 matches Some(record) ==> record@ == found->Ok_0@,
{
}

/// A saved one-time pre-key is loaded from then on, and every other id loads as before.
pub proof fn law_saved_one_time_record_is_loaded(
    before: WasmInMemPreKeyStore,
    after: WasmInMemPreKeyStore,
    id: u32,
    record: Vec<u8>,
    other: u32,
    found: Result<Vec<u8>, ProtocolError>,
    other_before: Result<Vec<u8>, ProtocolError>,
    other_after: Result<Vec<u8>, ProtocolError>,
)
    requires
        exists|store: &mut WasmInMemPreKeyStore|
            *store == before && *final(store) == after && #[trigger] call_ensures(
                WasmInMemPreKeyStore::save_pre_key,
                (store, id, record),
                (),
            ),
        call_ensures(WasmInMemPreKeyStore::get_pre_key, (&after, id), found),
        other != id,
        call_ensures(WasmInMemPreKeyStore::get_pre_key, (&before, other), other_before),
        call_ensures(WasmInMemPreKeyStore::get_pre_key, (&after, other), other_after),
    ensures
        found matches Ok(bytes) && bytes@ == record@,
        other_before is Ok <==> other_after is Ok,
        other_before is Ok ==> other_before->Ok_0@ == other_after->Ok_0@,
{
}

/// A record of a one-time pre-key is imported exactly under the id that it carries: as it
/// was read, with no other record touched. Another id is refused, and an unreadable
/// record is told; both change nothing.
pub proof fn law_one_time_import_needs_its_id<
    F: FnOnce(&[u8]) -> Result<DecodedRecord, ProtocolError>,
>(
    before: WasmInMemPreKeyStore,
    after: WasmInMemPreKeyStore,
    id: u32,
    bytes: &[u8],
    decode: F,
    r: Result<(), BridgeError>,
)
    requires
        exists|store: &mut WasmInMemPreKeyStore|
            *store == before && *final(store) == after && #[trigger] call_ensures(
                WasmInMemPreKeyStore::import_pre_key::<F>,
                (store, id, bytes, decode),
                r,
            ),
    ensures
        exists|decoded: Result<DecodedRecord, ProtocolError>| #[trigger]
            call_ensures(decode, (bytes,), decoded) && {
                &&& r is Ok <==> decoded is Ok && decoded->Ok_0.id == id
                &&& r is Ok ==> after@ == before@.insert(id, decoded->Ok_0.record@)
                &&& r is Err ==> after@ == before@
                &&& decoded matches Err(e) ==> r == Err::<(), BridgeError>(
                    BridgeError::Protocol(e),
                )
                &&& decoded is Ok && r is Err ==> (r->Err_0 matches BridgeError::Validation(m)
                    && m@ == "PreKey ID mismatch"@)
            },
{
}

/// A new store of signed pre-keys has no record.
pub proof fn law_new_signed_store_is_empty(
    made: WasmInMemSignedPreKeyStore,
    by_default: WasmInMemSignedPreKeyStore,
    id: u32,
    found: Result<Vec<u8>, ProtocolError>,
    found_by_default: Result<Vec<u8>, ProtocolError>,
)
    requires
        call_ensures(WasmInMemSignedPreKeyStore::new, (), made),
        call_ensures(<WasmInMemSignedPreKeyStore as Default>::default, (), by_default),
        call_ensures(WasmInMemSignedPreKeyStore::get_signed_pre_key, (&made, id), found),
        call_ensures(WasmInMemSignedPreKeyStore::get_signed_pre_key, (&by_default, id), found_by_default),
    ensures
        found matches Err(e) && e.kind == ProtocolErrorKind::InvalidSignedPreKeyId,
        found_by_default matches Err(e) && e.kind == ProtocolErrorKind::InvalidSignedPreKeyId,
{
}

/// The record of a signed pre-key is loaded under its id alone. An absent one is marked
/// by its own kind of error, and exports as none; what is exported is what is loaded.
pub proof fn law_signed_lookups_agree(
    store: &WasmInMemSignedPreKeyStore,
    id: u32,
    found: Result<Vec<u8>, ProtocolError>,
    exported: Result<Option<Vec<u8>>, BridgeError>,
)
    requires
        call_ensures(WasmInMemSignedPreKeyStore::get_signed_pre_key, (store, id), found),
        call_ensures(WasmInMemSignedPreKeyStore::export_signed_pre_key, (store, id), exported),
    ensures
        found is Ok <==> store@.dom().contains(id),
        found matches Ok(record) ==> record@ == store@[id],
        found matches Err(e) ==> e.kind == ProtocolErrorKind::InvalidSignedPreKeyId,
        exported is Ok,
        exported->Ok_0 is Some <==> found is Ok,
        exported->Ok_0 matches Some(record) ==> record@ == found->Ok_0@,
{
}

/// A saved signed pre-key is loaded from then on, and every other id loads as before.
pub proof fn law_saved_signed_record_is_loaded(
    before: WasmInMemSignedPreKeyStore,
    after: WasmInMemSignedPreKeyStore,
    id: u32,
    record: Vec<u8>,
    other: u32,
    found: Result<Vec<u8>, ProtocolError>,
    other_before: Result<Vec<u8>, ProtocolError>,
    other_after: Result<Vec<u8>, ProtocolError>,
)
    requires
        exists|store: &mut WasmInMemSignedPreKeyStore|
            *store == before && *final(store) == after && #[trigger] call_ensures(
                WasmInMemSignedPreKeyStore::save_signed_pre_key,
                (store, id, record),
                (),
            ),
        call_ensures(WasmInMemSignedPreKeyStore::get_signed_pre_key, (&after, id), found),
        other != id,
        call_ensures(WasmInMemSignedPreKeyStore::get_signed_pre_key, (&before, other), other_before),
        call_ensures(WasmInMemSignedPreKeyStore::get_signed_pre_key, (&after, other), other_after),
    ensures
        found matches Ok(bytes) && bytes@ == record@,
        other_before is Ok <==> other_after is Ok,
        other_before is Ok ==> other_before->Ok_0@ == other_after->Ok_0@,
{
}

/// A record of a signed pre-key is imported exactly under the id that it carries: as it
/// was read, with no other record touched. Another id is refused, and an unreadable
/// record is told; both change nothing.
pub proof fn law_signed_import_needs_its_id<
    F: FnOnce(&[u8]) -> Result<DecodedRecord, ProtocolError>,
>(
    before: WasmInMemSignedPreKeyStore,
    after: WasmInMemSignedPreKeyStore,
    id: u32,
    bytes: &[u8],
    decode: F,
    r: Result<(), BridgeError>,
)
    requires
        exists|store: &mut WasmInMemSignedPreKeyStore|
            *store == before && *final(store) == after && #[trigger] call_ensures(
                WasmInMemSignedPreKeyStore::import_signed_pre_key::<F>,
                (store, id, bytes, decode),
                r,
            ),
    ensures
        exists|decoded: Result<DecodedRecord, ProtocolError>| #[trigger]
            call_ensures(decode, (bytes,), decoded) && {
                &&& r is Ok <==> decoded is Ok && decoded->Ok_0.id == id
                &&& r is Ok ==> after@ == before@.insert(id, decoded->Ok_0.record@)
                &&& r is Err ==> after@ == before@
                &&& decoded matches Err(e) ==> r == Err::<(), BridgeError>(
                    BridgeError::Protocol(e),
                )
                &&& decoded is Ok && r is Err ==> (r->Err_0 matches BridgeError::Validation(m)
                    && m@ == "Signed PreKey ID mismatch"@)
            },
{
}

/// A new store of Kyber pre-keys has no record.
pub proof fn law_new_kyber_store_is_empty(
    made: WasmInMemKyberPreKeyStore,
    by_default: WasmInMemKyberPreKeyStore,
    id: u32,
    found: Result<Vec<u8>, ProtocolError>,
    found_by_default: Result<Vec<u8>, ProtocolError>,
)
    requires
        call_ensures(WasmInMemKyberPreKeyStore::new, (), made),
        call_ensures(<WasmInMemKyberPreKeyStore as Default>::default, (), by_default),
        call_ensures(WasmInMemKyberPreKeyStore::get_kyber_pre_key, (&made, id), found),
        call_ensures(WasmInMemKyberPreKeyStore::get_kyber_pre_key, (&by_default, id), found_by_default),
    ensures
        found matches Err(e) && e.kind == ProtocolErrorKind::InvalidKyberPreKeyId,
        found_by_default matches Err(e) && e.kind == ProtocolErrorKind::InvalidKyberPreKeyId,
{
}

/// The record of a Kyber pre-key is loaded under its id alone. An absent one is marked
/// by its own kind of error, and exports as none; what is exported is what is loaded.
pub proof fn law_kyber_lookups_agree(
    store: &WasmInMemKyberPreKeyStore,
    id: u32,
    found: Result<Vec<u8>, ProtocolError>,
    exported: Result<Option<Vec<u8>>, BridgeError>,
)
    requires
        call_ensures(WasmInMemKyberPreKeyStore::get_kyber_pre_key, (store, id), found),
        call_ensures(WasmInMemKyberPreKeyStore::export_kyber_pre_key, (store, id), exported),
    ensures
        found is Ok <==> store@.dom().contains(id),
        found matches Ok(record) ==> record@ == store@[id],
        found matches Err(e) ==> e.kind == ProtocolErrorKind::InvalidKyberPreKeyId,
        exported is Ok,
        exported->Ok_0 is Some <==> found is Ok,
        exported->Ok_0 matches Some(record) ==> record@ == found->Ok_0@,
{
}

/// A saved Kyber pre-key is loaded from then on, and every other id loads as before.
pub proof fn law_saved_kyber_record_is_loaded(
    before: WasmInMemKyberPreKeyStore,
    after: WasmInMemKyberPreKeyStore,
    id: u32,
    record: Vec<u8>,
    other: u32,
    found: Result<Vec<u8>, ProtocolError>,
    other_before: Result<Vec<u8>, ProtocolError>,
    other_after: Result<Vec<u8>, ProtocolError>,
)
    requires
        exists|store: &mut WasmInMemKyberPreKeyStore|
            *store == before && *final(store) == after && #[trigger] call_ensures(
                WasmInMemKyberPreKeyStore::save_kyber_pre_key,
                (store, id, record),
                (),
            ),
        call_ensures(WasmInMemKyberPreKeyStore::get_kyber_pre_key, (&after, id), found),
        other != id,
        call_ensures(WasmInMemKyberPreKeyStore::get_kyber_pre_key, (&before, other), other_before),
        call_ensures(WasmInMemKyberPreKeyStore::get_kyber_pre_key, (&after, other), other_after),
    ensures
        found matches Ok(bytes) && bytes@ == record@,
        other_before is Ok <==> other_after is Ok,
        other_before is Ok ==> other_before->Ok_0@ == other_after->Ok_0@,
{
}

/// A record of a Kyber pre-key is imported exactly under the id that it carries: as it
/// was read, with no other record touched. Another id is refused, and an unreadable
/// record is told; both change nothing.
pub proof fn law_kyber_import_needs_its_id<
    F: FnOnce(&[u8]) -> Result<DecodedRecord, ProtocolError>,
>(
    before: WasmInMemKyberPreKeyStore,
    after: WasmInMemKyberPreKeyStore,
    id: u32,
    bytes: &[u8],
    decode: F,
    r: Result<(), BridgeError>,
)
    requires
        exists|store: &mut WasmInMemKyberPreKeyStore|
            *store == before && *final(store) == after && #[trigger] call_ensures(
                WasmInMemKyberPreKeyStore::import_kyber_pre_key::<F>,
                (store, id, bytes, decode),
                r,
            ),
    ensures
        exists|decoded: Result<DecodedRecord, ProtocolError>| #[trigger]
            call_ensures(decode, (bytes,), decoded) && {
                &&& r is Ok <==> decoded is Ok && decoded->Ok_0.id == id
                &&& r is Ok ==> after@ == before@.insert(id, decoded->Ok_0.record@)
                &&& r is Err ==> after@ == before@
                &&& decoded matches Err(e) ==> r == Err::<(), BridgeError>(
                    BridgeError::Protocol(e),
                )
                &&& decoded is Ok && r is Err ==> (r->Err_0 matches BridgeError::Validation(m)
                    && m@ == "Kyber PreKey ID mismatch"@)
            },
{
}

/// A removed pre-key is absent from then on, and every other id loads as before.
pub proof fn law_removed_pre_key_is_absent(
    before: WasmInMemPreKeyStore,
    after: WasmInMemPreKeyStore,
    id: u32,
    other: u32,
    found: Result<Vec<u8>, ProtocolError>,
    other_before: Result<Vec<u8>, ProtocolError>,
    other_after: Result<Vec<u8>, ProtocolError>,
)
    requires
        exists|store: &mut WasmInMemPreKeyStore|
            *store == before && *final(store) == after && #[trigger] call_ensures(
                WasmInMemPreKeyStore::remove_pre_key,
                (store, id),
                (),
            ),
        call_ensures(WasmInMemPreKeyStore::get_pre_key, (&after, id), found),
        other != id,
        call_ensures(WasmInMemPreKeyStore::get_pre_key, (&before, other), other_before),
        call_ensures(WasmInMemPreKeyStore::get_pre_key, (&after, other), other_after),
    ensures
        found is Err,
        other_before is Ok <==> other_after is Ok,
        other_before is Ok ==> other_before->Ok_0@ == other_after->Ok_0@,
{
}

/// A new removable store has no sender key.
pub proof fn law_new_removable_store_is_empty(
    made: RemovableSenderKeyStore,
    sender: &WasmProtocolAddress,
    id: &Vec<u8>,
    found: Option<Vec<u8>>,
)
    requires
        call_ensures(RemovableSenderKeyStore::new, (), made),
        call_ensures(RemovableSenderKeyStore::load_sender_key, (&made, sender, id), found),
    ensures
        found is None,
{
}

/// A sender key that was stored in a removable store is loaded from then on for exactly this
/// sender and distribution; any other sender or distribution loads as before.
pub proof fn law_stored_removable_record_is_loaded(
    before: RemovableSenderKeyStore,
    after: RemovableSenderKeyStore,
    sender: &WasmProtocolAddress,
    id: &Vec<u8>,
    record: Vec<u8>,
    other_sender: &WasmProtocolAddress,
    other_id: &Vec<u8>,
    found: Option<Vec<u8>>,
    other_before: Option<Vec<u8>>,
    other_after: Option<Vec<u8>>,
)
    requires
        exists|store: &mut RemovableSenderKeyStore|
            *store == before && *final(store) == after && #[trigger] call_ensures(
                RemovableSenderKeyStore::store_sender_key,
                (store, sender, id, record),
                (),
            ),
        call_ensures(RemovableSenderKeyStore::load_sender_key, (&after, sender, id), found),
        other_sender@ != sender@ || other_id@ != id@,
        call_ensures(
            RemovableSenderKeyStore::load_sender_key,
            (&before, other_sender, other_id),
            other_before,
        ),
        call_ensures(
            RemovableSenderKeyStore::load_sender_key,
            (&after, other_sender, other_id),
            other_after,
        ),
    ensures
        found matches Some(bytes) && bytes@ == record@,
        same_record(other_before, other_after),
{
}

/// A new store has no sender key.
pub proof fn law_new_sender_key_store_is_empty(
    made: WasmInMemSenderKeyStore,
    by_default: WasmInMemSenderKeyStore,
    found_by_default: Option<Vec<u8>>,
    sender: &WasmProtocolAddress,
    id: &Vec<u8>,
    found: Option<Vec<u8>>,
)
    requires
        call_ensures(WasmInMemSenderKeyStore::new, (), made),
        call_ensures(<WasmInMemSenderKeyStore as Default>::default, (), by_default),
        call_ensures(WasmInMemSenderKeyStore::load_sender_key, (&by_default, sender, id), found_by_default),
        call_ensures(WasmInMemSenderKeyStore::load_sender_key, (&made, sender, id), found),
    ensures
        found is None,
        found_by_default is None,
{
}

/// A sender key that was stored in a store is loaded from then on for exactly this
/// sender and distribution; any other sender or distribution loads as before.
pub proof fn law_stored_sender_key_record_is_loaded(
    before: WasmInMemSenderKeyStore,
    after: WasmInMemSenderKeyStore,
    sender: &WasmProtocolAddress,
    id: &Vec<u8>,
    record: Vec<u8>,
    other_sender: &WasmProtocolAddress,
    other_id: &Vec<u8>,
    found: Option<Vec<u8>>,
    other_before: Option<Vec<u8>>,
    other_after: Option<Vec<u8>>,
)
    requires
        exists|store: &mut WasmInMemSenderKeyStore|
            *store == before && *final(store) == after && #[trigger] call_ensures(
                WasmInMemSenderKeyStore::store_sender_key,
                (store, sender, id, record),
                (),
            ),
        call_ensures(WasmInMemSenderKeyStore::load_sender_key, (&after, sender, id), found),
        other_sender@ != sender@ || other_id@ != id@,
        call_ensures(
            WasmInMemSenderKeyStore::load_sender_key,
            (&before, other_sender, other_id),
            other_before,
        ),
        call_ensures(
            WasmInMemSenderKeyStore::load_sender_key,
            (&after, other_sender, other_id),
            other_after,
        ),
    ensures
        found matches Some(bytes) && bytes@ == record@,
        same_record(other_before, other_after),
{
}

/// Removing from a removable store tells whether there was a record, leaves none for
/// exactly this sender and distribution, and touches no other.
pub proof fn law_removed_record_is_absent(
    before: RemovableSenderKeyStore,
    after: RemovableSenderKeyStore,
    sender: &WasmProtocolAddress,
    id: &Vec<u8>,
    other_sender: &WasmProtocolAddress,
    other_id: &Vec<u8>,
    removed: bool,
    found_before: Option<Vec<u8>>,
    found_after: Option<Vec<u8>>,
    other_before: Option<Vec<u8>>,
    other_after: Option<Vec<u8>>,
)
    requires
        exists|store: &mut RemovableSenderKeyStore|
            *store == before && *final(store) == after && #[trigger] call_ensures(
                RemovableSenderKeyStore::remove,
                (store, sender, id),
                removed,
            ),
        call_ensures(
            RemovableSenderKeyStore::load_sender_key,
            (&before, sender, id),
            found_before,
        ),
        call_ensures(
            RemovableSenderKeyStore::load_sender_key,
            (&after, sender, id),
            found_after,
        ),
        other_sender@ != sender@ || other_id@ != id@,
        call_ensures(
            RemovableSenderKeyStore::load_sender_key,
            (&before, other_sender, other_id),
            other_before,
        ),
        call_ensures(
            RemovableSenderKeyStore::load_sender_key,
            (&after, other_sender, other_id),
            other_after,
        ),
    ensures
        removed == found_before is Some,
        found_after is None,
        same_record(other_before, other_after),
{
}

/// Exporting, importing and removing a sender key refuse exactly the texts that are no
/// distribution ids, and then change nothing. Otherwise they work on the record of this
/// sender under the bytes of the id: an export gives it, a removal takes it and tells
/// whether it was there, and an import keeps what was read.
pub proof fn law_sender_keys_go_by_their_distribution<
    F: FnOnce(&[u8]) -> Result<Vec<u8>, ProtocolError>,
>(
    before: WasmInMemSenderKeyStore,
    removed_from: WasmInMemSenderKeyStore,
    imported_to: WasmInMemSenderKeyStore,
    address: &WasmProtocolAddress,
    distribution_id: String,
    text: &str,
    bytes: &[u8],
    decode: F,
    parsed: Result<Vec<u8>, BridgeError>,
    exported: Result<Option<Vec<u8>>, BridgeError>,
    removed: Result<bool, BridgeError>,
    imported: Result<(), BridgeError>,
)
    requires
        text@ == distribution_id@,
        call_ensures(parse_distribution_id, (text,), parsed),
        call_ensures(
            WasmInMemSenderKeyStore::export_sender_key,
            (&before, address, distribution_id),
            exported,
        ),
        exists|store: &mut WasmInMemSenderKeyStore|
            *store == before && *final(store) == removed_from && #[trigger] call_ensures(
                WasmInMemSenderKeyStore::remove_sender_key,
                (store, address, distribution_id),
                removed,
            ),
        exists|store: &mut WasmInMemSenderKeyStore|
            *store == before && *final(store) == imported_to && #[trigger] call_ensures(
                WasmInMemSenderKeyStore::import_sender_key::<F>,
                (store, address, distribution_id, bytes, decode),
                imported,
            ),
    ensures
        parsed matches Err(_) ==> {
            &&& exported matches Err(BridgeError::Validation(m)) && m@
                == "Invalid distribution id (must be a UUID string): "@ + text@
            &&& removed matches Err(BridgeError::Validation(m)) && m@
                == "Invalid distribution id (must be a UUID string): "@ + text@
            &&& imported matches Err(BridgeError::Validation(m)) && m@
                == "Invalid distribution id (must be a UUID string): "@ + text@
            &&& removed_from@ == before@
            &&& imported_to@ == before@
        },
        parsed matches Ok(id) ==> {
            &&& exported is Ok
            &&& exported->Ok_0 is Some <==> before@.dom().contains((address@, id@))
            &&& exported->Ok_0 matches Some(record) ==> record@ == before@[(address@, id@)]
            &&& removed == Ok::<bool, BridgeError>(before@.dom().contains((address@, id@)))
            &&& removed_from@ == before@.remove((address@, id@))
            &&& exists|decoded: Result<Vec<u8>, ProtocolError>| #[trigger]
                call_ensures(decode, (bytes,), decoded) && {
                    &&& imported is Ok <==> decoded is Ok
                    &&& decoded is Ok ==> imported_to@ == before@.insert(
                        (address@, id@),
                        decoded->Ok_0@,
                    )
                    &&& decoded matches Err(e) ==> imported_to@ == before@ && imported == Err::<
                        (),
                        BridgeError,
                    >(BridgeError::Protocol(e))
                }
        },
{
}

/// What an export gives is what a load gives under the bytes of the distribution id.
pub proof fn law_sender_key_export_agrees_with_the_load(
    store: &WasmInMemSenderKeyStore,
    address: &WasmProtocolAddress,
    distribution_id: String,
    text: &str,
    id: Vec<u8>,
    exported: Result<Option<Vec<u8>>, BridgeError>,
    found: Option<Vec<u8>>,
)
    requires
        text@ == distribution_id@,
        call_ensures(parse_distribution_id, (text,), Ok(id)),
        call_ensures(
            WasmInMemSenderKeyStore::export_sender_key,
            (store, address, distribution_id),
            exported,
        ),
        call_ensures(WasmInMemSenderKeyStore::load_sender_key, (store, address, &id), found),
    ensures
        exported matches Ok(record) && same_record(record, found),
{
}

} // verus!
