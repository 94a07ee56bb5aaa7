//! Laws on tables of records and on byte strings.

use crate::address::WasmProtocolAddress;
use crate::sender_keys::SenderKeyName;
use crate::table::{copy_bytes, same_bytes, RecordTable, TableKey};
use vstd::prelude::*;

verus! {

/// A new table has no record. A record that is filed is found from then on, as it was
/// given; one that is taken out is not, and taking it out tells whether it was there.
/// Neither touches the record of another key.
pub proof fn law_table_finds_what_was_filed<K: TableKey>(
    fresh: RecordTable<K>,
    before: RecordTable<K>,
    filed: RecordTable<K>,
    taken: RecordTable<K>,
    key: &K,
    other: &K,
    record: Vec<u8>,
    removed: bool,
    found_fresh: Option<Vec<u8>>,
    found_before: Option<Vec<u8>>,
    found_filed: Option<Vec<u8>>,
    found_taken: Option<Vec<u8>>,
    other_before: Option<Vec<u8>>,
    other_filed: Option<Vec<u8>>,
    other_taken: Option<Vec<u8>>,
)
    requires
        call_ensures(RecordTable::<K>::new, (), fresh),
        exists|table: &mut RecordTable<K>|
            *table == before && *final(table) == filed && #[trigger] call_ensures(
                RecordTable::<K>::insert,
                (table, key, record),
                (),
            ),
        exists|table: &mut RecordTable<K>|
            *table == before && *final(table) == taken && #[trigger] call_ensures(
                RecordTable::<K>::remove,
                (table, key),
                removed,
            ),
        call_ensures(RecordTable::<K>::get, (&fresh, key), found_fresh),
        call_ensures(RecordTable::<K>::get, (&before, key), found_before),
        call_ensures(RecordTable::<K>::get, (&filed, key), found_filed),
        call_ensures(RecordTable::<K>::get, (&taken, key), found_taken),
        other@ != key@,
        call_ensures(RecordTable::<K>::get, (&before, other), other_before),
        call_ensures(RecordTable::<K>::get, (&filed, other), other_filed),
        call_ensures(RecordTable::<K>::get, (&taken, other), other_taken),
    ensures
        found_fresh is None,
        found_filed matches Some(bytes) && bytes@ == record@,
        found_taken is None,
        removed == found_before is Some,
        crate::laws::stores::same_record(other_before, other_filed),
        crate::laws::stores::same_record(other_before, other_taken),
{
}

/// Two byte strings are the same exactly if they have the same length and the same byte
/// at every place, and a copy is the same.
pub proof fn law_same_bytes_agree_everywhere(a: &Vec<u8>, b: &Vec<u8>, same: bool, copy: Vec<u8>)
    requires
        call_ensures(same_bytes, (a, b), same),
        call_ensures(copy_bytes, (a,), copy),
    ensures
        same <==> a@.len() == b@.len() && forall|i: int|
            0 <= i < a@.len() ==> a@[i] == #[trigger] b@[i],
        copy@.len() == a@.len(),
        forall|i: int| 0 <= i < a@.len() ==> a@[i] == #[trigger] copy@[i],
{
    if a@.len() == b@.len() && forall|i: int| 0 <= i < a@.len() ==> a@[i] == #[trigger] b@[i] {
        assert(a@ =~= b@);
    }
}

/// Two addresses file the same record exactly if they show the same name and the same
/// device.
pub proof fn law_addresses_file_by_name_and_device(
    a: WasmProtocolAddress,
    b: WasmProtocolAddress,
    name_a: String,
    name_b: String,
    device_a: u32,
    device_b: u32,
    same: bool,
)
    requires
        call_ensures(WasmProtocolAddress::name, (&a,), name_a),
        call_ensures(WasmProtocolAddress::name, (&b,), name_b),
        call_ensures(WasmProtocolAddress::device_id, (&a,), device_a),
        call_ensures(WasmProtocolAddress::device_id, (&b,), device_b),
        call_ensures(<WasmProtocolAddress as TableKey>::same_key, (&a, &b), same),
    ensures
        same <==> name_a@ == name_b@ && device_a == device_b,
        a@ == b@ <==> name_a@ == name_b@ && device_a == device_b,
{
}

/// Two sender keys are filed together exactly if their senders and the bytes of their
/// distribution ids are the same.
pub proof fn law_sender_keys_file_by_sender_and_distribution(
    sender_a: &WasmProtocolAddress,
    sender_b: &WasmProtocolAddress,
    id_a: &Vec<u8>,
    id_b: &Vec<u8>,
    a: SenderKeyName,
    b: SenderKeyName,
    same: bool,
)
    requires
        call_ensures(SenderKeyName::new, (sender_a, id_a), a),
        call_ensures(SenderKeyName::new, (sender_b, id_b), b),
        call_ensures(<SenderKeyName as TableKey>::same_key, (&a, &b), same),
    ensures
        same <==> sender_a@ == sender_b@ && id_a@ == id_b@,
{
}

} // verus!
