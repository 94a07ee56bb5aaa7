//! The store of sessions, as serialized session records by address.

use crate::address::{AddressView, WasmProtocolAddress};
use crate::error::{BridgeError, ProtocolError};
use crate::table::RecordTable;
use vstd::prelude::*;

verus! {

/// An in-memory store of sessions.
pub struct WasmInMemSessionStore {
    sessions: RecordTable<WasmProtocolAddress>,
}

impl View for WasmInMemSessionStore {
    type V = Map<AddressView, Seq<u8>>;

    closed spec fn view(&self) -> Map<AddressView, Seq<u8>> {
        self.sessions@
    }
}

/// What archiving or importing does with the record for `address` that the protocol
/// gave.
pub open spec fn kept_outcome(
    before: Map<AddressView, Seq<u8>>,
    after: Map<AddressView, Seq<u8>>,
    address: AddressView,
    given: Result<Vec<u8>, ProtocolError>,
    r: Result<(), BridgeError>,
) -> bool {
    match given {
        Ok(record) => after == before.insert(address, record@) && r == Ok::<(), BridgeError>(()),
        Err(e) => after == before && r == Err::<(), BridgeError>(BridgeError::Protocol(e)),
    }
}

impl WasmInMemSessionStore {
    /// A store without sessions.
    pub fn new() -> (store: WasmInMemSessionStore)
        ensures
            store@ == Map::<AddressView, Seq<u8>>::empty(),
    {
        WasmInMemSessionStore { sessions: RecordTable::new() }
    }

    /// The session record of `address`.
    pub fn load_session(&self, address: &WasmProtocolAddress) -> (record: Option<Vec<u8>>)
        ensures
            match record {
                Some(bytes) => self@.dom().contains(address@) && self@[address@] == bytes@,
                None => !self@.dom().contains(address@),
            },
    {
        self.sessions.get(address)
    }

    /// Keeps `record` as the session of `address`.
    pub fn store_session(&mut self, address: &WasmProtocolAddress, record: Vec<u8>)
        ensures
            final(self)@ == old(self)@.insert(address@, record@),
    {
        self.sessions.insert(address, record);
    }

    /// Whether there is a session with `address`.
    pub fn has_session(&self, address: &WasmProtocolAddress) -> (r: Result<bool, BridgeError>)
        ensures
            r == Ok::<bool, BridgeError>(self@.dom().contains(address@)),
    {
        Ok(self.load_session(address).is_some())
    }

    /// Archives the current state of the session with `address`, if there is one:
    /// `archive` turns its record into the one to keep.
    pub fn archive_session<F: FnOnce(Vec<u8>) -> Result<Vec<u8>, ProtocolError>>(
        &mut self,
        address: &WasmProtocolAddress,
        archive: F,
    ) -> (r: Result<(), BridgeError>)
        requires
            old(self)@.dom().contains(address@) ==> forall|record: Vec<u8>|
                record@ == old(self)@[address@] ==> #[trigger] call_requires(archive, (record,)),
        ensures
            if old(self)@.dom().contains(address@) {
                exists|record: Vec<u8>, archived: Result<Vec<u8>, ProtocolError>|
                    record@ == old(self)@[address@] && #[trigger] call_ensures(
                        archive,
                        (record,),
                        archived,
                    ) && kept_outcome(old(self)@, final(self)@, address@, archived, r)
            } else {
                final(self)@ == old(self)@ && r == Ok::<(), BridgeError>(())
            },
    {
        match self.load_session(address) {
            Some(record) => {
                match archive(record) {
                    Ok(archived) => {
                        self.store_session(address, archived);
                        Ok(())
                    },
                    Err(e) => Err(BridgeError::Protocol(e)),
                }
            },
            None => Ok(()),
        }
    }

    /// The session record of `address`, to be kept elsewhere.
    pub fn export_session(&self, address: &WasmProtocolAddress) -> (r: Result<
        Option<Vec<u8>>,
        BridgeError,
    >)
        ensures
            r matches Ok(record) && match record {
                Some(bytes) => self@.dom().contains(address@) && self@[address@] == bytes@,
                None => !self@.dom().contains(address@),
            },
    {
        Ok(self.load_session(address))
    }

    /// Takes over a session record for `address`. `decode` reads it and gives it
    /// back in its serialized form.
    pub fn import_session<F: FnOnce(&[u8]) -> Result<Vec<u8>, ProtocolError>>(
        &mut self,
        address: &WasmProtocolAddress,
        session_bytes: &[u8],
        decode: F,
    ) -> (r: Result<(), BridgeError>)
        requires
            call_requires(decode, (session_bytes,)),
        ensures
            exists|decoded: Result<Vec<u8>, ProtocolError>| #[trigger]
                call_ensures(decode, (session_bytes,), decoded) && kept_outcome(
                    old(self)@,
                    final(self)@,
                    address@,
                    decoded,
                    r,
                ),
    {
        match decode(session_bytes) {
            Ok(record) => {
                self.store_session(address, record);
                Ok(())
            },
            Err(e) => Err(BridgeError::Protocol(e)),
        }
    }
}

impl Default for WasmInMemSessionStore {
    fn default() -> (store: Self)
        ensures
            store@ == Map::<AddressView, Seq<u8>>::empty(),
    {
        Self::new()
    }
}

/// Archiving neither makes nor drops a session, and touches no other one.
pub proof fn law_archiving_keeps_every_session(
    before: Map<AddressView, Seq<u8>>,
    after: Map<AddressView, Seq<u8>>,
    address: AddressView,
    archived: Result<Vec<u8>, ProtocolError>,
    r: Result<(), BridgeError>,
)
    requires
        before.dom().contains(address),
        kept_outcome(before, after, address, archived, r),
    ensures
        after.dom() == before.dom(),
        forall|other: AddressView|
            other != address && before.dom().contains(other) ==> #[trigger] after[other]
                == before[other],
{
    assert(after.dom() =~= before.dom());
}

/// Archiving a session twice leaves what archiving it once left, where the archiver
/// gives an archived record back as it is.
pub proof fn law_archiving_twice_is_archiving_once(
    before: Map<AddressView, Seq<u8>>,
    once: Map<AddressView, Seq<u8>>,
    twice: Map<AddressView, Seq<u8>>,
    address: AddressView,
    first: Result<Vec<u8>, ProtocolError>,
    second: Result<Vec<u8>, ProtocolError>,
    r1: Result<(), BridgeError>,
    r2: Result<(), BridgeError>,
)
    requires
        kept_outcome(before, once, address, first, r1),
        r1 is Ok,
        kept_outcome(once, twice, address, second, r2),
        first matches Ok(archived) ==> (second matches Ok(again) && again@ == archived@),
    ensures
        r2 is Ok,
        twice == once,
{
    assert(twice =~= once);
}

/// An exported session, imported into any store by a decoder that reads it
/// faithfully, is there as it was, and no other session of that store changes.
pub proof fn law_session_survives_a_restart(
    exporter: Map<AddressView, Seq<u8>>,
    before: Map<AddressView, Seq<u8>>,
    after: Map<AddressView, Seq<u8>>,
    address: AddressView,
    decoded: Result<Vec<u8>, ProtocolError>,
    r: Result<(), BridgeError>,
)
    requires
        exporter.dom().contains(address),
        decoded matches Ok(record) && record@ == exporter[address],
        kept_outcome(before, after, address, decoded, r),
    ensures
        r is Ok,
        after.dom().contains(address),
        after[address] == exporter[address],
        forall|other: AddressView|
            other != address ==> (#[trigger] after.dom().contains(other) <==> before.dom().contains(
                other,
            )),
        forall|other: AddressView|
            other != address && before.dom().contains(other) ==> #[trigger] after[other]
                == before[other],
{
}

} // verus!
