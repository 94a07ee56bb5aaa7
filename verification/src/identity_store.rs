//! The store of identities: the local one, and the remote ones that are pinned.

use crate::address::{AddressView, WasmProtocolAddress};
use crate::error::{BridgeError, ProtocolError, ProtocolErrorKind};
use crate::keys::WasmIdentityKeyPair;
use crate::table::{same_bytes, RecordTable};
use vstd::prelude::*;
use vstd::string::*;

verus! {

/// What an identity store holds.
#[verifier::ext_equal]
pub struct IdentityStoreView {
    /// The local identity: its public and its private key.
    pub identity: (Seq<u8>, Seq<u8>),
    /// The local registration id.
    pub registration_id: u32,
    /// The remote public identity keys, by address.
    pub pins: Map<AddressView, Seq<u8>>,
}

/// An in-memory store of identities.
pub struct WasmInMemIdentityKeyStore {
    identity_key_pair: WasmIdentityKeyPair,
    registration_id: u32,
    known_keys: RecordTable<WasmProtocolAddress>,
}

impl View for WasmInMemIdentityKeyStore {
    type V = IdentityStoreView;

    closed spec fn view(&self) -> IdentityStoreView {
        IdentityStoreView {
            identity: self.identity_key_pair@,
            registration_id: self.registration_id,
            pins: self.known_keys@,
        }
    }
}

/// The pins after `key` was to be pinned for `address`: a pin that exists stays.
pub open spec fn pins_after(
    pins: Map<AddressView, Seq<u8>>,
    address: AddressView,
    key: Seq<u8>,
) -> Map<AddressView, Seq<u8>> {
    if pins.dom().contains(address) {
        pins
    } else {
        pins.insert(address, key)
    }
}

/// A key is trusted for an address that has no pin, or that has this pin.
pub open spec fn trusted(
    pins: Map<AddressView, Seq<u8>>,
    address: AddressView,
    key: Seq<u8>,
) -> bool {
    pins.dom().contains(address) ==> pins[address] == key
}

/// What pinning does with a decoded key, and what it answers.
pub open spec fn pin_outcome(
    before: IdentityStoreView,
    after: IdentityStoreView,
    address: AddressView,
    decoded: Result<Vec<u8>, ProtocolError>,
    r: Result<bool, BridgeError>,
) -> bool {
    match decoded {
        Err(e) => after == before && r == Err::<bool, BridgeError>(BridgeError::Protocol(e)),
        Ok(key) => {
            &&& after == (IdentityStoreView {
                pins: pins_after(before.pins, address, key@),
                ..before
            })
            &&& if !before.pins.dom().contains(address) {
                r == Ok::<bool, BridgeError>(true)
            } else if before.pins[address] == key@ {
                r == Ok::<bool, BridgeError>(false)
            } else {
                r == Err::<bool, BridgeError>(BridgeError::PinReplacement)
            }
        },
    }
}

/// What asserting a decoded key answers.
pub open spec fn assertion_outcome(
    pins: Map<AddressView, Seq<u8>>,
    address: AddressView,
    decoded: Result<Vec<u8>, ProtocolError>,
) -> Result<(), BridgeError> {
    match decoded {
        Err(e) => Err(BridgeError::Protocol(e)),
        Ok(key) => if !pins.dom().contains(address) {
            Err(BridgeError::PinMissing)
        } else if pins[address] == key@ {
            Ok(())
        } else {
            Err(BridgeError::PinMismatch)
        },
    }
}

/// What saving a key does, and what it answers.
pub open spec fn save_outcome(
    before: IdentityStoreView,
    after: IdentityStoreView,
    address: AddressView,
    key: Seq<u8>,
    r: Result<(), ProtocolError>,
) -> bool {
    if trusted(before.pins, address, key) {
        after == (IdentityStoreView { pins: before.pins.insert(address, key), ..before }) && r
            == Ok::<(), ProtocolError>(())
    } else {
        after == before && (r matches Err(e) && e.kind == ProtocolErrorKind::UntrustedIdentity
            && e.detail@ == "another identity is pinned for this address"@)
    }
}

impl WasmInMemIdentityKeyStore {
    /// A store with this local identity and no pins.
    pub fn new(identity_key_pair: &WasmIdentityKeyPair, registration_id: u32) -> (store:
        WasmInMemIdentityKeyStore)
        ensures
            store@ == (IdentityStoreView {
                identity: identity_key_pair@,
                registration_id,
                pins: Map::empty(),
            }),
    {
        WasmInMemIdentityKeyStore {
            identity_key_pair: identity_key_pair.clone(),
            registration_id,
            known_keys: RecordTable::new(),
        }
    }

    /// The public identity key that is pinned for `address`, if one is. The bytes
    /// let a client keep its complete trust state beside its sessions.
    pub fn pinned_remote_identity(&self, address: &WasmProtocolAddress) -> (r: Result<
        Option<Vec<u8>>,
        BridgeError,
    >)
        ensures
            r matches Ok(pin) && match pin {
                Some(key) => self@.pins.dom().contains(address@) && self@.pins[address@] == key@,
                None => !self@.pins.dom().contains(address@),
            },
    {
        Ok(self.known_keys.get(address))
    }

    /// Pins a remote public identity key, trusting it on first use only.
    ///
    /// `decode` reads the key and gives it back in its serialized form.
    /// A key may be pinned once, or again if it is the same; another key in its
    /// place is refused. Pinning never replaces a pin: identity rotation takes a new
    /// store.
    ///
    /// Gives `true` where this call made a new pin.
    pub fn pin_remote_identity<F: FnOnce(&[u8]) -> Result<Vec<u8>, ProtocolError>>(
        &mut self,
        address: &WasmProtocolAddress,
        identity_key: &[u8],
        decode: F,
    ) -> (r: Result<bool, BridgeError>)
        requires
            call_requires(decode, (identity_key,)),
        ensures
            exists|outcome: Result<Vec<u8>, ProtocolError>| #[trigger]
                call_ensures(decode, (identity_key,), outcome) && pin_outcome(
                    old(self)@,
                    final(self)@,
                    address@,
                    outcome,
                    r,
                ),
    {
        let candidate = match decode(identity_key) {
            Ok(key) => key,
            Err(e) => {
                return Err(BridgeError::Protocol(e));
            },
        };
        match self.known_keys.get(address) {
            Some(existing) => {
                if same_bytes(&existing, &candidate) {
                    Ok(false)
                } else {
                    Err(BridgeError::PinReplacement)
                }
            },
            None => {
                self.known_keys.insert(address, candidate);
                Ok(true)
            },
        }
    }

    /// Requires that `identity_key`, which `decode` reads, is pinned for `address`.
    /// A missing pin is an error, never implicit approval.
    pub fn assert_pinned_remote_identity<F: FnOnce(&[u8]) -> Result<Vec<u8>, ProtocolError>>(
        &self,
        address: &WasmProtocolAddress,
        identity_key: &[u8],
        decode: F,
    ) -> (r: Result<(), BridgeError>)
        requires
            call_requires(decode, (identity_key,)),
        ensures
            exists|outcome: Result<Vec<u8>, ProtocolError>| #[trigger]
                call_ensures(decode, (identity_key,), outcome) && r == assertion_outcome(
                    self@.pins,
                    address@,
                    outcome,
                ),
    {
        let expected = match decode(identity_key) {
            Ok(key) => key,
            Err(e) => {
                return Err(BridgeError::Protocol(e));
            },
        };
        match self.known_keys.get(address) {
            Some(existing) => {
                if same_bytes(&existing, &expected) {
                    Ok(())
                } else {
                    Err(BridgeError::PinMismatch)
                }
            },
            None => Err(BridgeError::PinMissing),
        }
    }

    /// The local identity.
    pub fn identity_key_pair(&self) -> (pair: WasmIdentityKeyPair)
        ensures
            pair@ == self@.identity,
    {
        self.identity_key_pair.clone()
    }

    /// The local registration id.
    pub fn local_registration_id(&self) -> (id: u32)
        ensures
            id == self@.registration_id,
    {
        self.registration_id
    }

    /// Whether the protocol may go on with `key` for `address`: it is the pinned
    /// key, or none is pinned.
    pub fn is_trusted_identity(&self, address: &WasmProtocolAddress, key: &Vec<u8>) -> (r: bool)
        ensures
            r == trusted(self@.pins, address@, key@),
    {
        match self.known_keys.get(address) {
            Some(existing) => same_bytes(&existing, key),
            None => true,
        }
    }

    /// Records the key that the protocol established for `address`, which it does once
    /// its trust check has passed. A key that does not pass is refused: no operation
    /// replaces a pin.
    pub fn save_identity(&mut self, address: &WasmProtocolAddress, key: Vec<u8>) -> (r: Result<
        (),
        ProtocolError,
    >)
        ensures
            save_outcome(old(self)@, final(self)@, address@, key@, r),
    {
        if !self.is_trusted_identity(address, &key) {
            return Err(
                ProtocolError {
                    kind: ProtocolErrorKind::UntrustedIdentity,
                    detail: String::from_str("another identity is pinned for this address"),
                },
            );
        }
        self.known_keys.insert(address, key);
        Ok(())
    }
}

/// A pin that exists is never changed by pinning anything for any address.
pub proof fn law_pin_is_never_replaced(
    pins: Map<AddressView, Seq<u8>>,
    pinned: AddressView,
    address: AddressView,
    key: Seq<u8>,
)
    requires
        pins.dom().contains(pinned),
    ensures
        pins_after(pins, address, key).dom().contains(pinned),
        pins_after(pins, address, key)[pinned] == pins[pinned],
{
}

/// Pinning the same key again changes nothing, and so does a second attempt with
/// another key.
pub proof fn law_pinning_is_idempotent(
    pins: Map<AddressView, Seq<u8>>,
    address: AddressView,
    key: Seq<u8>,
    other: Seq<u8>,
)
    ensures
        pins_after(pins_after(pins, address, key), address, other) == pins_after(
            pins,
            address,
            key,
        ),
{
}

/// The pins after a series of attempts.
pub open spec fn pins_after_all(
    pins: Map<AddressView, Seq<u8>>,
    attempts: Seq<(AddressView, Seq<u8>)>,
) -> Map<AddressView, Seq<u8>>
    decreases attempts.len(),
{
    if attempts.len() == 0 {
        pins
    } else {
        pins_after(
            pins_after_all(pins, attempts.drop_last()),
            attempts.last().0,
            attempts.last().1,
        )
    }
}

/// However many attempts follow, a pin keeps its key.
pub proof fn law_pins_outlast_any_attempts(
    pins: Map<AddressView, Seq<u8>>,
    attempts: Seq<(AddressView, Seq<u8>)>,
    pinned: AddressView,
)
    requires
        pins.dom().contains(pinned),
    ensures
        pins_after_all(pins, attempts).dom().contains(pinned),
        pins_after_all(pins, attempts)[pinned] == pins[pinned],
    decreases attempts.len(),
{
    if attempts.len() > 0 {
        law_pins_outlast_any_attempts(pins, attempts.drop_last(), pinned);
    }
}

/// The exported pins, in the order of `addresses`.
pub open spec fn exported_pins(
    pins: Map<AddressView, Seq<u8>>,
    addresses: Seq<AddressView>,
) -> Seq<(AddressView, Seq<u8>)> {
    Seq::new(addresses.len(), |i: int| (addresses[i], pins[addresses[i]]))
}

/// Pinning every exported key in a new store restores the pins.
pub proof fn law_pins_survive_a_restart(
    pins: Map<AddressView, Seq<u8>>,
    addresses: Seq<AddressView>,
)
    requires
        forall|a: AddressView| pins.dom().contains(a) <==> addresses.contains(a),
    ensures
        pins_after_all(Map::empty(), exported_pins(pins, addresses)) == pins,
{
    lemma_restored_prefix(pins, addresses);
    assert(pins_after_all(Map::empty(), exported_pins(pins, addresses)) =~= pins);
}

/// Pinning the exported keys of `addresses` gives the pins of those addresses.
proof fn lemma_restored_prefix(
    pins: Map<AddressView, Seq<u8>>,
    addresses: Seq<AddressView>,
)
    ensures
        forall|a: AddressView| #[trigger]
            pins_after_all(Map::empty(), exported_pins(pins, addresses)).dom().contains(a)
                <==> addresses.contains(a),
        forall|a: AddressView|
            addresses.contains(a) ==> #[trigger] pins_after_all(
                Map::empty(),
                exported_pins(pins, addresses),
            )[a] == pins[a],
    decreases addresses.len(),
{
    let attempts = exported_pins(pins, addresses);
    if addresses.len() > 0 {
        let shorter = addresses.drop_last();
        let last = addresses.last();
        let before = pins_after_all(Map::empty(), exported_pins(pins, shorter));
        let after = pins_after_all(Map::empty(), attempts);
        lemma_restored_prefix(pins, shorter);
        assert(attempts.drop_last() =~= exported_pins(pins, shorter));
        assert(attempts.last() == (last, pins[last]));
        assert(after == pins_after(before, last, pins[last]));
        assert forall|a: AddressView| #[trigger] after.dom().contains(a) <==> addresses.contains(
            a,
        ) by {
            lemma_contains_last(addresses, a);
            assert(before.dom().contains(a) <==> shorter.contains(a));
        }
        assert forall|a: AddressView| addresses.contains(a) implies #[trigger] after[a]
            == pins[a] by {
            lemma_contains_last(addresses, a);
            if shorter.contains(a) {
                assert(before.dom().contains(a));
                assert(before[a] == pins[a]);
            }
            assert(before.dom().contains(last) <==> shorter.contains(last));
        }
    }
}

/// A sequence holds what its front holds, and its last element.
proof fn lemma_contains_last(addresses: Seq<AddressView>, a: AddressView)
    requires
        addresses.len() > 0,
    ensures
        addresses.contains(a) <==> addresses.drop_last().contains(a) || a == addresses.last(),
{
    let shorter = addresses.drop_last();
    if addresses.contains(a) {
        let i = addresses.index_of(a);
        if i < shorter.len() {
            assert(shorter[i] == a);
        }
    }
    if shorter.contains(a) {
        let i = shorter.index_of(a);
        assert(addresses[i] == a);
    }
    assert(addresses[addresses.len() - 1] == addresses.last());
}

/// Once a key is pinned, the trust check refuses every other key for the address,
/// and accepts the pinned one.
pub proof fn law_pin_decides_trust(
    pins: Map<AddressView, Seq<u8>>,
    address: AddressView,
    key: Seq<u8>,
    presented: Seq<u8>,
)
    requires
        !pins.dom().contains(address) || pins[address] == key,
    ensures
        trusted(pins_after(pins, address, key), address, presented) <==> presented == key,
{
}

/// Recording a key that passed the trust check replaces no pin.
pub proof fn law_trusted_identity_replaces_no_pin(
    pins: Map<AddressView, Seq<u8>>,
    address: AddressView,
    key: Seq<u8>,
)
    requires
        trusted(pins, address, key),
    ensures
        pins.insert(address, key) == pins_after(pins, address, key),
{
    assert(pins.insert(address, key) =~= pins_after(pins, address, key));
}

/// The pins after one step: a pinning attempt, or the saving of a key that passed the
/// trust check.
pub open spec fn pins_step(
    before: Map<AddressView, Seq<u8>>,
    after: Map<AddressView, Seq<u8>>,
    address: AddressView,
    key: Seq<u8>,
) -> bool {
    ||| after == pins_after(before, address, key)
    ||| trusted(before, address, key) && after == before.insert(address, key)
}

/// The pins `after` follow from `before` by one step.
pub open spec fn pins_follow(
    before: Map<AddressView, Seq<u8>>,
    after: Map<AddressView, Seq<u8>>,
) -> bool {
    exists|address: AddressView, key: Seq<u8>| pins_step(before, after, address, key)
}

/// Each of the states follows from the one before it by one step.
pub open spec fn pins_series(states: Seq<Map<AddressView, Seq<u8>>>) -> bool {
    &&& states.len() > 0
    &&& forall|i: int, j: int|
        0 <= i && j == i + 1 && j < states.len() ==> pins_follow(
            #[trigger] states[i],
            #[trigger] states[j],
        )
}

/// The pins `after` are reached from `before` by any number of pinning attempts and
/// trusted saves.
pub open spec fn pins_reached(
    before: Map<AddressView, Seq<u8>>,
    after: Map<AddressView, Seq<u8>>,
) -> bool {
    exists|states: Seq<Map<AddressView, Seq<u8>>>| #[trigger]
        pins_series(states) && states.first() == before && states.last() == after
}

/// A series of steps keeps every pin.
proof fn lemma_series_keeps_pins(
    states: Seq<Map<AddressView, Seq<u8>>>,
    pinned: AddressView,
)
    requires
        pins_series(states),
        states.first().dom().contains(pinned),
    ensures
        states.last().dom().contains(pinned),
        states.last()[pinned] == states.first()[pinned],
    decreases states.len(),
{
    if states.len() > 1 {
        let shorter = states.drop_last();
        assert forall|i: int, j: int| 0 <= i && j == i + 1 && j < shorter.len() implies pins_follow(
            #[trigger] shorter[i],
            #[trigger] shorter[j],
        ) by {
            assert(shorter[i] == states[i] && shorter[j] == states[j]);
        }
        lemma_series_keeps_pins(shorter, pinned);
        let previous = states[states.len() - 2];
        let last = states[states.len() - 1];
        assert(pins_follow(previous, last));
        assert(shorter.last() == previous && states.last() == last);
    }
}

/// A pin outlasts any series of pinning attempts and trusted saves together.
pub proof fn law_pins_outlast_any_steps(
    before: Map<AddressView, Seq<u8>>,
    after: Map<AddressView, Seq<u8>>,
    pinned: AddressView,
)
    requires
        pins_reached(before, after),
        before.dom().contains(pinned),
    ensures
        after.dom().contains(pinned),
        after[pinned] == before[pinned],
{
    let states = choose|states: Seq<Map<AddressView, Seq<u8>>>| #[trigger]
        pins_series(states) && states.first() == before && states.last() == after;
    lemma_series_keeps_pins(states, pinned);
}

/// One step reaches its outcome, and so does none.
pub proof fn law_steps_are_series(
    before: Map<AddressView, Seq<u8>>,
    after: Map<AddressView, Seq<u8>>,
    address: AddressView,
    key: Seq<u8>,
)
    requires
        after == before || pins_step(before, after, address, key),
    ensures
        pins_reached(before, after),
{
    if after == before {
        let states = seq![before];
        assert(pins_series(states) && states.first() == before && states.last() == after);
    } else {
        let states = seq![before, after];
        assert forall|i: int, j: int| 0 <= i && j == i + 1 && j < states.len() implies pins_follow(
            #[trigger] states[i],
            #[trigger] states[j],
        ) by {
            assert(pins_step(states[i], states[j], address, key));
        }
        assert(pins_series(states) && states.first() == before && states.last() == after);
    }
}

/// What one series reaches from where another ended is reached by both together.
pub proof fn law_series_compose(
    before: Map<AddressView, Seq<u8>>,
    between: Map<AddressView, Seq<u8>>,
    after: Map<AddressView, Seq<u8>>,
)
    requires
        pins_reached(before, between),
        pins_reached(between, after),
    ensures
        pins_reached(before, after),
{
    let first = choose|states: Seq<Map<AddressView, Seq<u8>>>| #[trigger]
        pins_series(states) && states.first() == before && states.last() == between;
    let second = choose|states: Seq<Map<AddressView, Seq<u8>>>| #[trigger]
        pins_series(states) && states.first() == between && states.last() == after;
    let states = first + second.drop_first();
    let n = first.len() as int;
    assert forall|i: int, j: int| 0 <= i && j == i + 1 && j < states.len() implies pins_follow(
            #[trigger] states[i],
            #[trigger] states[j],
        ) by {
        if j < n {
            assert(states[i] == first[i] && states[j] == first[j]);
        } else {
            assert(states[i] == second[i - n + 1] && states[j] == second[j - n + 1]);
        }
    }
    assert(states.first() == before);
    assert(states.last() == after);
    assert(pins_series(states));
}

/// Pinning changes the pins by such a series, whatever it is given and whatever it
/// answers.
pub proof fn law_pinning_is_a_series(
    before: IdentityStoreView,
    after: IdentityStoreView,
    address: AddressView,
    decoded: Result<Vec<u8>, ProtocolError>,
    r: Result<bool, BridgeError>,
)
    requires
        pin_outcome(before, after, address, decoded, r),
    ensures
        pins_reached(before.pins, after.pins),
{
    match decoded {
        Ok(key) => {
            assert(pins_step(before.pins, after.pins, address, key@));
            law_steps_are_series(before.pins, after.pins, address, key@);
        },
        Err(_) => {
            law_steps_are_series(before.pins, after.pins, address, Seq::empty());
        },
    }
}

/// Saving changes the pins by such a series too, whatever it is given and whatever it
/// answers.
pub proof fn law_saving_is_a_series(
    before: IdentityStoreView,
    after: IdentityStoreView,
    address: AddressView,
    key: Seq<u8>,
    r: Result<(), ProtocolError>,
)
    requires
        save_outcome(before, after, address, key, r),
    ensures
        pins_reached(before.pins, after.pins),
{
    law_steps_are_series(before.pins, after.pins, address, key);
}

} // verus!
