//! Pre-keys and their generation.

use crate::error::{BridgeError, ProtocolError};
use crate::keys::{WasmIdentityKeyPair, WasmPrivateKey};
use crate::outside::{duplicate, expose, seal, SecretBytes};
use crate::pre_key_stores::{
    WasmInMemKyberPreKeyStore, WasmInMemPreKeyStore, WasmInMemSignedPreKeyStore,
};
use crate::table::copy_bytes;
use crate::text::{decimal, join};
use vstd::prelude::*;
use vstd::string::*;

verus! {

/// The most pre-keys that one batch may hold.
pub const MAX_PREKEY_BATCH_SIZE: u32 = 500;

/// A key pair that was just generated: its serialized public half, and the pair
/// as the protocol holds it.
pub struct GeneratedPair<P> {
    pub public_key: Vec<u8>,
    pub pair: P,
}

/// What a one-time pre-key consists of.
#[verifier::ext_equal]
pub struct PreKeyView {
    pub id: u32,
    pub public_key: Seq<u8>,
    /// The serialized record, with the private half.
    pub record: Seq<u8>,
}

/// A one-time pre-key. The record holds the private half and is overwritten when
/// the value is dropped.
pub struct WasmPreKey {
    id: u32,
    public_key: Vec<u8>,
    record: SecretBytes,
}

impl View for WasmPreKey {
    type V = PreKeyView;

    closed spec fn view(&self) -> PreKeyView {
        PreKeyView { id: self.id, public_key: self.public_key@, record: self.record@ }
    }
}

impl WasmPreKey {
    /// The id.
    pub fn id(&self) -> (id: u32)
        ensures
            id == self@.id,
    {
        self.id
    }

    /// The serialized public half.
    pub fn public_key(&self) -> (bytes: Vec<u8>)
        ensures
            bytes@ == self@.public_key,
    {
        copy_bytes(&self.public_key)
    }

    /// The serialized record.
    pub fn record(&self) -> (bytes: Vec<u8>)
        ensures
            bytes@ == self@.record,
    {
        expose(&self.record)
    }
}

impl Clone for WasmPreKey {
    fn clone(&self) -> (copy: Self)
        ensures
            copy@ == self@,
    {
        WasmPreKey {
            id: self.id,
            public_key: copy_bytes(&self.public_key),
            record: duplicate(&self.record),
        }
    }
}

/// What a signed pre-key, or a Kyber pre-key, consists of.
#[verifier::ext_equal]
pub struct SignedPreKeyView {
    pub id: u32,
    pub public_key: Seq<u8>,
    /// The identity's signature of the public half.
    pub signature: Seq<u8>,
    /// The time of generation, in milliseconds since the epoch.
    pub timestamp: u64,
    /// The serialized record, with the private half.
    pub record: Seq<u8>,
}

/// A signed pre-key. The record holds the private half and is overwritten when
/// the value is dropped.
pub struct WasmSignedPreKey {
    id: u32,
    public_key: Vec<u8>,
    signature: Vec<u8>,
    timestamp: u64,
    record: SecretBytes,
}

impl View for WasmSignedPreKey {
    type V = SignedPreKeyView;

    closed spec fn view(&self) -> SignedPreKeyView {
        SignedPreKeyView {
            id: self.id,
            public_key: self.public_key@,
            signature: self.signature@,
            timestamp: self.timestamp,
            record: self.record@,
        }
    }
}

impl WasmSignedPreKey {
    /// The id.
    pub fn id(&self) -> (id: u32)
        ensures
            id == self@.id,
    {
        self.id
    }

    /// The serialized public half.
    pub fn public_key(&self) -> (bytes: Vec<u8>)
        ensures
            bytes@ == self@.public_key,
    {
        copy_bytes(&self.public_key)
    }

    /// The identity's signature of the public half.
    pub fn signature(&self) -> (bytes: Vec<u8>)
        ensures
            bytes@ == self@.signature,
    {
        copy_bytes(&self.signature)
    }

    /// The time of generation.
    pub fn timestamp(&self) -> (millis: u64)
        ensures
            millis == self@.timestamp,
    {
        self.timestamp
    }

    /// The serialized record.
    pub fn record(&self) -> (bytes: Vec<u8>)
        ensures
            bytes@ == self@.record,
    {
        expose(&self.record)
    }
}

impl Clone for WasmSignedPreKey {
    fn clone(&self) -> (copy: Self)
        ensures
            copy@ == self@,
    {
        WasmSignedPreKey {
            id: self.id,
            public_key: copy_bytes(&self.public_key),
            signature: copy_bytes(&self.signature),
            timestamp: self.timestamp,
            record: duplicate(&self.record),
        }
    }
}

/// A Kyber pre-key, for post-quantum security. The record holds the private half
/// and is overwritten when the value is dropped.
pub struct WasmKyberPreKey {
    id: u32,
    public_key: Vec<u8>,
    signature: Vec<u8>,
    timestamp: u64,
    record: SecretBytes,
}

impl View for WasmKyberPreKey {
    type V = SignedPreKeyView;

    closed spec fn view(&self) -> SignedPreKeyView {
        SignedPreKeyView {
            id: self.id,
            public_key: self.public_key@,
            signature: self.signature@,
            timestamp: self.timestamp,
            record: self.record@,
        }
    }
}

impl WasmKyberPreKey {
    /// The id.
    pub fn id(&self) -> (id: u32)
        ensures
            id == self@.id,
    {
        self.id
    }

    /// The serialized public half.
    pub fn public_key(&self) -> (bytes: Vec<u8>)
        ensures
            bytes@ == self@.public_key,
    {
        copy_bytes(&self.public_key)
    }

    /// The identity's signature of the public half.
    pub fn signature(&self) -> (bytes: Vec<u8>)
        ensures
            bytes@ == self@.signature,
    {
        copy_bytes(&self.signature)
    }

    /// The time of generation.
    pub fn timestamp(&self) -> (millis: u64)
        ensures
            millis == self@.timestamp,
    {
        self.timestamp
    }

    /// The serialized record.
    pub fn record(&self) -> (bytes: Vec<u8>)
        ensures
            bytes@ == self@.record,
    {
        expose(&self.record)
    }
}

impl Clone for WasmKyberPreKey {
    fn clone(&self) -> (copy: Self)
        ensures
            copy@ == self@,
    {
        WasmKyberPreKey {
            id: self.id,
            public_key: copy_bytes(&self.public_key),
            signature: copy_bytes(&self.signature),
            timestamp: self.timestamp,
            record: duplicate(&self.record),
        }
    }
}

/// The id of the pre-key at position `i` of a batch: ids have 24 bits and wrap
/// around.
pub open spec fn batch_id(start_id: u32, i: int) -> u32 {
    ((start_id + i) % 0x100_0000) as u32
}

/// The id of the pre-key at position `i` of a batch.
fn pre_key_id(start_id: u32, i: u32) -> (id: u32)
    ensures
        id == batch_id(start_id, i as int),
{
    let sum = start_id.wrapping_add(i);
    assert(sum & 0x00FF_FFFF == sum % 0x100_0000) by (bit_vector);
    sum & 0x00FF_FFFF
}

/// One step of a batch: the pair that was generated, and its encoded record.
pub type BatchStep<P> = (GeneratedPair<P>, Result<Vec<u8>, ProtocolError>);

/// The step for the pre-key `id` consists of what the two functions gave for that id:
/// each pre-key has a pair of its own.
pub open spec fn step_made<P, G: Fn(u32) -> GeneratedPair<P>, E: Fn(u32, &GeneratedPair<P>) -> Result<
    Vec<u8>,
    ProtocolError,
>>(generate: G, encode: E, id: u32, step: BatchStep<P>) -> bool {
    call_ensures(generate, (id,), step.0) && call_ensures(encode, (id, &step.0), step.1)
}

/// The steps of a batch consist of what the two functions gave, in order.
pub open spec fn steps_made<P, G: Fn(u32) -> GeneratedPair<P>, E: Fn(u32, &GeneratedPair<P>) -> Result<
    Vec<u8>,
    ProtocolError,
>>(generate: G, encode: E, start_id: u32, steps: Seq<BatchStep<P>>) -> bool {
    forall|i: int|
        0 <= i < steps.len() ==> step_made(
            generate,
            encode,
            batch_id(start_id, i),
            #[trigger] steps[i],
        )
}

/// The store after the first `n` steps, whose records are kept under their ids.
pub open spec fn saved<P>(
    before: Map<u32, Seq<u8>>,
    start_id: u32,
    steps: Seq<BatchStep<P>>,
    n: int,
) -> Map<u32, Seq<u8>>
    decreases n,
{
    if n <= 0 {
        before
    } else {
        saved(before, start_id, steps, n - 1).insert(
            batch_id(start_id, n - 1),
            steps[n - 1].1->Ok_0@,
        )
    }
}

/// The pre-key at position `i` of a batch.
pub open spec fn batch_key<P>(start_id: u32, steps: Seq<BatchStep<P>>, i: int) -> PreKeyView {
    PreKeyView {
        id: batch_id(start_id, i),
        public_key: steps[i].0.public_key@,
        record: steps[i].1->Ok_0@,
    }
}

/// What a batch makes of its steps: it goes on until it has `count` pre-keys or
/// one cannot be encoded, and keeps those that it made.
pub open spec fn batch_outcome<P>(
    before: Map<u32, Seq<u8>>,
    after: Map<u32, Seq<u8>>,
    start_id: u32,
    count: u32,
    steps: Seq<BatchStep<P>>,
    r: Result<Vec<WasmPreKey>, BridgeError>,
) -> bool {
    match r {
        Ok(keys) => {
            &&& steps.len() == count
            &&& forall|i: int| 0 <= i < count ==> (#[trigger] steps[i]).1 is Ok
            &&& keys@.len() == count
            &&& forall|i: int|
                0 <= i < count ==> (#[trigger] keys@[i])@ == batch_key(start_id, steps, i)
            &&& after == saved(before, start_id, steps, count as int)
        },
        Err(e) => {
            &&& 0 < steps.len() <= count
            &&& forall|i: int| 0 <= i < steps.len() - 1 ==> (#[trigger] steps[i]).1 is Ok
            &&& steps.last().1 matches Err(failure) && e == BridgeError::Protocol(failure)
            &&& after == saved(before, start_id, steps, steps.len() - 1)
        },
    }
}

/// Why a batch of this size is refused.
pub open spec fn batch_too_large_message(count: nat) -> Seq<char> {
    "Batch size "@ + crate::text::decimal_text(count) + " exceeds maximum 500"@
}

/// The first steps alone decide what was saved by them.
proof fn lemma_saved_prefix<P>(
    before: Map<u32, Seq<u8>>,
    start_id: u32,
    steps: Seq<BatchStep<P>>,
    step: BatchStep<P>,
    n: int,
)
    requires
        n <= steps.len(),
    ensures
        saved(before, start_id, steps.push(step), n) == saved(before, start_id, steps, n),
    decreases n,
{
    if n > 0 {
        lemma_saved_prefix(before, start_id, steps, step, n - 1);
        assert(steps.push(step)[n - 1] == steps[n - 1]);
    }
}

/// Generates a batch of one-time pre-keys with consecutive ids and keeps their
/// records. `generate` makes the pair for an id, and `encode` the record of that pair
/// under the id.
pub fn generate_pre_keys<P, G: Fn(u32) -> GeneratedPair<P>, E: Fn(u32, &GeneratedPair<P>) -> Result<
    Vec<u8>,
    ProtocolError,
>>(
    start_id: u32,
    count: u32,
    prekey_store: &mut WasmInMemPreKeyStore,
    generate: G,
    encode: E,
) -> (r: Result<Vec<WasmPreKey>, BridgeError>)
    requires
        count <= MAX_PREKEY_BATCH_SIZE ==> forall|id: u32| #[trigger]
            call_requires(generate, (id,)),
        count <= MAX_PREKEY_BATCH_SIZE ==> forall|id: u32, pair: GeneratedPair<P>| #[trigger]
            call_requires(encode, (id, &pair)),
    ensures
        if count > MAX_PREKEY_BATCH_SIZE {
            final(prekey_store)@ == old(prekey_store)@ && (r matches Err(e)
                && crate::error::refused_with(e, batch_too_large_message(count as nat)))
        } else {
            exists|steps: Seq<BatchStep<P>>| #[trigger]
                steps_made(generate, encode, start_id, steps) && batch_outcome(
                    old(prekey_store)@,
                    final(prekey_store)@,
                    start_id,
                    count,
                    steps,
                    r,
                )
        },
{
    if count > MAX_PREKEY_BATCH_SIZE {
        let message = join("Batch size ", decimal(count as u64).as_str()).concat(
            " exceeds maximum 500",
        );
        return Err(BridgeError::Validation(message));
    }
    let ghost before = prekey_store@;
    let mut result: Vec<WasmPreKey> = Vec::new();
    let ghost mut steps: Seq<BatchStep<P>> = Seq::empty();
    let mut i: u32 = 0;
    while i < count
        invariant
            i <= count,
            forall|id: u32| #[trigger] call_requires(generate, (id,)),
            forall|id: u32, pair: GeneratedPair<P>| #[trigger] call_requires(encode, (id, &pair)),
            before == old(prekey_store)@,
            count <= MAX_PREKEY_BATCH_SIZE,
            steps.len() == i,
            steps_made(generate, encode, start_id, steps),
            forall|j: int| 0 <= j < i ==> (#[trigger] steps[j]).1 is Ok,
            result@.len() == i,
            forall|j: int|
                0 <= j < i ==> (#[trigger] result@[j])@ == batch_key(start_id, steps, j),
            prekey_store@ == saved(before, start_id, steps, i as int),
        decreases count - i,
    {
        let id = pre_key_id(start_id, i);
        let pair = generate(id);
        let encoded = encode(id, &pair);
        let ghost step = (pair, encoded);
        let ghost longer = steps.push(step);
        proof {
            assert forall|j: int| 0 <= j < longer.len() implies step_made(
                generate,
                encode,
                batch_id(start_id, j),
                #[trigger] longer[j],
            ) by {
                if j < steps.len() {
                    assert(longer[j] == steps[j]);
                }
            }
            lemma_saved_prefix(before, start_id, steps, step, i as int);
        }
        match encoded {
            Ok(record) => {
                prekey_store.save_pre_key(id, copy_bytes(&record));
                let key = WasmPreKey { id, public_key: pair.public_key, record: seal(record) };
                result.push(key);
            },
            Err(e) => {
                proof {
                    assert(longer.last() == step);
                    assert(steps_made(generate, encode, start_id, longer));
                }
                return Err(BridgeError::Protocol(e));
            },
        }
        proof {
            assert forall|j: int| 0 <= j < i + 1 implies (#[trigger] result@[j])@ == batch_key(
                start_id,
                longer,
                j,
            ) by {
                if j < i {
                    assert(longer[j] == steps[j]);
                }
            }
            steps = longer;
        }
        i = i + 1;
    }
    Ok(result)
}

/// What a signed generation consists of: the pair that was generated; its
/// signature; the time that was read; and the encoded record. The last two are
/// there only where signing succeeded.
pub struct SignedSteps<P> {
    pub pair: GeneratedPair<P>,
    pub signed: Result<Vec<u8>, String>,
    pub timestamp: u64,
    pub encoded: Result<Vec<u8>, ProtocolError>,
}

/// The steps consist of what the functions gave: the signature is the identity's,
/// over the public half that was generated, and the record holds the id, the
/// time, the pair and that signature.
pub open spec fn signed_steps_made<
    P,
    G: FnOnce() -> GeneratedPair<P>,
    S: FnOnce(&WasmPrivateKey, &Vec<u8>) -> Result<Vec<u8>, String>,
    N: FnOnce() -> u64,
    E: FnOnce(u32, u64, &GeneratedPair<P>, &Vec<u8>) -> Result<Vec<u8>, ProtocolError>,
>(
    generate: G,
    sign: S,
    now: N,
    encode: E,
    key_id: u32,
    identity_private_key: Seq<u8>,
    steps: SignedSteps<P>,
) -> bool {
    &&& call_ensures(generate, (), steps.pair)
    &&& exists|private: WasmPrivateKey|
        private@ == identity_private_key && #[trigger] call_ensures(
            sign,
            (&private, &steps.pair.public_key),
            steps.signed,
        )
    &&& steps.signed matches Ok(signature) ==> {
        &&& call_ensures(now, (), steps.timestamp)
        &&& call_ensures(
            encode,
            (key_id, steps.timestamp, &steps.pair, &signature),
            steps.encoded,
        )
    }
}

/// What a signed generation makes of its steps.
pub open spec fn signed_outcome<P>(
    before: Map<u32, Seq<u8>>,
    after: Map<u32, Seq<u8>>,
    key_id: u32,
    steps: SignedSteps<P>,
    r: Result<SignedPreKeyView, BridgeError>,
) -> bool {
    match steps.signed {
        Err(detail) => after == before && r == Err::<SignedPreKeyView, BridgeError>(
            BridgeError::Generic(detail),
        ),
        Ok(signature) => match steps.encoded {
            Err(e) => after == before && r == Err::<SignedPreKeyView, BridgeError>(
                BridgeError::Protocol(e),
            ),
            Ok(record) => after == before.insert(key_id, record@) && r == Ok::<
                SignedPreKeyView,
                BridgeError,
            >(
                SignedPreKeyView {
                    id: key_id,
                    public_key: steps.pair.public_key@,
                    signature: signature@,
                    timestamp: steps.timestamp,
                    record: record@,
                },
            ),
        },
    }
}

/// The result with the pre-key as what it consists of.
pub open spec fn viewed<K: View>(r: Result<K, BridgeError>) -> Result<K::V, BridgeError> {
    match r {
        Ok(key) => Ok(key@),
        Err(e) => Err(e),
    }
}

/// What a signed generation makes, before it is kept.
struct MadePreKey {
    public_key: Vec<u8>,
    signature: Vec<u8>,
    timestamp: u64,
    record: Vec<u8>,
}

/// What a signed generation makes of its steps, before anything is kept.
spec fn made_outcome<P>(steps: SignedSteps<P>, r: Result<MadePreKey, BridgeError>) -> bool {
    match steps.signed {
        Err(detail) => r == Err::<MadePreKey, BridgeError>(BridgeError::Generic(detail)),
        Ok(signature) => match steps.encoded {
            Err(e) => r == Err::<MadePreKey, BridgeError>(BridgeError::Protocol(e)),
            Ok(record) => r == Ok::<MadePreKey, BridgeError>(
                MadePreKey {
                    public_key: steps.pair.public_key,
                    signature,
                    timestamp: steps.timestamp,
                    record,
                },
            ),
        },
    }
}

/// Generates, signs and encodes a pre-key.
fn make_signed<
    P,
    G: FnOnce() -> GeneratedPair<P>,
    S: FnOnce(&WasmPrivateKey, &Vec<u8>) -> Result<Vec<u8>, String>,
    N: FnOnce() -> u64,
    E: FnOnce(u32, u64, &GeneratedPair<P>, &Vec<u8>) -> Result<Vec<u8>, ProtocolError>,
>(
    key_id: u32,
    identity_key_pair: &WasmIdentityKeyPair,
    generate: G,
    sign: S,
    now: N,
    encode: E,
) -> (r: Result<MadePreKey, BridgeError>)
    requires
        call_requires(generate, ()),
        forall|private: WasmPrivateKey, public: Vec<u8>| #[trigger]
            call_requires(sign, (&private, &public)),
        call_requires(now, ()),
        forall|id: u32, time: u64, pair: GeneratedPair<P>, signature: Vec<u8>| #[trigger]
            call_requires(encode, (id, time, &pair, &signature)),
    ensures
        exists|steps: SignedSteps<P>| #[trigger]
            signed_steps_made(generate, sign, now, encode, key_id, identity_key_pair@.1, steps)
                && made_outcome(steps, r),
{
    let pair = generate();
    let private = identity_key_pair.private_key();
    let signed = sign(&private, &pair.public_key);
    let signature = match signed {
        Ok(signature) => signature,
        Err(detail) => {
            proof {
                let steps = SignedSteps {
                    pair,
                    signed: Err(detail),
                    timestamp: 0,
                    encoded: arbitrary(),
                };
                assert(signed_steps_made(
                    generate,
                    sign,
                    now,
                    encode,
                    key_id,
                    identity_key_pair@.1,
                    steps,
                ));
            }
            return Err(BridgeError::Generic(detail));
        },
    };
    let timestamp = now();
    let encoded = encode(key_id, timestamp, &pair, &signature);
    proof {
        let steps = SignedSteps { pair, signed: Ok(signature), timestamp, encoded };
        assert(signed_steps_made(
            generate,
            sign,
            now,
            encode,
            key_id,
            identity_key_pair@.1,
            steps,
        ));
    }
    match encoded {
        Ok(record) => Ok(
            MadePreKey { public_key: pair.public_key, signature, timestamp, record },
        ),
        Err(e) => Err(BridgeError::Protocol(e)),
    }
}

/// Generates a signed pre-key and keeps its record. `generate` makes the pair,
/// `sign` signs its public half with the identity's private key, `now` tells the
/// time, and `encode` makes the record.
pub fn generate_signed_pre_key<
    P,
    G: FnOnce() -> GeneratedPair<P>,
    S: FnOnce(&WasmPrivateKey, &Vec<u8>) -> Result<Vec<u8>, String>,
    N: FnOnce() -> u64,
    E: FnOnce(u32, u64, &GeneratedPair<P>, &Vec<u8>) -> Result<Vec<u8>, ProtocolError>,
>(
    key_id: u32,
    identity_key_pair: &WasmIdentityKeyPair,
    signed_prekey_store: &mut WasmInMemSignedPreKeyStore,
    generate: G,
    sign: S,
    now: N,
    encode: E,
) -> (r: Result<WasmSignedPreKey, BridgeError>)
    requires
        call_requires(generate, ()),
        forall|private: WasmPrivateKey, public: Vec<u8>| #[trigger]
            call_requires(sign, (&private, &public)),
        call_requires(now, ()),
        forall|id: u32, time: u64, pair: GeneratedPair<P>, signature: Vec<u8>| #[trigger]
            call_requires(encode, (id, time, &pair, &signature)),
    ensures
        exists|steps: SignedSteps<P>| #[trigger]
            signed_steps_made(generate, sign, now, encode, key_id, identity_key_pair@.1, steps)
                && signed_outcome(
                old(signed_prekey_store)@,
                final(signed_prekey_store)@,
                key_id,
                steps,
                viewed(r),
            ),
{
    match make_signed(key_id, identity_key_pair, generate, sign, now, encode) {
        Ok(made) => {
            signed_prekey_store.save_signed_pre_key(key_id, copy_bytes(&made.record));
            Ok(
                WasmSignedPreKey {
                    id: key_id,
                    public_key: made.public_key,
                    signature: made.signature,
                    timestamp: made.timestamp,
                    record: seal(made.record),
                },
            )
        },
        Err(e) => Err(e),
    }
}

/// Generates a Kyber pre-key and keeps its record. `generate` makes the pair,
/// `sign` signs its public half with the identity's private key, `now` tells the
/// time, and `encode` makes the record.
pub fn generate_kyber_pre_key<
    P,
    G: FnOnce() -> GeneratedPair<P>,
    S: FnOnce(&WasmPrivateKey, &Vec<u8>) -> Result<Vec<u8>, String>,
    N: FnOnce() -> u64,
    E: FnOnce(u32, u64, &GeneratedPair<P>, &Vec<u8>) -> Result<Vec<u8>, ProtocolError>,
>(
    key_id: u32,
    identity_key_pair: &WasmIdentityKeyPair,
    kyber_prekey_store: &mut WasmInMemKyberPreKeyStore,
    generate: G,
    sign: S,
    now: N,
    encode: E,
) -> (r: Result<WasmKyberPreKey, BridgeError>)
    requires
        call_requires(generate, ()),
        forall|private: WasmPrivateKey, public: Vec<u8>| #[trigger]
            call_requires(sign, (&private, &public)),
        call_requires(now, ()),
        forall|id: u32, time: u64, pair: GeneratedPair<P>, signature: Vec<u8>| #[trigger]
            call_requires(encode, (id, time, &pair, &signature)),
    ensures
        exists|steps: SignedSteps<P>| #[trigger]
            signed_steps_made(generate, sign, now, encode, key_id, identity_key_pair@.1, steps)
                && signed_outcome(
                old(kyber_prekey_store)@,
                final(kyber_prekey_store)@,
                key_id,
                steps,
                viewed(r),
            ),
{
    match make_signed(key_id, identity_key_pair, generate, sign, now, encode) {
        Ok(made) => {
            kyber_prekey_store.save_kyber_pre_key(key_id, copy_bytes(&made.record));
            Ok(
                WasmKyberPreKey {
                    id: key_id,
                    public_key: made.public_key,
                    signature: made.signature,
                    timestamp: made.timestamp,
                    record: seal(made.record),
                },
            )
        },
        Err(e) => Err(e),
    }
}

/// The ids of a batch have 24 bits and are pairwise distinct, wherever it starts.
pub proof fn law_batch_ids_are_distinct(start_id: u32, i: int, j: int)
    requires
        0 <= i < MAX_PREKEY_BATCH_SIZE,
        0 <= j < MAX_PREKEY_BATCH_SIZE,
    ensures
        batch_id(start_id, i) < 0x100_0000,
        batch_id(start_id, i) == batch_id(start_id, j) <==> i == j,
{
}

/// The record of a step stays under its id while the batch goes on.
proof fn lemma_saved_record<P>(
    before: Map<u32, Seq<u8>>,
    start_id: u32,
    steps: Seq<BatchStep<P>>,
    n: int,
    i: int,
)
    requires
        0 <= i < n <= steps.len() <= MAX_PREKEY_BATCH_SIZE,
    ensures
        saved(before, start_id, steps, n).dom().contains(batch_id(start_id, i)),
        saved(before, start_id, steps, n)[batch_id(start_id, i)] == steps[i].1->Ok_0@,
    decreases n,
{
    law_batch_ids_are_distinct(start_id, i, n - 1);
    if i < n - 1 {
        lemma_saved_record(before, start_id, steps, n - 1, i);
    }
}

/// An id that no step has keeps what it had.
proof fn lemma_not_saved<P>(
    before: Map<u32, Seq<u8>>,
    start_id: u32,
    steps: Seq<BatchStep<P>>,
    n: int,
    id: u32,
)
    requires
        forall|i: int| 0 <= i < n ==> id != #[trigger] batch_id(start_id, i),
    ensures
        saved(before, start_id, steps, n).dom().contains(id) <==> before.dom().contains(id),
        before.dom().contains(id) ==> saved(before, start_id, steps, n)[id] == before[id],
    decreases n,
{
    if n > 0 {
        lemma_not_saved(before, start_id, steps, n - 1, id);
        assert(id != batch_id(start_id, n - 1));
    }
}

/// After a batch, the store holds the record of each of its pre-keys under the
/// pre-key's id, and every other id as before.
pub proof fn law_batch_is_kept<P>(
    before: Map<u32, Seq<u8>>,
    after: Map<u32, Seq<u8>>,
    start_id: u32,
    count: u32,
    steps: Seq<BatchStep<P>>,
    keys: Vec<WasmPreKey>,
)
    requires
        count <= MAX_PREKEY_BATCH_SIZE,
        batch_outcome(before, after, start_id, count, steps, Ok(keys)),
    ensures
        forall|i: int|
            0 <= i < count ==> after.dom().contains((#[trigger] keys@[i])@.id) && after[keys@[i]@.id]
                == keys@[i]@.record,
        forall|id: u32|
            #![trigger after.dom().contains(id)]
            #![trigger after[id]]
            (forall|i: int| 0 <= i < count ==> id != (#[trigger] keys@[i])@.id) ==> (
            after.dom().contains(id) <==> before.dom().contains(id)) && (before.dom().contains(id)
                ==> after[id] == before[id]),
{
    assert forall|i: int| 0 <= i < count implies after.dom().contains((#[trigger] keys@[i])@.id)
        && after[keys@[i]@.id] == keys@[i]@.record by {
        lemma_saved_record(before, start_id, steps, count as int, i);
    }
    assert forall|id: u32|
        #![trigger after.dom().contains(id)]
        #![trigger after[id]]
        (forall|i: int| 0 <= i < count ==> id != (#[trigger] keys@[i])@.id) implies (
    after.dom().contains(id) <==> before.dom().contains(id)) && (before.dom().contains(id)
        ==> after[id] == before[id]) by {
        assert forall|i: int| 0 <= i < count implies id != #[trigger] batch_id(start_id, i) by {
            assert(keys@[i]@.id == batch_id(start_id, i));
        }
        lemma_not_saved(before, start_id, steps, count as int, id);
    }
}

/// A batch that fails has kept the records of the steps before the failure, and
/// every other id is as before.
pub proof fn law_failed_batch_keeps_what_it_made<P>(
    before: Map<u32, Seq<u8>>,
    after: Map<u32, Seq<u8>>,
    start_id: u32,
    count: u32,
    steps: Seq<BatchStep<P>>,
    e: BridgeError,
)
    requires
        count <= MAX_PREKEY_BATCH_SIZE,
        batch_outcome(before, after, start_id, count, steps, Err(e)),
    ensures
        forall|i: int|
            #![trigger steps[i]]
            0 <= i < steps.len() - 1 ==> (steps[i].1 matches Ok(record) && after.dom().contains(
                batch_id(start_id, i),
            ) && after[batch_id(start_id, i)] == record@),
        forall|id: u32|
            #![trigger after.dom().contains(id)]
            #![trigger after[id]]
            (forall|i: int| 0 <= i < steps.len() - 1 ==> id != #[trigger] batch_id(start_id, i))
                ==> (after.dom().contains(id) <==> before.dom().contains(id)) && (
            before.dom().contains(id) ==> after[id] == before[id]),
{
    let n = steps.len() - 1;
    assert forall|i: int| #![trigger steps[i]] 0 <= i < n implies (steps[i].1 matches Ok(record)
        && after.dom().contains(batch_id(start_id, i)) && after[batch_id(start_id, i)]
        == record@) by {
        lemma_saved_record(before, start_id, steps, n, i);
    }
    assert forall|id: u32|
        #![trigger after.dom().contains(id)]
        #![trigger after[id]]
        (forall|i: int| 0 <= i < n ==> id != #[trigger] batch_id(start_id, i)) implies (
    after.dom().contains(id) <==> before.dom().contains(id)) && (before.dom().contains(id)
        ==> after[id] == before[id]) by {
        lemma_not_saved(before, start_id, steps, n, id);
    }
}

} // verus!
