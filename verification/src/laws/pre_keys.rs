//! Laws on the generation of pre-keys.

use crate::error::{BridgeError, ProtocolError};
use crate::keys::{WasmIdentityKeyPair, WasmPrivateKey};
use crate::pre_key_stores::{
    WasmInMemKyberPreKeyStore, WasmInMemPreKeyStore, WasmInMemSignedPreKeyStore,
};
use crate::pre_keys::{
    generate_kyber_pre_key, generate_pre_keys, generate_signed_pre_key, BatchStep, GeneratedPair,
    WasmKyberPreKey, WasmPreKey, WasmSignedPreKey,
};
use vstd::prelude::*;

verus! {

/// A batch has as many pre-keys as were asked for. Each has the next id of 24 bits,
/// shows the public key of the pair that was generated for its id, byte for byte, and
/// holds the record of that same pair, which the store holds under its id.
pub proof fn law_batch_publishes_its_pairs<
    P,
    G: Fn(u32) -> GeneratedPair<P>,
    E: Fn(u32, &GeneratedPair<P>) -> Result<Vec<u8>, ProtocolError>,
>(
    start_id: u32,
    count: u32,
    generate: G,
    encode: E,
    before: WasmInMemPreKeyStore,
    after: WasmInMemPreKeyStore,
    keys: Vec<WasmPreKey>,
)
    requires
        exists|store: &mut WasmInMemPreKeyStore|
            *store == before && *final(store) == after && #[trigger] call_ensures(
                generate_pre_keys::<P, G, E>,
                (start_id, count, store, generate, encode),
                Ok(keys),
            ),
    ensures
        count <= 500,
        keys@.len() == count,
        forall|i: int|
            0 <= i < count ==> {
                &&& (#[trigger] keys@[i])@.id == (start_id + i) % 16777216
                &&& exists|pair: GeneratedPair<P>, record: Vec<u8>|
                    {
                        &&& #[trigger] call_ensures(generate, (keys@[i]@.id,), pair)
                        &&& #[trigger] call_ensures(encode, (keys@[i]@.id, &pair), Ok(record))
                        &&& keys@[i]@.public_key == pair.public_key@
                        &&& keys@[i]@.record == record@
                    }
                &&& after@.dom().contains(keys@[i]@.id)
                &&& after@[keys@[i]@.id] == keys@[i]@.record
            },
{
    let steps = choose|steps: Seq<BatchStep<P>>| #[trigger]
        crate::pre_keys::steps_made(generate, encode, start_id, steps)
            && crate::pre_keys::batch_outcome(
            before@,
            after@,
            start_id,
            count,
            steps,
            Ok(keys),
        );
    crate::pre_keys::law_batch_is_kept(before@, after@, start_id, count, steps, keys);
    assert forall|i: int| 0 <= i < count implies {
        &&& (#[trigger] keys@[i])@.id == (start_id + i) % 16777216
        &&& exists|pair: GeneratedPair<P>, record: Vec<u8>|
            {
                &&& #[trigger] call_ensures(generate, (keys@[i]@.id,), pair)
                &&& #[trigger] call_ensures(encode, (keys@[i]@.id, &pair), Ok(record))
                &&& keys@[i]@.public_key == pair.public_key@
                &&& keys@[i]@.record == record@
            }
        &&& after@.dom().contains(keys@[i]@.id)
        &&& after@[keys@[i]@.id] == keys@[i]@.record
    } by {
        let step = steps[i];
        let record = step.1->Ok_0;
        assert(step.1 == Ok::<Vec<u8>, ProtocolError>(record));
        assert(call_ensures(generate, (keys@[i]@.id,), step.0));
        assert(call_ensures(encode, (keys@[i]@.id, &step.0), Ok(record)));
    }
}

/// Where pairs for two ids never share their public key, no two pre-keys of a batch
/// show the same key.
pub proof fn law_distinct_pairs_give_distinct_keys<
    P,
    G: Fn(u32) -> GeneratedPair<P>,
    E: Fn(u32, &GeneratedPair<P>) -> Result<Vec<u8>, ProtocolError>,
>(
    start_id: u32,
    count: u32,
    generate: G,
    encode: E,
    before: WasmInMemPreKeyStore,
    after: WasmInMemPreKeyStore,
    keys: Vec<WasmPreKey>,
    i: int,
    j: int,
)
    requires
        exists|store: &mut WasmInMemPreKeyStore|
            *store == before && *final(store) == after && #[trigger] call_ensures(
                generate_pre_keys::<P, G, E>,
                (start_id, count, store, generate, encode),
                Ok(keys),
            ),
        forall|a: u32, b: u32, p: GeneratedPair<P>, q: GeneratedPair<P>|
            a != b && #[trigger] call_ensures(generate, (a,), p) && #[trigger] call_ensures(
                generate,
                (b,),
                q,
            ) ==> p.public_key@ != q.public_key@,
        0 <= i < j < keys@.len(),
    ensures
        keys@[i]@.id != keys@[j]@.id,
        keys@[i]@.public_key != keys@[j]@.public_key,
{
    law_batch_publishes_its_pairs(start_id, count, generate, encode, before, after, keys);
    assert(keys@[i]@.id == (start_id + i) % 16777216);
    assert(keys@[j]@.id == (start_id + j) % 16777216);
}

/// A batch of more than 500 pre-keys is refused and changes nothing; no other batch is
/// refused. A smaller one fails only where a record cannot be encoded, with that error.
pub proof fn law_batch_fails_only_on_its_size_or_a_record<
    P,
    G: Fn(u32) -> GeneratedPair<P>,
    E: Fn(u32, &GeneratedPair<P>) -> Result<Vec<u8>, ProtocolError>,
>(
    start_id: u32,
    count: u32,
    generate: G,
    encode: E,
    before: WasmInMemPreKeyStore,
    after: WasmInMemPreKeyStore,
    r: Result<Vec<WasmPreKey>, BridgeError>,
)
    requires
        exists|store: &mut WasmInMemPreKeyStore|
            *store == before && *final(store) == after && #[trigger] call_ensures(
                generate_pre_keys::<P, G, E>,
                (start_id, count, store, generate, encode),
                r,
            ),
    ensures
        count > 500 ==> after@ == before@ && (r matches Err(BridgeError::Validation(message))
            && message@ == "Batch size "@ + crate::text::decimal_text(count as nat)
            + " exceeds maximum 500"@),
        count <= 500 ==> (r matches Err(e) ==> exists|
            i: int,
            id: u32,
            pair: GeneratedPair<P>,
            failure: ProtocolError,
        |
            {
                &&& 0 <= i < count
                &&& id == #[trigger] ((start_id + i) % 16777216)
                &&& #[trigger] call_ensures(generate, (id,), pair)
                &&& #[trigger] call_ensures(encode, (id, &pair), Err(failure))
                &&& e == BridgeError::Protocol(failure)
            }),
{
    if count <= 500 && r is Err {
        let steps = choose|steps: Seq<BatchStep<P>>| #[trigger]
            crate::pre_keys::steps_made(generate, encode, start_id, steps)
                && crate::pre_keys::batch_outcome(before@, after@, start_id, count, steps, r);
        let i = steps.len() - 1;
        let step = steps[i];
        let failure = step.1->Err_0;
        let id = crate::pre_keys::batch_id(start_id, i);
        assert(step.1 == Err::<Vec<u8>, ProtocolError>(failure));
        assert(id == (start_id + i) % 16777216);
        assert(call_ensures(generate, (id,), step.0));
        assert(call_ensures(encode, (id, &step.0), Err(failure)));
    }
}

/// The store holds, under this id, the record that was encoded of a pair that was
/// generated for it.
pub open spec fn keeps_its_record<
    P,
    G: Fn(u32) -> GeneratedPair<P>,
    E: Fn(u32, &GeneratedPair<P>) -> Result<Vec<u8>, ProtocolError>,
>(generate: G, encode: E, id: u32, store: WasmInMemPreKeyStore) -> bool {
    exists|pair: GeneratedPair<P>, record: Vec<u8>|
        {
            &&& #[trigger] call_ensures(generate, (id,), pair)
            &&& #[trigger] call_ensures(encode, (id, &pair), Ok(record))
            &&& store@.dom().contains(id)
            &&& store@[id] == record@
        }
}

/// A batch that fails at some pre-key has kept the records of those before it, and from
/// that one on has changed nothing.
pub proof fn law_failed_batch_stops_at_the_failure<
    P,
    G: Fn(u32) -> GeneratedPair<P>,
    E: Fn(u32, &GeneratedPair<P>) -> Result<Vec<u8>, ProtocolError>,
>(
    start_id: u32,
    count: u32,
    generate: G,
    encode: E,
    before: WasmInMemPreKeyStore,
    after: WasmInMemPreKeyStore,
    e: BridgeError,
) -> (failed: int)
    requires
        count <= 500,
        exists|store: &mut WasmInMemPreKeyStore|
            *store == before && *final(store) == after && #[trigger] call_ensures(
                generate_pre_keys::<P, G, E>,
                (start_id, count, store, generate, encode),
                Err(e),
            ),
    ensures
        0 <= failed < count,
        exists|pair: GeneratedPair<P>, failure: ProtocolError|
            {
                &&& #[trigger] call_ensures(
                    generate,
                    (((start_id + failed) % 16777216) as u32,),
                    pair,
                )
                &&& #[trigger] call_ensures(
                    encode,
                    (((start_id + failed) % 16777216) as u32, &pair),
                    Err(failure),
                )
                &&& e == BridgeError::Protocol(failure)
            },
        forall|j: int|
            0 <= j < failed ==> keeps_its_record::<P, G, E>(
                generate,
                encode,
                #[trigger] (((start_id + j) % 16777216) as u32),
                after,
            ),
        forall|j: int|
            failed <= j < count ==> {
                &&& after@.dom().contains(#[trigger] (((start_id + j) % 16777216) as u32))
                    == before@.dom().contains(((start_id + j) % 16777216) as u32)
                &&& before@.dom().contains(((start_id + j) % 16777216) as u32)
                    ==> after@[((start_id + j) % 16777216) as u32] == before@[((start_id + j)
                    % 16777216) as u32]
            },
{
    let steps = choose|steps: Seq<BatchStep<P>>| #[trigger]
        crate::pre_keys::steps_made(generate, encode, start_id, steps)
            && crate::pre_keys::batch_outcome(before@, after@, start_id, count, steps, Err(e));
    crate::pre_keys::law_failed_batch_keeps_what_it_made(
        before@,
        after@,
        start_id,
        count,
        steps,
        e,
    );
    let failed = steps.len() - 1;
    let last = steps[failed];
    let failure = last.1->Err_0;
    assert(last.1 == Err::<Vec<u8>, ProtocolError>(failure));
    assert(call_ensures(encode, (((start_id + failed) % 16777216) as u32, &last.0), Err(failure)));
    assert forall|j: int| 0 <= j < failed implies keeps_its_record::<P, G, E>(
        generate,
        encode,
        #[trigger] (((start_id + j) % 16777216) as u32),
        after,
    ) by {
        let step = steps[j];
        let record = step.1->Ok_0;
        assert(step.1 == Ok::<Vec<u8>, ProtocolError>(record));
        let id = ((start_id + j) % 16777216) as u32;
        assert(id == crate::pre_keys::batch_id(start_id, j));
        assert(call_ensures(generate, (id,), step.0));
        assert(call_ensures(encode, (id, &step.0), Ok(record)));
    }
    assert forall|j: int| failed <= j < count implies {
        &&& after@.dom().contains(#[trigger] (((start_id + j) % 16777216) as u32))
            == before@.dom().contains(((start_id + j) % 16777216) as u32)
        &&& before@.dom().contains(((start_id + j) % 16777216) as u32) ==> after@[((start_id + j)
            % 16777216) as u32] == before@[((start_id + j) % 16777216) as u32]
    } by {
        let id = ((start_id + j) % 16777216) as u32;
        assert forall|i: int| 0 <= i < failed implies id != #[trigger] crate::pre_keys::batch_id(
            start_id,
            i,
        ) by {
            crate::pre_keys::law_batch_ids_are_distinct(start_id, i, j);
            assert(id == crate::pre_keys::batch_id(start_id, j));
        }
        assert(after@.dom().contains(id) == before@.dom().contains(id));
    }
    failed
}

/// Whatever a batch answers, it changes no record but those of its own ids.
pub proof fn law_batch_is_local<
    P,
    G: Fn(u32) -> GeneratedPair<P>,
    E: Fn(u32, &GeneratedPair<P>) -> Result<Vec<u8>, ProtocolError>,
>(
    start_id: u32,
    count: u32,
    generate: G,
    encode: E,
    before: WasmInMemPreKeyStore,
    after: WasmInMemPreKeyStore,
    r: Result<Vec<WasmPreKey>, BridgeError>,
    id: u32,
)
    requires
        exists|store: &mut WasmInMemPreKeyStore|
            *store == before && *final(store) == after && #[trigger] call_ensures(
                generate_pre_keys::<P, G, E>,
                (start_id, count, store, generate, encode),
                r,
            ),
        forall|i: int| 0 <= i < count ==> id != #[trigger] ((start_id + i) % 16777216),
    ensures
        after@.dom().contains(id) == before@.dom().contains(id),
        before@.dom().contains(id) ==> after@[id] == before@[id],
{
    if count <= 500 {
        let steps = choose|steps: Seq<BatchStep<P>>| #[trigger]
            crate::pre_keys::steps_made(generate, encode, start_id, steps)
                && crate::pre_keys::batch_outcome(before@, after@, start_id, count, steps, r);
        assert forall|i: int| 0 <= i < count implies id != #[trigger] crate::pre_keys::batch_id(
            start_id,
            i,
        ) by {
            assert(id != (start_id + i) % 16777216);
        }
        match r {
            Ok(keys) => {
                crate::pre_keys::law_batch_is_kept(
                    before@,
                    after@,
                    start_id,
                    count,
                    steps,
                    keys,
                );
                assert forall|i: int| 0 <= i < count implies id != (#[trigger] keys@[i])@.id by {
                    assert(keys@[i]@.id == crate::pre_keys::batch_id(start_id, i));
                }
            },
            Err(e) => {
                crate::pre_keys::law_failed_batch_keeps_what_it_made(
                    before@,
                    after@,
                    start_id,
                    count,
                    steps,
                    e,
                );
            },
        }
    }
}

/// A generated signed pre-key has the id that was asked for. It shows the public key of
/// the generated pair, the identity's signature of exactly those bytes, and the time
/// that was read; its record was made of all of these, and the store holds it under the
/// id.
pub proof fn law_signed_pre_key_is_what_was_made<
    P,
    G: FnOnce() -> GeneratedPair<P>,
    S: FnOnce(&WasmPrivateKey, &Vec<u8>) -> Result<Vec<u8>, String>,
    N: FnOnce() -> u64,
    E: FnOnce(u32, u64, &GeneratedPair<P>, &Vec<u8>) -> Result<Vec<u8>, ProtocolError>,
>(
    key_id: u32,
    identity: &WasmIdentityKeyPair,
    generate: G,
    sign: S,
    now: N,
    encode: E,
    before: WasmInMemSignedPreKeyStore,
    after: WasmInMemSignedPreKeyStore,
    key: WasmSignedPreKey,
)
    requires
        exists|store: &mut WasmInMemSignedPreKeyStore|
            *store == before && *final(store) == after && #[trigger] call_ensures(
                generate_signed_pre_key::<P, G, S, N, E>,
                (key_id, identity, store, generate, sign, now, encode),
                Ok(key),
            ),
    ensures
        key@.id == key_id,
        exists|
            private: WasmPrivateKey,
            pair: GeneratedPair<P>,
            signature: Vec<u8>,
            record: Vec<u8>,
        |
            {
                &&& private@ == identity@.1
                &&& #[trigger] call_ensures(generate, (), pair)
                &&& #[trigger] call_ensures(sign, (&private, &pair.public_key), Ok(signature))
                &&& #[trigger] call_ensures(
                    encode,
                    (key_id, key@.timestamp, &pair, &signature),
                    Ok(record),
                )
                &&& key@.public_key == pair.public_key@
                &&& key@.signature == signature@
                &&& key@.record == record@
            },
        call_ensures(now, (), key@.timestamp),
        after@ == before@.insert(key_id, key@.record),
{
    let steps = choose|steps: crate::pre_keys::SignedSteps<P>| #[trigger]
        crate::pre_keys::signed_steps_made(
            generate,
            sign,
            now,
            encode,
            key_id,
            identity@.1,
            steps,
        ) && crate::pre_keys::signed_outcome(
            before@,
            after@,
            key_id,
            steps,
            crate::pre_keys::viewed(Ok::<WasmSignedPreKey, BridgeError>(key)),
        );
    let private = choose|private: WasmPrivateKey|
        private@ == identity@.1 && #[trigger] call_ensures(
            sign,
            (&private, &steps.pair.public_key),
            steps.signed,
        );
    let signature = steps.signed->Ok_0;
    let record = steps.encoded->Ok_0;
    assert(steps.signed == Ok::<Vec<u8>, String>(signature));
    assert(steps.encoded == Ok::<Vec<u8>, ProtocolError>(record));
    assert(call_ensures(generate, (), steps.pair));
    assert(call_ensures(sign, (&private, &steps.pair.public_key), Ok(signature)));
    assert(call_ensures(
        encode,
        (key_id, key@.timestamp, &steps.pair, &signature),
        Ok(record),
    ));
}

/// Where every signature that `sign` gives for the identity's private key and some
/// bytes is accepted for exactly those bytes, the signature of a generated signed
/// pre-key is accepted for the public key that it publishes.
pub proof fn law_signed_pre_key_signature_is_accepted<
    P,
    G: FnOnce() -> GeneratedPair<P>,
    S: FnOnce(&WasmPrivateKey, &Vec<u8>) -> Result<Vec<u8>, String>,
    N: FnOnce() -> u64,
    E: FnOnce(u32, u64, &GeneratedPair<P>, &Vec<u8>) -> Result<Vec<u8>, ProtocolError>,
>(
    key_id: u32,
    identity: &WasmIdentityKeyPair,
    generate: G,
    sign: S,
    now: N,
    encode: E,
    before: WasmInMemSignedPreKeyStore,
    after: WasmInMemSignedPreKeyStore,
    key: WasmSignedPreKey,
    accepts: spec_fn(Seq<u8>, Seq<u8>) -> bool,
)
    requires
        exists|store: &mut WasmInMemSignedPreKeyStore|
            *store == before && *final(store) == after && #[trigger] call_ensures(
                generate_signed_pre_key::<P, G, S, N, E>,
                (key_id, identity, store, generate, sign, now, encode),
                Ok(key),
            ),
        forall|private: WasmPrivateKey, bytes: Vec<u8>, signature: Vec<u8>|
            private@ == identity@.1 && #[trigger] call_ensures(
                sign,
                (&private, &bytes),
                Ok(signature),
            ) ==> accepts(bytes@, signature@),
    ensures
        accepts(key@.public_key, key@.signature),
{
    law_signed_pre_key_is_what_was_made(
        key_id,
        identity,
        generate,
        sign,
        now,
        encode,
        before,
        after,
        key,
    );
}

/// The generation of a signed pre-key fails only where signing or encoding does, with
/// that error, and then changes nothing.
pub proof fn law_signed_pre_key_failures<
    P,
    G: FnOnce() -> GeneratedPair<P>,
    S: FnOnce(&WasmPrivateKey, &Vec<u8>) -> Result<Vec<u8>, String>,
    N: FnOnce() -> u64,
    E: FnOnce(u32, u64, &GeneratedPair<P>, &Vec<u8>) -> Result<Vec<u8>, ProtocolError>,
>(
    key_id: u32,
    identity: &WasmIdentityKeyPair,
    generate: G,
    sign: S,
    now: N,
    encode: E,
    before: WasmInMemSignedPreKeyStore,
    after: WasmInMemSignedPreKeyStore,
    e: BridgeError,
)
    requires
        exists|store: &mut WasmInMemSignedPreKeyStore|
            *store == before && *final(store) == after && #[trigger] call_ensures(
                generate_signed_pre_key::<P, G, S, N, E>,
                (key_id, identity, store, generate, sign, now, encode),
                Err(e),
            ),
    ensures
        after@ == before@,
        exists|private: WasmPrivateKey, pair: GeneratedPair<P>, signed: Result<Vec<u8>, String>|
            {
                &&& private@ == identity@.1
                &&& #[trigger] call_ensures(generate, (), pair)
                &&& #[trigger] call_ensures(sign, (&private, &pair.public_key), signed)
                &&& match signed {
                    Err(detail) => e == BridgeError::Generic(detail),
                    Ok(signature) => exists|time: u64, failure: ProtocolError|
                        {
                            &&& call_ensures(now, (), time)
                            &&& #[trigger] call_ensures(
                                encode,
                                (key_id, time, &pair, &signature),
                                Err(failure),
                            )
                            &&& e == BridgeError::Protocol(failure)
                        },
                }
            },
{
    let steps = choose|steps: crate::pre_keys::SignedSteps<P>| #[trigger]
        crate::pre_keys::signed_steps_made(
            generate,
            sign,
            now,
            encode,
            key_id,
            identity@.1,
            steps,
        ) && crate::pre_keys::signed_outcome(
            before@,
            after@,
            key_id,
            steps,
            crate::pre_keys::viewed(Err::<WasmSignedPreKey, BridgeError>(e)),
        );
    let private = choose|private: WasmPrivateKey|
        private@ == identity@.1 && #[trigger] call_ensures(
            sign,
            (&private, &steps.pair.public_key),
            steps.signed,
        );
    assert(call_ensures(generate, (), steps.pair));
    assert(call_ensures(sign, (&private, &steps.pair.public_key), steps.signed));
    if let Ok(signature) = steps.signed {
        let failure = steps.encoded->Err_0;
        assert(steps.encoded == Err::<Vec<u8>, ProtocolError>(failure));
        assert(call_ensures(
            encode,
            (key_id, steps.timestamp, &steps.pair, &signature),
            Err(failure),
        ));
    }
}

/// A generated Kyber pre-key has the id that was asked for. It shows the public key of
/// the generated pair, the identity's signature of exactly those bytes, and the time
/// that was read; its record was made of all of these, and the store holds it under the
/// id.
pub proof fn law_kyber_pre_key_is_what_was_made<
    P,
    G: FnOnce() -> GeneratedPair<P>,
    S: FnOnce(&WasmPrivateKey, &Vec<u8>) -> Result<Vec<u8>, String>,
    N: FnOnce() -> u64,
    E: FnOnce(u32, u64, &GeneratedPair<P>, &Vec<u8>) -> Result<Vec<u8>, ProtocolError>,
>(
    key_id: u32,
    identity: &WasmIdentityKeyPair,
    generate: G,
    sign: S,
    now: N,
    encode: E,
    before: WasmInMemKyberPreKeyStore,
    after: WasmInMemKyberPreKeyStore,
    key: WasmKyberPreKey,
)
    requires
        exists|store: &mut WasmInMemKyberPreKeyStore|
            *store == before && *final(store) == after && #[trigger] call_ensures(
                generate_kyber_pre_key::<P, G, S, N, E>,
                (key_id, identity, store, generate, sign, now, encode),
                Ok(key),
            ),
    ensures
        key@.id == key_id,
        exists|
            private: WasmPrivateKey,
            pair: GeneratedPair<P>,
            signature: Vec<u8>,
            record: Vec<u8>,
        |
            {
                &&& private@ == identity@.1
                &&& #[trigger] call_ensures(generate, (), pair)
                &&& #[trigger] call_ensures(sign, (&private, &pair.public_key), Ok(signature))
                &&& #[trigger] call_ensures(
                    encode,
                    (key_id, key@.timestamp, &pair, &signature),
                    Ok(record),
                )
                &&& key@.public_key == pair.public_key@
                &&& key@.signature == signature@
                &&& key@.record == record@
            },
        call_ensures(now, (), key@.timestamp),
        after@ == before@.insert(key_id, key@.record),
{
    let steps = choose|steps: crate::pre_keys::SignedSteps<P>| #[trigger]
        crate::pre_keys::signed_steps_made(
            generate,
            sign,
            now,
            encode,
            key_id,
            identity@.1,
            steps,
        ) && crate::pre_keys::signed_outcome(
            before@,
            after@,
            key_id,
            steps,
            crate::pre_keys::viewed(Ok::<WasmKyberPreKey, BridgeError>(key)),
        );
    let private = choose|private: WasmPrivateKey|
        private@ == identity@.1 && #[trigger] call_ensures(
            sign,
            (&private, &steps.pair.public_key),
            steps.signed,
        );
    let signature = steps.signed->Ok_0;
    let record = steps.encoded->Ok_0;
    assert(steps.signed == Ok::<Vec<u8>, String>(signature));
    assert(steps.encoded == Ok::<Vec<u8>, ProtocolError>(record));
    assert(call_ensures(generate, (), steps.pair));
    assert(call_ensures(sign, (&private, &steps.pair.public_key), Ok(signature)));
    assert(call_ensures(
        encode,
        (key_id, key@.timestamp, &steps.pair, &signature),
        Ok(record),
    ));
}

/// Where every signature that `sign` gives for the identity's private key and some
/// bytes is accepted for exactly those bytes, the signature of a generated Kyber
/// pre-key is accepted for the public key that it publishes.
pub proof fn law_kyber_pre_key_signature_is_accepted<
    P,
    G: FnOnce() -> GeneratedPair<P>,
    S: FnOnce(&WasmPrivateKey, &Vec<u8>) -> Result<Vec<u8>, String>,
    N: FnOnce() -> u64,
    E: FnOnce(u32, u64, &GeneratedPair<P>, &Vec<u8>) -> Result<Vec<u8>, ProtocolError>,
>(
    key_id: u32,
    identity: &WasmIdentityKeyPair,
    generate: G,
    sign: S,
    now: N,
    encode: E,
    before: WasmInMemKyberPreKeyStore,
    after: WasmInMemKyberPreKeyStore,
    key: WasmKyberPreKey,
    accepts: spec_fn(Seq<u8>, Seq<u8>) -> bool,
)
    requires
        exists|store: &mut WasmInMemKyberPreKeyStore|
            *store == before && *final(store) == after && #[trigger] call_ensures(
                generate_kyber_pre_key::<P, G, S, N, E>,
                (key_id, identity, store, generate, sign, now, encode),
                Ok(key),
            ),
        forall|private: WasmPrivateKey, bytes: Vec<u8>, signature: Vec<u8>|
            private@ == identity@.1 && #[trigger] call_ensures(
                sign,
                (&private, &bytes),
                Ok(signature),
            ) ==> accepts(bytes@, signature@),
    ensures
        accepts(key@.public_key, key@.signature),
{
    law_kyber_pre_key_is_what_was_made(
        key_id,
        identity,
        generate,
        sign,
        now,
        encode,
        before,
        after,
        key,
    );
}

/// The generation of a Kyber pre-key fails only where signing or encoding does, with
/// that error, and then changes nothing.
pub proof fn law_kyber_pre_key_failures<
    P,
    G: FnOnce() -> GeneratedPair<P>,
    S: FnOnce(&WasmPrivateKey, &Vec<u8>) -> Result<Vec<u8>, String>,
    N: FnOnce() -> u64,
    E: FnOnce(u32, u64, &GeneratedPair<P>, &Vec<u8>) -> Result<Vec<u8>, ProtocolError>,
>(
    key_id: u32,
    identity: &WasmIdentityKeyPair,
    generate: G,
    sign: S,
    now: N,
    encode: E,
    before: WasmInMemKyberPreKeyStore,
    after: WasmInMemKyberPreKeyStore,
    e: BridgeError,
)
    requires
        exists|store: &mut WasmInMemKyberPreKeyStore|
            *store == before && *final(store) == after && #[trigger] call_ensures(
                generate_kyber_pre_key::<P, G, S, N, E>,
                (key_id, identity, store, generate, sign, now, encode),
                Err(e),
            ),
    ensures
        after@ == before@,
        exists|private: WasmPrivateKey, pair: GeneratedPair<P>, signed: Result<Vec<u8>, String>|
            {
                &&& private@ == identity@.1
                &&& #[trigger] call_ensures(generate, (), pair)
                &&& #[trigger] call_ensures(sign, (&private, &pair.public_key), signed)
                &&& match signed {
                    Err(detail) => e == BridgeError::Generic(detail),
                    Ok(signature) => exists|time: u64, failure: ProtocolError|
                        {
                            &&& call_ensures(now, (), time)
                            &&& #[trigger] call_ensures(
                                encode,
                                (key_id, time, &pair, &signature),
                                Err(failure),
                            )
                            &&& e == BridgeError::Protocol(failure)
                        },
                }
            },
{
    let steps = choose|steps: crate::pre_keys::SignedSteps<P>| #[trigger]
        crate::pre_keys::signed_steps_made(
            generate,
            sign,
            now,
            encode,
            key_id,
            identity@.1,
            steps,
        ) && crate::pre_keys::signed_outcome(
            before@,
            after@,
            key_id,
            steps,
            crate::pre_keys::viewed(Err::<WasmKyberPreKey, BridgeError>(e)),
        );
    let private = choose|private: WasmPrivateKey|
        private@ == identity@.1 && #[trigger] call_ensures(
            sign,
            (&private, &steps.pair.public_key),
            steps.signed,
        );
    assert(call_ensures(generate, (), steps.pair));
    assert(call_ensures(sign, (&private, &steps.pair.public_key), steps.signed));
    if let Ok(signature) = steps.signed {
        let failure = steps.encoded->Err_0;
        assert(steps.encoded == Err::<Vec<u8>, ProtocolError>(failure));
        assert(call_ensures(
            encode,
            (key_id, steps.timestamp, &steps.pair, &signature),
            Err(failure),
        ));
    }
}

/// What a one-time pre-key shows is what it consists of, and a copy consists of the same.
pub proof fn law_one_time_pre_key_shows_its_parts(
    key: WasmPreKey,
    id: u32,
    public_key: Vec<u8>,
    record: Vec<u8>,
    copy: WasmPreKey,
)
    requires
        call_ensures(WasmPreKey::id, (&key,), id),
        call_ensures(WasmPreKey::public_key, (&key,), public_key),
        call_ensures(WasmPreKey::record, (&key,), record),
        call_ensures(<WasmPreKey as Clone>::clone, (&key,), copy),
    ensures
        id == key@.id,
        public_key@ == key@.public_key,
        record@ == key@.record,
        copy@ == key@,
{
}

/// What a signed pre-key shows is what it consists of, and a copy consists of the same.
pub proof fn law_signed_pre_key_shows_its_parts(
    key: WasmSignedPreKey,
    id: u32,
    public_key: Vec<u8>,
    signature: Vec<u8>,
    timestamp: u64,
    record: Vec<u8>,
    copy: WasmSignedPreKey,
)
    requires
        call_ensures(WasmSignedPreKey::id, (&key,), id),
        call_ensures(WasmSignedPreKey::public_key, (&key,), public_key),
        call_ensures(WasmSignedPreKey::signature, (&key,), signature),
        call_ensures(WasmSignedPreKey::timestamp, (&key,), timestamp),
        call_ensures(WasmSignedPreKey::record, (&key,), record),
        call_ensures(<WasmSignedPreKey as Clone>::clone, (&key,), copy),
    ensures
        id == key@.id,
        public_key@ == key@.public_key,
        signature@ == key@.signature,
        timestamp == key@.timestamp,
        record@ == key@.record,
        copy@ == key@,
{
}

/// What a kyber pre-key shows is what it consists of, and a copy consists of the same.
pub proof fn law_kyber_pre_key_shows_its_parts(
    key: WasmKyberPreKey,
    id: u32,
    public_key: Vec<u8>,
    signature: Vec<u8>,
    timestamp: u64,
    record: Vec<u8>,
    copy: WasmKyberPreKey,
)
    requires
        call_ensures(WasmKyberPreKey::id, (&key,), id),
        call_ensures(WasmKyberPreKey::public_key, (&key,), public_key),
        call_ensures(WasmKyberPreKey::signature, (&key,), signature),
        call_ensures(WasmKyberPreKey::timestamp, (&key,), timestamp),
        call_ensures(WasmKyberPreKey::record, (&key,), record),
        call_ensures(<WasmKyberPreKey as Clone>::clone, (&key,), copy),
    ensures
        id == key@.id,
        public_key@ == key@.public_key,
        signature@ == key@.signature,
        timestamp == key@.timestamp,
        record@ == key@.record,
        copy@ == key@,
{
}

} // verus!
