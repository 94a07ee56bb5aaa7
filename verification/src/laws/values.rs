//! Laws on addresses, texts, UUIDs, keys and random values.

use crate::address::{make_device_id, WasmProtocolAddress};
use crate::error::{BridgeError, ProtocolError};
use crate::ids::{parse_distribution_id, uuid_from_string, uuid_to_string};
use crate::keys::{
    sign_with_identity_key, verify_identity_signature, WasmIdentityKeyPair, WasmPrivateKey,
    WasmPublicKey,
};
use crate::random::{
    draw_registration_id, filled_buffer, generate_attachment_key, generate_random_bytes,
    registration_id_from_sample,
};
use crate::text::{decimal, join};
use vstd::prelude::*;

verus! {

/// The number that decimal digits spell.
pub open spec fn decimal_value(digits: Seq<char>) -> int
    decreases digits.len(),
{
    if digits.len() == 0 {
        0
    } else {
        10 * decimal_value(digits.drop_last()) + (digits.last() as int - 48)
    }
}

/// Decimal notation spells its number in digits, without a leading zero.
proof fn lemma_decimal_text(n: nat)
    ensures
        crate::text::decimal_text(n).len() > 0,
        decimal_value(crate::text::decimal_text(n)) == n,
        forall|i: int|
            0 <= i < crate::text::decimal_text(n).len() ==> '0' <= #[trigger] crate::text::decimal_text(
                n,
            )[i] <= '9',
        crate::text::decimal_text(n)[0] == '0' ==> n == 0,
    decreases n,
{
    let text = crate::text::decimal_text(n);
    if n < 10 {
        assert(text.drop_last() =~= Seq::empty());
        assert(decimal_value(text.drop_last()) == 0);
    } else {
        lemma_decimal_text(n / 10);
        let shorter = crate::text::decimal_text(n / 10);
        assert(text.drop_last() =~= shorter);
        assert(text[0] == shorter[0]);
        assert forall|i: int| 0 <= i < text.len() implies '0' <= #[trigger] text[i] <= '9' by {
            if i < shorter.len() {
                assert(text[i] == shorter[i]);
            }
        }
    }
}

/// A number is written in decimal digits that spell it, without a leading zero; so no
/// two numbers are written alike.
pub proof fn law_decimal_spells_the_number(n: u64, text: String)
    requires
        call_ensures(decimal, (n,), text),
    ensures
        decimal_value(text@) == n,
        text@.len() > 0,
        forall|i: int| 0 <= i < text@.len() ==> '0' <= #[trigger] text@[i] <= '9',
        text@[0] == '0' ==> n == 0,
{
    lemma_decimal_text(n as nat);
}

/// Joined texts hold the one and then the other, and nothing else.
pub proof fn law_joined_texts_hold_both(prefix: &str, rest: &str, text: String)
    requires
        call_ensures(join, (prefix, rest), text),
    ensures
        text@.len() == prefix@.len() + rest@.len(),
        text@.take(prefix@.len() as int) == prefix@,
        text@.skip(prefix@.len() as int) == rest@,
{
    assert(text@.take(prefix@.len() as int) =~= prefix@);
    assert(text@.skip(prefix@.len() as int) =~= rest@);
}

/// An address is made exactly of the device ids 1 to 127, and shows the name and the id
/// that it was made of. Any other id is refused, with the one message.
pub proof fn law_address_shows_what_it_was_made_of(
    name: String,
    device_id: u32,
    checked: Result<u32, BridgeError>,
    r: Result<WasmProtocolAddress, BridgeError>,
)
    requires
        call_ensures(make_device_id, (device_id,), checked),
        call_ensures(WasmProtocolAddress::new, (name, device_id), r),
    ensures
        r is Ok <==> 1 <= device_id <= 127,
        checked is Ok <==> 1 <= device_id <= 127,
        checked matches Ok(id) ==> id == device_id,
        r matches Ok(address) ==> forall|shown: String, id: u32, copy: WasmProtocolAddress|
            #[trigger] call_ensures(WasmProtocolAddress::name, (&address,), shown)
                && #[trigger] call_ensures(WasmProtocolAddress::device_id, (&address,), id)
                && #[trigger] call_ensures(
                <WasmProtocolAddress as Clone>::clone,
                (&address,),
                copy,
            ) ==> shown@ == name@ && id == device_id && copy@ == (name@, device_id),
        r matches Err(e) ==> (e matches BridgeError::Validation(m) && m@
            == "Invalid device ID (must be 1-127)"@),
        checked matches Err(e) ==> (e matches BridgeError::Validation(m) && m@
            == "Invalid device ID (must be 1-127)"@),
{
}

/// Sixteen bytes, and no other number of them, are written as a UUID: lower-case
/// hexadecimal digits in groups of 8, 4, 4, 4 and 12. Reading that text gives back the
/// bytes, as a UUID and as a distribution id.
pub proof fn law_uuid_text_reads_back(
    bytes: &[u8],
    written: Result<String, BridgeError>,
    text: &str,
    read: Result<Vec<u8>, BridgeError>,
    id: Result<Vec<u8>, BridgeError>,
)
    requires
        call_ensures(uuid_to_string, (bytes,), written),
        written matches Ok(t) ==> t@ == text@,
        call_ensures(uuid_from_string, (text,), read),
        call_ensures(parse_distribution_id, (text,), id),
    ensures
        written is Ok <==> bytes@.len() == 16,
        written matches Err(e) ==> (e matches BridgeError::Validation(m) && m@
            == "UUID must be 16 bytes"@),
        written is Ok ==> {
            &&& text@.len() == 36
            &&& forall|i: int|
                0 <= i < 36 ==> if i == 8 || i == 13 || i == 18 || i == 23 {
                    #[trigger] text@[i] == '-'
                } else {
                    '0' <= text@[i] <= '9' || 'a' <= text@[i] <= 'f'
                }
            &&& read matches Ok(b) && b@ == bytes@
            &&& id matches Ok(b) && b@ == bytes@
        },
{
    if written is Ok {
        crate::ids::law_uuid_text_round_trip(bytes@);
        let digits = crate::ids::hex_text(bytes@);
        assert forall|i: int| 0 <= i < 36 implies if i == 8 || i == 13 || i == 18 || i == 23 {
            #[trigger] text@[i] == '-'
        } else {
            '0' <= text@[i] <= '9' || 'a' <= text@[i] <= 'f'
        } by {
            let k = if i < 8 {
                i
            } else if i < 13 {
                i - 1
            } else if i < 18 {
                i - 2
            } else if i < 23 {
                i - 3
            } else {
                i - 4
            };
            if i != 8 && i != 13 && i != 18 && i != 23 {
                assert(text@[i] == digits[k]);
            }
        }
    }
}

/// The value of a hexadecimal digit, or 16 of any other character.
pub open spec fn digit_value(c: char) -> int {
    if '0' <= c <= '9' {
        c as int - '0' as int
    } else if 'a' <= c <= 'f' {
        10 + (c as int - 'a' as int)
    } else if 'A' <= c <= 'F' {
        10 + (c as int - 'A' as int)
    } else {
        16
    }
}

/// Where digit `i` of 32 stands among the hyphens.
pub open spec fn hyphenated_place(i: int) -> int {
    if i < 8 {
        i
    } else if i < 12 {
        i + 1
    } else if i < 16 {
        i + 2
    } else if i < 20 {
        i + 3
    } else {
        i + 4
    }
}

/// From `start` on the text has 32 hexadecimal digits in hyphenated groups.
pub open spec fn hyphenated_from(text: Seq<char>, start: int) -> bool {
    &&& text[start + 8] == '-' && text[start + 13] == '-'
    &&& text[start + 18] == '-' && text[start + 23] == '-'
    &&& forall|i: int|
        0 <= i < 32 ==> digit_value(text[start + #[trigger] hyphenated_place(i)]) < 16
}

/// The byte that two hexadecimal digits spell, the high one first.
pub open spec fn byte_of(high: char, low: char) -> int {
    16 * digit_value(high) + digit_value(low)
}

/// The text of a UUID spells its bytes in order, each in two digits, the high one first.
pub proof fn law_uuid_text_spells_the_bytes(bytes: &[u8], text: String)
    requires
        call_ensures(uuid_to_string, (bytes,), Ok(text)),
    ensures
        text@.len() == 36,
        hyphenated_from(text@, 0),
        forall|k: int|
            0 <= k < 16 ==> #[trigger] bytes@[k] == byte_of(
                text@[hyphenated_place(2 * k)],
                text@[hyphenated_place(2 * k + 1)],
            ),
{
    let digits = crate::ids::hex_text(bytes@);
    assert forall|i: int| 0 <= i < 32 implies text@[#[trigger] hyphenated_place(i)]
        == digits[i] by {}
    assert forall|k: int| 0 <= k < 16 implies #[trigger] bytes@[k] == byte_of(
        text@[hyphenated_place(2 * k)],
        text@[hyphenated_place(2 * k + 1)],
    ) by {
        assert(digits[2 * k] == crate::ids::hex_digit(bytes@[k] as int / 16));
        assert(digits[2 * k + 1] == crate::ids::hex_digit(bytes@[k] as int % 16));
    }
}

/// A hyphenated text is read as the bytes that it spells, and any other is not.
proof fn lemma_hyphenated_text_is_read(text: Seq<char>, start: int)
    requires
        0 <= start,
        start + 36 <= text.len(),
    ensures
        crate::ids::bytes_of_hyphenated(text.subrange(start, start + 36)) is Some
            <==> hyphenated_from(text, start),
        crate::ids::bytes_of_hyphenated(text.subrange(start, start + 36)) matches Some(bytes)
            ==> bytes.len() == 16 && forall|k: int|
            0 <= k < 16 ==> #[trigger] bytes[k] == byte_of(
                text[start + hyphenated_place(2 * k)],
                text[start + hyphenated_place(2 * k + 1)],
            ),
{
    let part = text.subrange(start, start + 36);
    let digits = part.subrange(0, 8) + part.subrange(9, 13) + part.subrange(14, 18)
        + part.subrange(19, 23) + part.subrange(24, 36);
    assert forall|i: int| 0 <= i < 32 implies digits[i] == text[start + #[trigger] hyphenated_place(
        i,
    )] by {}
    if hyphenated_from(text, start) {
        assert forall|i: int| 0 <= i < 32 implies crate::ids::hex_value(#[trigger] digits[i])
            < 16 by {
            assert(digit_value(text[start + hyphenated_place(i)]) < 16);
        }
    }
    if crate::ids::bytes_of_hyphenated(part) is Some {
        assert forall|i: int| 0 <= i < 32 implies digit_value(
            text[start + #[trigger] hyphenated_place(i)],
        ) < 16 by {
            assert(crate::ids::hex_value(digits[i]) < 16);
        }
        let bytes = crate::ids::bytes_of_hyphenated(part)->0;
        assert forall|k: int| 0 <= k < 16 implies #[trigger] bytes[k] == byte_of(
            text[start + hyphenated_place(2 * k)],
            text[start + hyphenated_place(2 * k + 1)],
        ) by {
            assert(digits[2 * k] == text[start + hyphenated_place(2 * k)]);
            assert(digits[2 * k + 1] == text[start + hyphenated_place(2 * k + 1)]);
            assert(crate::ids::hex_value(digits[2 * k]) < 16);
            assert(crate::ids::hex_value(digits[2 * k + 1]) < 16);
        }
    }
}

/// A hyphenated text of digits in either case is read as the bytes that it spells, also
/// within braces or behind `urn:uuid:` in any case; 32 digits are read without hyphens.
/// Every other text is refused, with the description of its refusal.
pub proof fn law_uuid_texts_are_read_as_they_spell(text: &str, r: Result<Vec<u8>, BridgeError>)
    requires
        call_ensures(uuid_from_string, (text,), r),
    ensures
        text@.len() == 32 ==> (r is Ok <==> forall|i: int|
            0 <= i < 32 ==> digit_value(#[trigger] text@[i]) < 16),
        text@.len() == 36 ==> (r is Ok <==> hyphenated_from(text@, 0)),
        text@.len() == 38 ==> (r is Ok <==> text@[0] == '{' && text@[37] == '}'
            && hyphenated_from(text@, 1)),
        text@.len() == 45 ==> (r is Ok <==> {
            &&& text@[0] == 'u' || text@[0] == 'U'
            &&& text@[1] == 'r' || text@[1] == 'R'
            &&& text@[2] == 'n' || text@[2] == 'N'
            &&& text@[3] == ':'
            &&& text@[4] == 'u' || text@[4] == 'U'
            &&& text@[5] == 'u' || text@[5] == 'U'
            &&& text@[6] == 'i' || text@[6] == 'I'
            &&& text@[7] == 'd' || text@[7] == 'D'
            &&& text@[8] == ':'
            &&& hyphenated_from(text@, 9)
        }),
        text@.len() != 32 && text@.len() != 36 && text@.len() != 38 && text@.len() != 45 ==> r
            is Err,
        r matches Ok(bytes) ==> {
            let start = if text@.len() == 36 {
                0int
            } else if text@.len() == 38 {
                1int
            } else {
                9int
            };
            &&& bytes@.len() == 16
            &&& forall|k: int|
                0 <= k < 16 ==> #[trigger] bytes@[k] == if text@.len() == 32 {
                    byte_of(text@[2 * k], text@[2 * k + 1])
                } else {
                    byte_of(
                        text@[start + hyphenated_place(2 * k)],
                        text@[start + hyphenated_place(2 * k + 1)],
                    )
                }
        },
        r matches Err(e) ==> (e matches BridgeError::Generic(detail) && detail@
            == crate::outside::uuid_refusal(text@)),
{
    crate::ids::law_uuid_has_sixteen_bytes(text@);
    if text@.len() == 32 {
        if forall|i: int| 0 <= i < 32 ==> digit_value(#[trigger] text@[i]) < 16 {
            assert forall|i: int| 0 <= i < 32 implies crate::ids::hex_value(#[trigger] text@[i])
                < 16 by {
                assert(digit_value(text@[i]) < 16);
            }
        }
        if r is Ok {
            assert forall|i: int| 0 <= i < 32 implies digit_value(#[trigger] text@[i]) < 16 by {
                assert(crate::ids::hex_value(text@[i]) < 16);
            }
            assert forall|k: int| 0 <= k < 16 implies #[trigger] r->Ok_0@[k] == byte_of(
                text@[2 * k],
                text@[2 * k + 1],
            ) by {
                assert(digit_value(text@[2 * k]) < 16);
                assert(digit_value(text@[2 * k + 1]) < 16);
            }
        }
    } else if text@.len() == 36 {
        assert(text@.subrange(0, 36) =~= text@);
        lemma_hyphenated_text_is_read(text@, 0);
    } else if text@.len() == 38 {
        lemma_hyphenated_text_is_read(text@, 1);
    } else if text@.len() == 45 {
        lemma_hyphenated_text_is_read(text@, 9);
    }
}

/// A text is a distribution id exactly if it is the text of a UUID, and stands for the
/// same 16 bytes. A text that is none is refused, with the text itself in the message.
pub proof fn law_distribution_ids_are_uuids(
    text: &str,
    read: Result<Vec<u8>, BridgeError>,
    id: Result<Vec<u8>, BridgeError>,
)
    requires
        call_ensures(uuid_from_string, (text,), read),
        call_ensures(parse_distribution_id, (text,), id),
    ensures
        read is Ok <==> id is Ok,
        read matches Ok(b) ==> b@.len() == 16 && id->Ok_0@ == b@,
        read matches Err(e) ==> e is Generic,
        id matches Err(e) ==> (e matches BridgeError::Validation(m) && m@
            == "Invalid distribution id (must be a UUID string): "@ + text@),
{
    crate::ids::law_uuid_has_sixteen_bytes(text@);
}

/// A sample is accepted exactly below 262208 whole rounds of 16380, and gives the id at
/// its place in its round.
pub proof fn law_accepted_samples_give_their_id(sample: u32, id: Option<u32>)
    requires
        call_ensures(registration_id_from_sample, (sample,), id),
    ensures
        id is Some <==> sample < 4294967040,
        id matches Some(id) ==> id == sample % 16380 + 1,
{
}

/// Drawing stops at the first accepted sample: the id is its id, every sample before it
/// was rejected, and the source is handed back as that draw left it.
pub proof fn law_drawing_stops_at_the_first_accepted_sample<R, F: Fn(R) -> (u32, R)>(
    source: R,
    draw: F,
    out: (u32, R),
)
    requires
        call_ensures(draw_registration_id::<R, F>, (source, draw), out),
    ensures
        1 <= out.0 <= 16380,
        exists|states: Seq<R>, samples: Seq<u32>|
            {
                &&& states.len() == samples.len() + 1
                &&& samples.len() > 0
                &&& #[trigger] states.first() == source
                &&& states.last() == out.1
                &&& forall|i: int|
                    0 <= i < samples.len() ==> call_ensures(
                        draw,
                        (states[i],),
                        (#[trigger] samples[i], states[i + 1]),
                    )
                &&& forall|i: int| 0 <= i < samples.len() - 1 ==> #[trigger] samples[i] >= 4294967040
                &&& out.0 == #[trigger] samples.last() % 16380 + 1
                &&& samples.last() < 4294967040 || samples.len() == u64::MAX
            },
{
    let (states, samples) = choose|states: Seq<R>, samples: Seq<u32>| #[trigger]
        crate::random::samples_drawn(draw, states, samples) && states[0] == source
            && states.last() == out.1 && crate::random::sampled_id(samples, out.0);
    assert(states.first() == source);
    assert(out.0 == samples.last() % 16380 + 1);
    assert forall|i: int| 0 <= i < samples.len() - 1 implies #[trigger] samples[i]
        >= 4294967040 by {
        assert(crate::random::registration_id_of(samples[i]) is None);
    }
}

/// Random bytes are refused exactly above 1048576 of them, with both numbers in the
/// message; what is given has the length that was asked for. None are always given.
pub proof fn law_random_bytes_have_their_length(
    length: usize,
    r: Result<Vec<u8>, BridgeError>,
    key: Result<Vec<u8>, BridgeError>,
)
    requires
        call_ensures(generate_random_bytes, (length,), r),
        call_ensures(generate_attachment_key, (), key),
    ensures
        r matches Ok(bytes) ==> bytes@.len() == length && length <= 1048576,
        length > 1048576 ==> (r matches Err(BridgeError::Validation(m)) && m@
            == "Requested length "@ + crate::text::decimal_text(length as nat)
            + " exceeds maximum allowed 1048576 bytes"@),
        length <= 1048576 ==> (r matches Err(e) ==> (e matches BridgeError::Validation(m)
            && exists|detail: Seq<char>| m@ == #[trigger] ("CSPRNG error: "@ + detail))),
        length == 0 ==> r is Ok,
        key matches Ok(bytes) ==> bytes@.len() == 64,
        key matches Err(e) ==> (e matches BridgeError::Validation(m) && exists|
            detail: Seq<char>,
        | m@ == #[trigger] ("CSPRNG error: "@ + detail)),
{
}

/// What the system filled is handed out as it is, and its failure is told with its own
/// description.
pub proof fn law_filled_bytes_are_handed_out(
    filled: Result<Vec<u8>, String>,
    r: Result<Vec<u8>, BridgeError>,
)
    requires
        call_ensures(filled_buffer, (filled,), r),
    ensures
        filled matches Ok(bytes) ==> r == Ok::<Vec<u8>, BridgeError>(bytes),
        filled matches Err(detail) ==> (r matches Err(BridgeError::Validation(m)) && m@
            == "CSPRNG error: "@ + detail@),
{
}

/// A generated private key serializes as the bytes that were generated, and its public
/// key as the bytes that were derived of it.
pub proof fn law_generated_keys_serialize_as_given<
    F: FnOnce() -> Vec<u8>,
    G: FnOnce(&WasmPrivateKey) -> Result<Vec<u8>, String>,
>(
    generate: F,
    derive: G,
    key: WasmPrivateKey,
    private_bytes: Vec<u8>,
    public: Result<WasmPublicKey, BridgeError>,
)
    requires
        call_ensures(WasmPrivateKey::generate::<F>, (generate,), key),
        call_ensures(WasmPrivateKey::serialize, (&key,), private_bytes),
        call_ensures(WasmPrivateKey::get_public_key::<G>, (&key, derive), public),
    ensures
        exists|bytes: Vec<u8>| #[trigger]
            call_ensures(generate, (), bytes) && private_bytes@ == bytes@,
        exists|outcome: Result<Vec<u8>, String>| #[trigger]
            call_ensures(derive, (&key,), outcome) && {
                &&& outcome is Ok <==> public is Ok
                &&& outcome is Ok ==> public->Ok_0@ == outcome->Ok_0@
                &&& outcome matches Err(detail) ==> public == Err::<WasmPublicKey, BridgeError>(
                    BridgeError::Generic(detail),
                )
            },
{
}

/// A key that was read serializes as the bytes that reading gave; a failure to read is
/// told as it is.
pub proof fn law_read_keys_serialize_as_read<F: FnOnce(&[u8]) -> Result<Vec<u8>, String>>(
    data: &[u8],
    decode: F,
    private: Result<WasmPrivateKey, BridgeError>,
    public: Result<WasmPublicKey, BridgeError>,
)
    requires
        call_ensures(WasmPrivateKey::deserialize::<F>, (data, decode), private),
        call_ensures(WasmPublicKey::deserialize::<F>, (data, decode), public),
    ensures
        exists|outcome: Result<Vec<u8>, String>| #[trigger]
            call_ensures(decode, (data,), outcome) && match outcome {
                Ok(bytes) => private is Ok && forall|shown: Vec<u8>| #[trigger]
                    call_ensures(WasmPrivateKey::serialize, (&private->Ok_0,), shown) ==> shown@
                        == bytes@,
                Err(detail) => private == Err::<WasmPrivateKey, BridgeError>(
                    BridgeError::Generic(detail),
                ),
            },
        exists|outcome: Result<Vec<u8>, String>| #[trigger]
            call_ensures(decode, (data,), outcome) && match outcome {
                Ok(bytes) => public is Ok && forall|shown: Vec<u8>| #[trigger]
                    call_ensures(WasmPublicKey::serialize, (&public->Ok_0,), shown) ==> shown@
                        == bytes@,
                Err(detail) => public == Err::<WasmPublicKey, BridgeError>(
                    BridgeError::Generic(detail),
                ),
            },
{
}

/// An identity shows the two keys that it was made of, each in its place, and so does a
/// copy of it or of a key.
pub proof fn law_identity_shows_its_keys(
    public: &WasmPublicKey,
    private: &WasmPrivateKey,
    pair: WasmIdentityKeyPair,
    shown_public: WasmPublicKey,
    shown_private: WasmPrivateKey,
    copy: WasmIdentityKeyPair,
    public_copy: WasmPublicKey,
    private_copy: WasmPrivateKey,
)
    requires
        call_ensures(WasmIdentityKeyPair::new, (public, private), pair),
        call_ensures(WasmIdentityKeyPair::public_key, (&pair,), shown_public),
        call_ensures(WasmIdentityKeyPair::private_key, (&pair,), shown_private),
        call_ensures(<WasmIdentityKeyPair as Clone>::clone, (&pair,), copy),
        call_ensures(<WasmPublicKey as Clone>::clone, (public,), public_copy),
        call_ensures(<WasmPrivateKey as Clone>::clone, (private,), private_copy),
    ensures
        shown_public@ == public@,
        shown_private@ == private@,
        copy@ == pair@,
        public_copy@ == public@,
        private_copy@ == private@,
{
}

/// An identity is encoded from its two keys, each in its place, and one that was read
/// has the two keys that reading gave; a failure to read is told as it is.
pub proof fn law_identity_is_encoded_and_read_whole<
    E: FnOnce(&WasmPublicKey, &WasmPrivateKey) -> Vec<u8>,
    F: FnOnce(&[u8]) -> Result<(Vec<u8>, Vec<u8>), ProtocolError>,
>(
    pair: WasmIdentityKeyPair,
    encode: E,
    encoded: Vec<u8>,
    data: &[u8],
    decode: F,
    r: Result<WasmIdentityKeyPair, BridgeError>,
)
    requires
        call_ensures(WasmIdentityKeyPair::serialize::<E>, (&pair, encode), encoded),
        call_ensures(WasmIdentityKeyPair::deserialize::<F>, (data, decode), r),
    ensures
        exists|public: WasmPublicKey, private: WasmPrivateKey|
            public@ == pair@.0 && private@ == pair@.1 && #[trigger] call_ensures(
                encode,
                (&public, &private),
                encoded,
            ),
        exists|outcome: Result<(Vec<u8>, Vec<u8>), ProtocolError>| #[trigger]
            call_ensures(decode, (data,), outcome) && {
                &&& outcome is Ok <==> r is Ok
                &&& outcome is Ok ==> r->Ok_0@.0 == outcome->Ok_0.0@ && r->Ok_0@.1
                    == outcome->Ok_0.1@
                &&& outcome matches Err(e) ==> r == Err::<WasmIdentityKeyPair, BridgeError>(
                    BridgeError::Protocol(e),
                )
            },
{
}

/// A signature is what signing this message with this key gave, and a verification
/// answers what verifying this signature of this message under this key answered.
pub proof fn law_signing_and_verifying_take_what_they_are_given<
    S: FnOnce(&WasmPrivateKey, &[u8]) -> Result<Vec<u8>, String>,
    V: FnOnce(&WasmPublicKey, &[u8], &[u8]) -> bool,
>(
    private: &WasmPrivateKey,
    public: &WasmPublicKey,
    message: &[u8],
    signature: &[u8],
    sign: S,
    verify: V,
    signed: Result<Vec<u8>, BridgeError>,
    valid: bool,
)
    requires
        call_ensures(sign_with_identity_key::<S>, (private, message, sign), signed),
        call_ensures(
            verify_identity_signature::<V>,
            (public, message, signature, verify),
            valid,
        ),
    ensures
        match signed {
            Ok(bytes) => call_ensures(sign, (private, message), Ok(bytes)),
            Err(e) => e matches BridgeError::Generic(detail) && call_ensures(
                sign,
                (private, message),
                Err(detail),
            ),
        },
        call_ensures(verify, (public, message, signature), valid),
{
    let outcome = choose|outcome: Result<Vec<u8>, String>| #[trigger]
        call_ensures(sign, (private, message), outcome) && signed == crate::error::lift_generic(
            outcome,
        );
    match outcome {
        Ok(bytes) => {
            assert(call_ensures(sign, (private, message), Ok(bytes)));
        },
        Err(detail) => {
            assert(call_ensures(sign, (private, message), Err(detail)));
        },
    }
}

} // verus!
