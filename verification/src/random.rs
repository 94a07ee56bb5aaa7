//! Random bytes and registration ids.

use crate::error::BridgeError;
use crate::outside::{fill_from_system, obtained, obtained_for, random_source, random_u32};
use crate::text::{decimal, join};
use vstd::prelude::*;
use vstd::string::*;

verus! {

/// The largest registration id.
pub const MAX_REGISTRATION_ID: u32 = 16380;

/// The samples that are accepted: the largest whole number of rounds through all
/// registration ids that fits.
pub const ACCEPTED_SAMPLES: u32 = 4294967040;

/// The most bytes that one request may ask for: 1 MiB.
pub const MAX_RANDOM_BYTES_LENGTH: usize = 1_048_576;

/// The size of the key that an attachment is encrypted with.
pub const ATTACHMENT_KEY_SIZE: usize = 64;

/// The registration id for a uniform sample. The samples beyond the last whole
/// round are rejected, as they would favour the small ids.
pub open spec fn registration_id_of(sample: u32) -> Option<u32> {
    if sample < ACCEPTED_SAMPLES {
        Some((sample % MAX_REGISTRATION_ID + 1) as u32)
    } else {
        None
    }
}

/// The registration id for a uniform sample, unless it is rejected.
pub fn registration_id_from_sample(sample: u32) -> (id: Option<u32>)
    ensures
        id == registration_id_of(sample),
        id matches Some(id) ==> 1 <= id <= MAX_REGISTRATION_ID,
{
    if sample < (u32::MAX / MAX_REGISTRATION_ID) * MAX_REGISTRATION_ID {
        Some(sample % MAX_REGISTRATION_ID + 1)
    } else {
        None
    }
}

/// The most samples that are drawn for one registration id.
pub const MAX_DRAWS: u64 = 18446744073709551615;

/// The samples are all that `draw` gave, in order: each draw took the source as the
/// one before it had left it. `states` are the source before the first draw and after
/// each one.
pub open spec fn samples_drawn<R, F: Fn(R) -> (u32, R)>(
    draw: F,
    states: Seq<R>,
    samples: Seq<u32>,
) -> bool {
    &&& states.len() == samples.len() + 1
    &&& forall|i: int|
        0 <= i < samples.len() ==> call_ensures(
            draw,
            (states[i],),
            (#[trigger] samples[i], states[i + 1]),
        )
}

/// `id` is the registration id for the first sample that is accepted, which is the
/// last one drawn. Should all of the draws be rejected, which no run will see, the
/// last sample is taken in spite of its bias.
pub open spec fn sampled_id(samples: Seq<u32>, id: u32) -> bool {
    &&& 0 < samples.len() <= MAX_DRAWS
    &&& forall|i: int|
        0 <= i < samples.len() - 1 ==> registration_id_of(#[trigger] samples[i]) is None
    &&& match registration_id_of(samples.last()) {
        Some(accepted) => id == accepted,
        None => samples.len() == MAX_DRAWS && id == samples.last() % MAX_REGISTRATION_ID + 1,
    }
}

/// A registration id by rejection sampling: `draw` is asked for samples until one is
/// accepted, and no further. It takes the source of randomness and gives it back; so
/// does this function. The draws are counted, so that the loop is known to end.
pub fn draw_registration_id<R, F: Fn(R) -> (u32, R)>(source: R, draw: F) -> (out: (u32, R))
    requires
        forall|state: R| #[trigger] call_requires(draw, (state,)),
    ensures
        1 <= out.0 <= MAX_REGISTRATION_ID,
        exists|states: Seq<R>, samples: Seq<u32>| #[trigger]
            samples_drawn(draw, states, samples) && states[0] == source && states.last() == out.1
                && sampled_id(samples, out.0),
{
    let ghost start = source;
    let (first, after_first) = draw(source);
    let mut sample: u32 = first;
    let mut source = after_first;
    let mut left: u64 = MAX_DRAWS - 1;
    let ghost mut states: Seq<R> = seq![start, source];
    let ghost mut samples: Seq<u32> = seq![sample];
    while left > 0 && registration_id_from_sample(sample).is_none()
        invariant
            forall|state: R| #[trigger] call_requires(draw, (state,)),
            left < MAX_DRAWS,
            samples.len() == MAX_DRAWS - left,
            samples.last() == sample,
            states[0] == start,
            states.last() == source,
            samples_drawn(draw, states, samples),
            forall|i: int|
                0 <= i < samples.len() - 1 ==> registration_id_of(#[trigger] samples[i]) is None,
        decreases left,
    {
        let ghost before = source;
        let (next, after) = draw(source);
        sample = next;
        source = after;
        left = left - 1;
        proof {
            let longer_states = states.push(source);
            let longer_samples = samples.push(sample);
            assert forall|i: int| 0 <= i < longer_samples.len() implies call_ensures(
                draw,
                (longer_states[i],),
                (#[trigger] longer_samples[i], longer_states[i + 1]),
            ) by {
                if i < samples.len() {
                    assert(longer_samples[i] == samples[i]);
                } else {
                    assert(longer_states[i] == before);
                }
            }
            states = longer_states;
            samples = longer_samples;
        }
    }
    let id = sample % MAX_REGISTRATION_ID + 1;
    assert(sampled_id(samples, id));
    assert(samples_drawn(draw, states, samples));
    (id, source)
}

/// The samples are all that the thread's random generator gave for one request, in
/// order.
pub closed spec fn random_samples(samples: Seq<u32>) -> bool {
    exists|states: Seq<rand::rngs::ThreadRng>|
        #[trigger] samples_drawn(random_u32, states, samples) && call_ensures(
            random_source,
            (),
            states[0],
        )
}

/// A random registration id, unbiased: the one for the first random sample that is
/// accepted. Nearly all samples are, and which id comes rests on chance.
pub fn generate_registration_id() -> (id: u32)
    ensures
        1 <= id <= MAX_REGISTRATION_ID,
        exists|samples: Seq<u32>| #[trigger] random_samples(samples) && sampled_id(samples, id),
{
    let source = obtained(random_source);
    let out = draw_registration_id(source, random_u32);
    proof {
        let (states, samples) = choose|states: Seq<rand::rngs::ThreadRng>, samples: Seq<u32>|
            #[trigger] samples_drawn(random_u32, states, samples) && states[0] == source
                && states.last() == out.1 && sampled_id(samples, out.0);
        assert(random_samples(samples));
    }
    out.0
}

/// Why so many bytes are refused.
pub open spec fn too_long_message(length: nat) -> Seq<char> {
    "Requested length "@ + crate::text::decimal_text(length)
        + " exceeds maximum allowed 1048576 bytes"@
}

/// What a request for random bytes makes of the system's answer.
pub open spec fn filled_outcome(
    filled: Result<Vec<u8>, String>,
    r: Result<Vec<u8>, BridgeError>,
) -> bool {
    match filled {
        Ok(bytes) => r == Ok::<Vec<u8>, BridgeError>(bytes),
        Err(detail) => r matches Err(e) && crate::error::refused_with(
            e,
            "CSPRNG error: "@ + detail@,
        ),
    }
}

/// What a request for random bytes yields once the system has filled the buffer,
/// or failed to.
pub fn filled_buffer(filled: Result<Vec<u8>, String>) -> (r: Result<Vec<u8>, BridgeError>)
    ensures
        filled_outcome(filled, r),
{
    match filled {
        Ok(bytes) => Ok(bytes),
        Err(detail) => Err(BridgeError::Validation(join("CSPRNG error: ", detail.as_str()))),
    }
}

/// `filled` is what the system's source of randomness gave when it was handed
/// `buffer` to fill.
pub closed spec fn system_filled(buffer: Vec<u8>, filled: Result<Vec<u8>, String>) -> bool {
    call_ensures(fill_from_system, (buffer,), filled)
}

/// The system was asked to fill a buffer of `length` bytes, and `r` is what its answer
/// yields.
pub open spec fn system_bytes(length: nat, r: Result<Vec<u8>, BridgeError>) -> bool {
    exists|buffer: Vec<u8>, filled: Result<Vec<u8>, String>|
        {
            &&& buffer@.len() == length
            &&& #[trigger] system_filled(buffer, filled)
            &&& filled_outcome(filled, r)
        }
}

/// `length` bytes from the system's source of randomness. No more than 1 MiB are
/// given at once; within that, the request fails only where the system does.
pub fn generate_random_bytes(length: usize) -> (r: Result<Vec<u8>, BridgeError>)
    ensures
        length > MAX_RANDOM_BYTES_LENGTH ==> (r matches Err(e) && crate::error::refused_with(
            e,
            too_long_message(length as nat),
        )),
        length <= MAX_RANDOM_BYTES_LENGTH ==> system_bytes(length as nat, r),
        r matches Ok(bytes) ==> bytes@.len() == length,
        length == 0 ==> r is Ok,
{
    if length > MAX_RANDOM_BYTES_LENGTH {
        let message = join("Requested length ", decimal(length as u64).as_str()).concat(
            " exceeds maximum allowed 1048576 bytes",
        );
        return Err(BridgeError::Validation(message));
    }
    let buffer: Vec<u8> = vec![0u8; length];
    let ghost handed = buffer;
    let filled = obtained_for(fill_from_system, buffer);
    assert(system_filled(handed, filled));
    filled_buffer(filled)
}

/// A random key for an attachment.
pub fn generate_attachment_key() -> (r: Result<Vec<u8>, BridgeError>)
    ensures
        system_bytes(ATTACHMENT_KEY_SIZE as nat, r),
        r matches Ok(bytes) ==> bytes@.len() == ATTACHMENT_KEY_SIZE,
{
    generate_random_bytes(ATTACHMENT_KEY_SIZE)
}

/// The samples that give the registration id `id`.
pub open spec fn samples_for(id: u32) -> Set<int> {
    Set::new(|s: int| 0 <= s <= u32::MAX && registration_id_of(s as u32) == Some(id))
}

/// Registration ids are unbiased: each one is given by equally many samples.
pub proof fn law_registration_ids_are_unbiased(id: u32)
    requires
        1 <= id <= MAX_REGISTRATION_ID,
    ensures
        samples_for(id).finite(),
        samples_for(id).len() == u32::MAX / MAX_REGISTRATION_ID,
{
    let rounds = vstd::set_lib::set_int_range(0, 262208);
    let f = |k: int| k * 16380 + id - 1;
    vstd::set_lib::lemma_int_range(0, 262208);
    assert(samples_for(id) =~= rounds.map(f)) by {
        assert forall|s: int| samples_for(id).contains(s) implies rounds.map(f).contains(s) by {
            let k = s / 16380;
            assert(rounds.contains(k) && f(k) == s);
        }
        assert forall|s: int| rounds.map(f).contains(s) implies samples_for(id).contains(s) by {
            let k = choose|k: int| rounds.contains(k) && f(k) == s;
            assert((s as u32) % 16380 == id - 1);
        }
    }
    vstd::set_lib::lemma_map_size(rounds, rounds.map(f), f);
}

/// Random bytes are what the system filled a buffer of that length with, as it filled
/// it, and a failure is the system's. The key of an attachment is 64 such bytes.
pub(crate) proof fn law_random_bytes_are_the_systems(
    length: usize,
    r: Result<Vec<u8>, BridgeError>,
    key: Result<Vec<u8>, BridgeError>,
)
    requires
        length <= 1048576,
        call_ensures(generate_random_bytes, (length,), r),
        call_ensures(generate_attachment_key, (), key),
    ensures
        exists|buffer: Vec<u8>, filled: Result<Vec<u8>, String>|
            {
                &&& buffer@.len() == length
                &&& #[trigger] call_ensures(fill_from_system, (buffer,), filled)
                &&& filled matches Ok(bytes) ==> r == Ok::<Vec<u8>, BridgeError>(bytes)
                &&& filled matches Err(detail) ==> (r matches Err(BridgeError::Validation(m))
                    && m@ == "CSPRNG error: "@ + detail@)
            },
        exists|buffer: Vec<u8>, filled: Result<Vec<u8>, String>|
            {
                &&& buffer@.len() == 64
                &&& #[trigger] call_ensures(fill_from_system, (buffer,), filled)
                &&& filled matches Ok(bytes) ==> key == Ok::<Vec<u8>, BridgeError>(bytes)
                &&& filled matches Err(detail) ==> (key matches Err(BridgeError::Validation(m))
                    && m@ == "CSPRNG error: "@ + detail@)
            },
{
}

/// A generated registration id is that of the first accepted sample of the thread's
/// random generator, each draw taking the generator as the one before it left it.
pub(crate) proof fn law_registration_id_is_drawn(id: u32)
    requires
        call_ensures(generate_registration_id, (), id),
    ensures
        1 <= id <= 16380,
        exists|states: Seq<rand::rngs::ThreadRng>, samples: Seq<u32>|
            {
                &&& states.len() == samples.len() + 1
                &&& samples.len() > 0
                &&& #[trigger] call_ensures(random_source, (), states[0])
                &&& forall|i: int|
                    0 <= i < samples.len() ==> call_ensures(
                        random_u32,
                        (states[i],),
                        (#[trigger] samples[i], states[i + 1]),
                    )
                &&& forall|i: int|
                    0 <= i < samples.len() - 1 ==> #[trigger] samples[i] >= 4294967040
                &&& id == #[trigger] samples.last() % 16380 + 1
                &&& samples.last() < 4294967040 || samples.len() == u64::MAX
            },
{
    let samples = choose|samples: Seq<u32>| #[trigger]
        random_samples(samples) && sampled_id(samples, id);
    let states = choose|states: Seq<rand::rngs::ThreadRng>| #[trigger]
        samples_drawn(random_u32, states, samples) && call_ensures(random_source, (), states[0]);
    assert(id == samples.last() % 16380 + 1);
    assert forall|i: int| 0 <= i < samples.len() - 1 implies #[trigger] samples[i]
        >= 4294967040 by {
        assert(registration_id_of(samples[i]) is None);
    }
}

} // verus!
