//! Calls into other crates, each with the contract that is taken from that
//! crate's documentation and source.

use vstd::prelude::*;

verus! {

/// Bytes that are overwritten when they are dropped: a `zeroize::Zeroizing`
/// buffer.
#[verifier::external_body]
pub struct SecretBytes {
    inner: zeroize::Zeroizing<Vec<u8>>,
}

/// The bytes that the buffer holds.
pub uninterp spec fn secret_contents(secret: SecretBytes) -> Seq<u8>;

impl View for SecretBytes {
    type V = Seq<u8>;

    open spec fn view(&self) -> Seq<u8> {
        secret_contents(*self)
    }
}

/// Calls `zeroize::Zeroizing::new`, which moves the value in unchanged.
#[verifier::external_body]
pub(crate) fn seal(bytes: Vec<u8>) -> (secret: SecretBytes)
    ensures
        secret_contents(secret) == bytes@,
{
    SecretBytes { inner: zeroize::Zeroizing::new(bytes) }
}

/// Calls `<zeroize::Zeroizing as Deref>::deref`, which gives the value as it
/// was moved in, and copies it out.
#[verifier::external_body]
pub(crate) fn expose(secret: &SecretBytes) -> (bytes: Vec<u8>)
    ensures
        bytes@ == secret_contents(*secret),
{
    secret.inner.to_vec()
}

/// Calls `<zeroize::Zeroizing as Clone>::clone`, which clones the value into a
/// buffer that is overwritten in its turn.
#[verifier::external_body]
pub(crate) fn duplicate(secret: &SecretBytes) -> (copy: SecretBytes)
    ensures
        secret_contents(copy) == secret_contents(*secret),
{
    SecretBytes { inner: secret.inner.clone() }
}

/// The description that `uuid::Uuid::parse_str` gives of its refusal of a text.
pub uninterp spec fn uuid_refusal(text: Seq<char>) -> Seq<char>;

/// Calls `uuid::Uuid::parse_str`, which reads the simple, hyphenated, braced and
/// URN forms, with hexadecimal digits in either case and the URN prefix in any,
/// and refuses all other texts. The refusal's description follows from the text.
#[verifier::external_body]
pub(crate) fn parse_uuid(text: &str) -> (r: Result<Vec<u8>, String>)
    ensures
        match r {
            Ok(bytes) => crate::ids::uuid_of_text(text@) == Some(bytes@),
            Err(detail) => crate::ids::uuid_of_text(text@) is None && detail@ == uuid_refusal(text@),
        },
{
    match uuid::Uuid::parse_str(text) {
        Ok(id) => Ok(id.as_bytes().to_vec()),
        Err(e) => Err(e.to_string()),
    }
}

/// Calls `uuid::Uuid::from_slice`, which takes exactly 16 bytes, and writes the
/// UUID in its default form: lower-case hexadecimal digits in hyphenated groups.
#[verifier::external_body]
pub(crate) fn format_uuid(bytes: &[u8]) -> (r: Option<String>)
    ensures
        match r {
            Some(text) => bytes@.len() == 16 && text@ == crate::ids::hyphenated_text(bytes@),
            None => bytes@.len() != 16,
        },
{
    match uuid::Uuid::from_slice(bytes) {
        Ok(id) => Some(id.to_string()),
        Err(_) => None,
    }
}

/// Calls `uuid::Uuid::new_v4`: 16 random bytes but for the version (4) in the
/// upper half of byte 6 and the variant in the two upper bits of byte 8. Like
/// the call itself, it panics where the system has no source of randomness.
#[verifier::external_body]
pub(crate) fn random_uuid() -> (bytes: Vec<u8>)
    ensures
        bytes@.len() == 16,
        0x40 <= bytes@[6] < 0x50,
        0x80 <= bytes@[8] < 0xC0,
{
    uuid::Uuid::new_v4().as_bytes().to_vec()
}

/// A handle on the thread's random generator.
#[verifier::external_type_specification]
#[verifier::external_body]
pub struct ExThreadRng(rand::rngs::ThreadRng);

/// Calls `rand::rng`, which gives a handle on the thread's generator. Like the call
/// itself, it panics where the system cannot seed the generator.
#[verifier::external_body]
pub(crate) fn random_source() -> rand::rngs::ThreadRng {
    rand::rng()
}

/// Calls `rand::Rng::random` on a generator, which `rand::random` does on the
/// thread's, and hands the generator back. Nothing is said of the value: it is any
/// `u32`. Like the call itself, it panics where the system cannot reseed the generator.
#[verifier::external_body]
pub(crate) fn random_u32(source: rand::rngs::ThreadRng) -> (u32, rand::rngs::ThreadRng) {
    let mut source = source;
    let sample = rand::Rng::random::<u32>(&mut source);
    (sample, source)
}

/// Calls `rand::Rng::fill` on the thread's generator, which overwrites every byte and
/// leaves the length. Nothing is said of the bytes. Like the calls themselves, it panics
/// where the system cannot seed or reseed the generator.
#[verifier::external_body]
pub(crate) fn fill_random(buffer: Vec<u8>) -> (filled: Vec<u8>)
    ensures
        filled@.len() == buffer@.len(),
{
    let mut buffer = buffer;
    rand::Rng::fill(&mut rand::rng(), buffer.as_mut_slice());
    buffer
}

/// Calls `getrandom::fill`, which overwrites every byte with one from the system and
/// leaves the length. It fails where the system's source does, which it does not ask
/// for an empty buffer. Nothing is said of the bytes, nor of the description of a
/// failure, which is the system's.
#[verifier::external_body]
pub(crate) fn fill_from_system(buffer: Vec<u8>) -> (r: Result<Vec<u8>, String>)
    ensures
        r matches Ok(filled) ==> filled@.len() == buffer@.len(),
        buffer@.len() == 0 ==> r is Ok,
{
    let mut buffer = buffer;
    match getrandom::fill(buffer.as_mut_slice()) {
        Ok(()) => Ok(buffer),
        Err(e) => Err(e.to_string()),
    }
}

/// Calls `subtle::ConstantTimeEq::ct_eq` on two slices: whether they are equal,
/// in a time that depends on their lengths alone.
#[verifier::external_body]
pub(crate) fn constant_time_eq(a: &[u8], b: &[u8]) -> (equal: bool)
    ensures
        equal == (a@ == b@),
{
    subtle::ConstantTimeEq::ct_eq(a, b).into()
}

/// What `function` gives.
pub(crate) fn obtained<T, F: FnOnce() -> T>(function: F) -> (value: T)
    requires
        call_requires(function, ()),
    ensures
        call_ensures(function, (), value),
{
    function()
}

/// What `function` gives for `argument`.
pub(crate) fn obtained_for<A, T, F: FnOnce(A) -> T>(function: F, argument: A) -> (value: T)
    requires
        call_requires(function, (argument,)),
    ensures
        call_ensures(function, (argument,), value),
{
    function(argument)
}

} // verus!
