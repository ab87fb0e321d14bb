use vstd::prelude::*;

verus! {

#[verifier::external_type_specification]
#[verifier::external_body]
pub struct ExUuidError(uuid::Error);

/// Byte `i` of `v`, counting from the most significant one.
pub open spec fn be_byte(v: u128, i: int) -> u8 {
    ((v >> ((120 - 8 * i) as u128)) & 0xffu128) as u8
}

/// The sixteen bytes of `v`, most significant first.
pub open spec fn u128_be_bytes(v: u128) -> Seq<u8> {
    Seq::new(16, |i: int| be_byte(v, i))
}

/// Two values with the same sixteen bytes are the same value: an id is
/// determined by its bytes.
pub proof fn lemma_be_bytes_injective(a: u128, b: u128)
    requires
        u128_be_bytes(a) == u128_be_bytes(b),
    ensures
        a == b,
{
    lemma_same_byte(a, b, 0, 120);
    lemma_same_byte(a, b, 1, 112);
    lemma_same_byte(a, b, 2, 104);
    lemma_same_byte(a, b, 3, 96);
    lemma_same_byte(a, b, 4, 88);
    lemma_same_byte(a, b, 5, 80);
    lemma_same_byte(a, b, 6, 72);
    lemma_same_byte(a, b, 7, 64);
    lemma_same_byte(a, b, 8, 56);
    lemma_same_byte(a, b, 9, 48);
    lemma_same_byte(a, b, 10, 40);
    lemma_same_byte(a, b, 11, 32);
    lemma_same_byte(a, b, 12, 24);
    lemma_same_byte(a, b, 13, 16);
    lemma_same_byte(a, b, 14, 8);
    lemma_same_byte(a, b, 15, 0);
    assert(a == b) by (bit_vector)
        requires
            (a >> 120u128) & 0xffu128 == (b >> 120u128) & 0xffu128,
            (a >> 112u128) & 0xffu128 == (b >> 112u128) & 0xffu128,
            (a >> 104u128) & 0xffu128 == (b >> 104u128) & 0xffu128,
            (a >> 96u128) & 0xffu128 == (b >> 96u128) & 0xffu128,
            (a >> 88u128) & 0xffu128 == (b >> 88u128) & 0xffu128,
            (a >> 80u128) & 0xffu128 == (b >> 80u128) & 0xffu128,
            (a >> 72u128) & 0xffu128 == (b >> 72u128) & 0xffu128,
            (a >> 64u128) & 0xffu128 == (b >> 64u128) & 0xffu128,
            (a >> 56u128) & 0xffu128 == (b >> 56u128) & 0xffu128,
            (a >> 48u128) & 0xffu128 == (b >> 48u128) & 0xffu128,
            (a >> 40u128) & 0xffu128 == (b >> 40u128) & 0xffu128,
            (a >> 32u128) & 0xffu128 == (b >> 32u128) & 0xffu128,
            (a >> 24u128) & 0xffu128 == (b >> 24u128) & 0xffu128,
            (a >> 16u128) & 0xffu128 == (b >> 16u128) & 0xffu128,
            (a >> 8u128) & 0xffu128 == (b >> 8u128) & 0xffu128,
            (a >> 0u128) & 0xffu128 == (b >> 0u128) & 0xffu128,
    ;
}

/// Where `a` and `b` have the same byte `i`, which sits `shift` bits up, the
/// eight bits there agree.
proof fn lemma_same_byte(a: u128, b: u128, i: int, shift: u128)
    requires
        u128_be_bytes(a) == u128_be_bytes(b),
        0 <= i < 16,
        shift == 120 - 8 * i,
    ensures
        (a >> shift) & 0xffu128 == (b >> shift) & 0xffu128,
{
    assert(u128_be_bytes(a)[i] == be_byte(a, i));
    assert(u128_be_bytes(b)[i] == be_byte(b, i));
    assert((a >> shift) & 0xffu128 <= 255 && (b >> shift) & 0xffu128 <= 255) by (bit_vector);
}

/// The version number that a UUID keeps in bits 76 to 79.
pub open spec fn uuid_version(v: u128) -> u128 {
    (v >> 76u128) & 0xfu128
}

/// The variant that a UUID keeps in bits 62 and 63.
pub open spec fn uuid_variant(v: u128) -> u128 {
    (v >> 62u128) & 0x3u128
}

/// Relies on uuid::Uuid::new_v4 and Uuid::as_u128: a random UUID, whose
/// version bits say 4 and whose variant bits say RFC 4122. The generator
/// panics only when the system's source of randomness fails.
#[verifier::external_body]
fn random_uuid() -> (r: u128)
    ensures
        uuid_version(r) == 4,
        uuid_variant(r) == 2,
{
    uuid::Uuid::new_v4().as_u128()
}

/// Relies on uuid::Uuid::from_slice and Uuid::as_u128: exactly sixteen bytes
/// are accepted, read most significant first.
#[verifier::external_body]
fn uuid_from_slice(b: &[u8]) -> (r: Result<u128, uuid::Error>)
    ensures
        r is Ok <==> b@.len() == 16,
        r matches Ok(v) ==> u128_be_bytes(v) == b@,
{
    match uuid::Uuid::from_slice(b) {
        Ok(u) => Ok(u.as_u128()),
        Err(e) => Err(e),
    }
}

/// Relies on uuid::Uuid::from_u128 and Uuid::as_bytes: the sixteen bytes of
/// the value, most significant first.
#[verifier::external_body]
fn uuid_to_bytes(v: u128) -> (r: Vec<u8>)
    ensures
        r@ == u128_be_bytes(v),
{
    uuid::Uuid::from_u128(v).as_bytes().to_vec()
}

/// The identifier under which a process is registered: a 128-bit UUID,
/// independent of the operating system's process id.
#[derive(Clone, Copy, Debug, PartialEq, Eq, Structural, Hash)]
pub struct ProcessId(pub u128);

impl ProcessId {
    /// A fresh random (version 4) identifier.
    pub fn new_v4() -> (r: ProcessId)
        ensures
            uuid_version(r.0) == 4,
            uuid_variant(r.0) == 2,
    {
        ProcessId(random_uuid())
    }

    /// Reads an identifier from its sixteen bytes, most significant first.
    /// Any other length is refused.
    pub fn from_slice(b: &[u8]) -> (r: Result<ProcessId, uuid::Error>)
        ensures
            r is Ok <==> b@.len() == 16,
            r matches Ok(id) ==> u128_be_bytes(id.0) == b@,
    {
        match uuid_from_slice(b) {
            Ok(v) => Ok(ProcessId(v)),
            Err(e) => Err(e),
        }
    }

    /// The sixteen bytes of the identifier, most significant first.
    pub fn to_vec(&self) -> (r: Vec<u8>)
        ensures
            r@ == u128_be_bytes(self.0),
    {
        uuid_to_bytes(self.0)
    }
}

} // verus!
