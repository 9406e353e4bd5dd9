use vstd::prelude::*;

verus! {

/// The bytes of the ASCII letters and digits.
pub open spec fn is_alphanumeric_byte(b: u8) -> bool {
    (65 <= b <= 90) || (97 <= b <= 122) || (48 <= b <= 57)
}

/// A version-4 (random) UUID in the layout of RFC 9562, read as a
/// big-endian `u128`: version nibble 4, variant bits `10`.
pub open spec fn is_random_uuid(id: u128) -> bool {
    &&& (id >> 76u128) & 0xfu128 == 4
    &&& (id >> 62u128) & 0x3u128 == 2
}

/// `s` read as a big-endian unsigned number.
pub open spec fn big_endian(s: Seq<u8>) -> nat
    decreases s.len(),
{
    if s.len() == 0 {
        0
    } else {
        big_endian(s.drop_last()) * 256 + s.last() as nat
    }
}

/// The 16 bytes of a random UUID made from `b`: byte 6 gets version
/// nibble 4, byte 8 the variant bits `10`; the others stay as drawn.
pub open spec fn random_uuid_bytes(b: Seq<u8>) -> Seq<u8> {
    b.update(6, (b[6] & 0x0fu8) | 0x40u8).update(8, (b[8] & 0x3fu8) | 0x80u8)
}

#[verifier::external_type_specification]
#[verifier::external_body]
pub struct ExStdRng(rand::rngs::StdRng);

#[verifier::external_type_specification]
#[verifier::external_body]
pub struct ExSystemTime(std::time::SystemTime);

/// `SeedableRng::from_rng(OsRng)` for rand's `StdRng`: a generator seeded
/// with bytes from the operating system. Its source fills the seed with
/// `try_fill_bytes`, so a failing OS source gives `None`, not a panic.
#[verifier::external_body]
pub(crate) fn seeded_rng() -> Option<rand::rngs::StdRng> {
    <rand::rngs::StdRng as rand::SeedableRng>::from_rng(rand::rngs::OsRng).ok()
}

/// `Rng::sample` with the `Alphanumeric` distribution of rand 0.8: the
/// byte returned is one of `A-Z`, `a-z`, `0-9` (it indexes the constant
/// charset `GEN_ASCII_STR_CHARSET`). Which one is left to chance.
#[verifier::external_body]
pub(crate) fn sample_alphanumeric(rng: &mut rand::rngs::StdRng) -> (b: u8)
    ensures
        is_alphanumeric_byte(b),
{
    rand::Rng::sample(rng, rand::distributions::Alphanumeric)
}

/// `RngCore::try_fill_bytes` on rand's `OsRng`: 16 bytes from the operating
/// system, or `None` when it fails. What the bytes are is left to chance.
#[verifier::external_body]
fn os_random_bytes() -> Option<[u8; 16]> {
    let mut bytes = [0u8; 16];
    match rand::RngCore::try_fill_bytes(&mut rand::rngs::OsRng, &mut bytes) {
        Ok(()) => Some(bytes),
        Err(_) => None,
    }
}

/// `uuid::Builder::from_random_bytes(bytes).into_uuid().as_u128()`: its
/// source sets byte 6 to `(b & 0x0f) | 0x40` and byte 8 to
/// `(b & 0x3f) | 0x80`, and `as_u128` reads the 16 bytes big-endian; so the
/// version nibble is 4 and the variant bits are `10`.
#[verifier::external_body]
fn random_uuid(bytes: [u8; 16]) -> (id: u128)
    ensures
        id as nat == big_endian(random_uuid_bytes(bytes@)),
        is_random_uuid(id),
{
    uuid::Builder::from_random_bytes(bytes).into_uuid().as_u128()
}

/// A fresh random (version 4) UUID, or `None` when the operating system
/// gives no random bytes.
pub fn draw_uuid() -> (id: Option<u128>)
    ensures
        id matches Some(id) ==> is_random_uuid(id),
{
    match os_random_bytes() {
        Some(bytes) => Some(random_uuid(bytes)),
        None => None,
    }
}

/// `std::time::SystemTime::now`: the system clock's reading.
#[verifier::external_body]
fn system_time_now() -> std::time::SystemTime {
    std::time::SystemTime::now()
}

/// `SystemTime::duration_since(UNIX_EPOCH)`: the time elapsed since the
/// Unix epoch, or `None` for a reading before it.
#[verifier::external_body]
fn since_unix_epoch(t: std::time::SystemTime) -> Option<core::time::Duration> {
    t.duration_since(std::time::UNIX_EPOCH).ok()
}

/// `Duration::as_micros`: the whole microseconds of `d`.
#[verifier::external_body]
fn duration_as_micros(d: &core::time::Duration) -> u128 {
    d.as_micros()
}

/// A microsecond count as an `i64`, or `None` past what an `i64` holds.
pub fn micros_to_i64(micros: u128) -> (t: Option<i64>)
    ensures
        t == (if micros <= 0x7fff_ffff_ffff_ffffu128 {
            Some(micros as i64)
        } else {
            None::<i64>
        }),
{
    if micros <= 0x7fff_ffff_ffff_ffffu128 {
        Some(micros as i64)
    } else {
        None
    }
}

/// The system clock in microseconds since the Unix epoch, or `None` when
/// the clock reads before the epoch or past what an `i64` holds.
pub fn clock_micros() -> (t: Option<i64>)
    ensures
        t matches Some(t) ==> t >= 0,
{
    match since_unix_epoch(system_time_now()) {
        Some(d) => micros_to_i64(duration_as_micros(&d)),
        None => None,
    }
}

} // verus!
