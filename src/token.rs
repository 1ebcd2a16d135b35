use vstd::prelude::*;

verus! {

/// rand's error type, as the entropy source reports a failure.
#[verifier::external_type_specification]
#[verifier::external_body]
pub struct ExRandError(rand::Error);

/// Why a token could not be issued.
#[derive(Debug, Clone, Copy, PartialEq, Eq, Structural)]
pub enum TokenError {
    /// The operating system's entropy source failed.
    RandomSource,
    /// The drawn id is already held by an issued token.
    Collision,
}

/// A request token: a non-negative id and the epoch second it was issued at.
#[derive(Debug, Clone, Copy, PartialEq, Eq, Structural)]
pub struct Token {
    pub id: i64,
    pub issued_at: i64,
}

/// The id made from a signed random draw: its absolute value, with the one
/// draw whose absolute value does not fit (`i64::MIN`) taken to `i64::MAX`.
pub open spec fn token_id_of(draw: i64) -> i64 {
    if draw == i64::MIN {
        i64::MAX
    } else if draw < 0 {
        (-draw) as i64
    } else {
        draw
    }
}

/// Turns a signed random draw into a token id, giving up the sign bit.
pub fn token_from_draw(draw: i64) -> (r: i64)
    ensures
        r == token_id_of(draw),
        r >= 0,
{
    if draw == i64::MIN {
        i64::MAX
    } else if draw < 0 {
        -draw
    } else {
        draw
    }
}

/// Relies on rand's `OsRng::try_fill_bytes`: eight bytes from the operating
/// system's entropy source read as an `i64`, or the error the source reports.
#[verifier::external_body]
pub(crate) fn os_random_i64() -> (r: Result<i64, rand::Error>) {
    let mut bytes = [0u8; 8];
    match rand::RngCore::try_fill_bytes(&mut rand::rngs::OsRng, &mut bytes) {
        Ok(()) => Ok(i64::from_le_bytes(bytes)),
        Err(e) => Err(e),
    }
}

/// Relies on time's `OffsetDateTime::now_utc` and `unix_timestamp`: the
/// current time in whole seconds since the Unix epoch.
#[verifier::external_body]
pub(crate) fn now_epoch_seconds() -> (r: i64) {
    time::OffsetDateTime::now_utc().unix_timestamp()
}

} // verus!
