//! The random bounce: the vertical velocity a paddle hit imparts is a
//! uniform random fraction of a uniform random signed byte. The two draws
//! come from the `rand` crate; combining them is verified.

use vstd::prelude::*;

use rand::Rng;

verus! {

/// Relies on `rand::thread_rng` and `rand::Rng::gen::<u16>`: a uniform
/// random 16-bit value, read by the caller as the numerator of a fraction
/// over 65536. Nothing can be promised of a random draw.
#[verifier::external_body]
fn random_fraction_numerator() -> (r: u16) {
    rand::thread_rng().gen::<u16>()
}

/// Relies on `rand::thread_rng` and `rand::Rng::gen::<i8>`: a uniform
/// random signed byte. Nothing can be promised of a random draw.
#[verifier::external_body]
fn random_signed_byte() -> (r: i8) {
    rand::thread_rng().gen::<i8>()
}

/// The signed byte `b` scaled by the fraction `num / 65536`, rounded toward
/// zero.
pub open spec fn spec_bounce_vy(b: int, num: int) -> int {
    if b >= 0 {
        b * num / 65536
    } else {
        -((-b) * num / 65536)
    }
}

/// Combine a random signed byte and a random fraction numerator into the
/// vertical bounce velocity, in milli-units per millisecond.
pub fn bounce_vy(b: i8, num: u16) -> (vy: i64)
    ensures
        vy == spec_bounce_vy(b as int, num as int),
        -128 <= vy <= 127,
{
    let bw: i64 = b as i64;
    let nw: i64 = num as i64;
    let mag: i64 = if bw < 0 {
        -bw
    } else {
        bw
    };
    proof {
        assert(0 <= mag * nw <= 128 * 65535) by (nonlinear_arith)
            requires
                0 <= mag <= 128,
                0 <= nw <= 65535,
        ;
    }
    let scaled: i64 = mag * nw / 65536;
    if bw >= 0 {
        scaled
    } else {
        -scaled
    }
}

/// Draw the vertical velocity for one paddle bounce. The draw is random, so
/// only its range is promised: a magnitude below 128 milli-units per
/// millisecond, like the signed byte it is scaled from.
pub fn random_bounce_vy() -> (vy: i64)
    ensures
        -128 <= vy <= 127,
{
    let b = random_signed_byte();
    let num = random_fraction_numerator();
    bounce_vy(b, num)
}

} // verus!
