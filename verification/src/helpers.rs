//! Small shared helpers: integer division with remainder, and timezone
//! lookup by name or from the operating system.

use vstd::prelude::*;
use crate::args::ResolveError;
use crate::clock;

verus! {

/// Return the quotient and remainder of the division of dividend by
/// divisor, with Rust's truncating semantics: the quotient is rounded
/// toward zero and the remainder carries the dividend's sign. The one
/// pair left out is the only one whose quotient does not fit an `i64`.
pub fn divmod(dividend: i64, divisor: i64) -> (r: (i64, i64))
    requires
        divisor != 0,
        !(dividend == i64::MIN && divisor == -1),
    ensures
        dividend == r.0 * divisor + r.1,
        0 <= dividend ==> 0 <= r.1,
        dividend <= 0 ==> r.1 <= 0,
        0 < divisor ==> -divisor < r.1 < divisor,
        divisor < 0 ==> divisor < r.1 < -divisor,
        0 <= dividend && 0 < divisor ==> r.0 == dividend / divisor && r.1 == dividend % divisor,
{
    let ua: u64 = if dividend < 0 {
        (-(dividend as i128)) as u64
    } else {
        dividend as u64
    };
    let ub: u64 = if divisor < 0 {
        (-(divisor as i128)) as u64
    } else {
        divisor as u64
    };
    let uq: u64 = ua / ub;
    let ur: u64 = ua % ub;
    proof {
        vstd::arithmetic::div_mod::lemma_fundamental_div_mod(ua as int, ub as int);
        vstd::arithmetic::div_mod::lemma_div_nonincreasing(ua as int, ub as int);
        vstd::arithmetic::div_mod::lemma_mod_division_less_than_divisor(ua as int, ub as int);
        if ua == 0x8000000000000000u64 && ub >= 2 {
            vstd::arithmetic::div_mod::lemma_div_is_ordered_by_denominator(
                0x8000000000000000,
                2,
                ub as int,
            );
            vstd::arithmetic::div_mod::lemma_div_multiples_vanish(0x4000000000000000, 2);
        }
    }
    let q: i64 = if (dividend < 0) != (divisor < 0) {
        (-(uq as i128)) as i64
    } else {
        uq as i64
    };
    let rem: i64 = if dividend < 0 {
        (-(ur as i128)) as i64
    } else {
        ur as i64
    };
    proof {
        assert(dividend as int == q * divisor + rem) by (nonlinear_arith)
            requires
                ua == ub * uq + ur,
                (dividend < 0 ==> dividend as int == -(ua as int)) && (!(dividend < 0)
                    ==> dividend as int == ua as int),
                (divisor < 0 ==> divisor as int == -(ub as int)) && (!(divisor < 0)
                    ==> divisor as int == ub as int),
                ((dividend < 0) != (divisor < 0) ==> q as int == -(uq as int)) && (!((dividend
                    < 0) != (divisor < 0)) ==> q as int == uq as int),
                (dividend < 0 ==> rem as int == -(ur as int)) && (!(dividend < 0) ==> rem as int
                    == ur as int),
        ;
        if 0 <= dividend && 0 < divisor {
            vstd::arithmetic::div_mod::lemma_fundamental_div_mod_converse(
                dividend as int,
                divisor as int,
                q as int,
                rem as int,
            );
        }
    }
    (q, rem)
}

/// Look a timezone up by name; an unknown name is reported as a
/// `TimezoneInvalid` error carrying that name.
pub fn tz_from_name(name: String) -> (r: Result<chrono_tz::Tz, ResolveError>)
    ensures
        r is Ok <==> clock::tz_known(name@),
        r matches Err(e) ==> e matches ResolveError::TimezoneInvalid(n) && n@ == name@,
{
    match clock::parse_tz(name.as_str()) {
        Some(tz) => Ok(tz),
        None => Err(ResolveError::TimezoneInvalid(name)),
    }
}

/// Get the system timezone. Returns an error if no system timezone can
/// be found or if the reported name is not in the timezone database.
pub fn get_system_timezone() -> (r: Result<chrono_tz::Tz, ResolveError>)
    ensures
        r matches Err(e) ==> e is TimezoneUnavailable || e matches ResolveError::TimezoneInvalid(
            _,
        ),
        r matches Err(ResolveError::TimezoneInvalid(n)) ==> !clock::tz_known(n@),
{
    match clock::system_timezone_name() {
        None => Err(ResolveError::TimezoneUnavailable),
        Some(name) => tz_from_name(name),
    }
}

} // verus!
