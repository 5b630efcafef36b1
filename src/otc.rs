//! Market configuration and the shared-decimals amount arithmetic.
use vstd::prelude::*;
use crate::errors::OtcError;

verus! {

/// Endpoint id of the chain this market instance runs on by default.
pub const EID: u32 = 40168;

/// Decimals of every amount on the wire and in offer records.
pub const SHARED_DECIMALS: u8 = 6;

/// Decimals of the native token, used when no mint is given.
pub const NATIVE_DECIMALS: u8 = 9;

/// The destination-leg fee is `1 / FEE` of the amount.
pub const FEE: u8 = 100;

pub open spec fn pow10(n: nat) -> nat
    decreases n,
{
    if n == 0 {
        1
    } else {
        10 * pow10((n - 1) as nat)
    }
}

pub proof fn lemma_pow10_mono(a: nat, b: nat)
    requires
        a <= b,
    ensures
        1 <= pow10(a) <= pow10(b),
    decreases b,
{
    if a < b {
        lemma_pow10_mono(a, (b - 1) as nat);
    } else if a > 0 {
        lemma_pow10_mono((a - 1) as nat, (a - 1) as nat);
    }
}

/// Local decimals of a token: those of its mint, or the native token's.
pub open spec fn local_decimals(token_decimals: Option<u8>) -> int {
    match token_decimals {
        Some(d) => d as int,
        None => NATIVE_DECIMALS as int,
    }
}

/// `10^(D - SHARED_DECIMALS)` for a token with `D` local decimals.
pub open spec fn conversion_rate(token_decimals: Option<u8>) -> nat {
    pow10((local_decimals(token_decimals) - SHARED_DECIMALS) as nat)
}

/// What `get_decimal_conversion_rate` returns.
pub open spec fn conversion_rate_result(token_decimals: Option<u8>) -> Result<u64, OtcError> {
    if local_decimals(token_decimals) < SHARED_DECIMALS {
        Err(OtcError::InvalidLocalDecimals)
    } else if conversion_rate(token_decimals) <= u64::MAX {
        Ok(conversion_rate(token_decimals) as u64)
    } else {
        Err(OtcError::ExcessiveAmount)
    }
}

pub open spec fn ld_to_sd(amount_ld: int, rate: int) -> int {
    amount_ld / rate
}

pub open spec fn sd_to_ld(amount_sd: int, rate: int) -> int {
    amount_sd * rate
}

/// `(amount_sd, amount_ld_rounded)` with the dust below one shared unit removed.
pub open spec fn remove_dust_spec(amount_ld: int, rate: int) -> (int, int) {
    (ld_to_sd(amount_ld, rate), sd_to_ld(ld_to_sd(amount_ld, rate), rate))
}

/// Destination amount in local decimals for `src_amount_sd` at `exchange_rate_sd`.
pub open spec fn dst_amount(src_amount_sd: int, exchange_rate_sd: int, dst_rate: int) -> int {
    (src_amount_sd * exchange_rate_sd * dst_rate) / (pow10(SHARED_DECIMALS as nat) as int)
}

pub open spec fn fee_of(dst_amount_ld: int) -> int {
    dst_amount_ld / (FEE as int)
}

/// The amounts a buyer pays on the destination leg of an accept.
#[derive(Clone, Copy, Debug, PartialEq, Eq, Structural)]
pub struct AcceptOfferReceipt {
    pub dst_amount_ld: u64,
    pub fee_ld: u64,
}

/// What `to_dst_amount` returns for a destination token with `dst_token_decimals`.
pub open spec fn to_dst_amount_result(
    src_amount_sd: u64,
    exchange_rate_sd: u64,
    dst_token_decimals: Option<u8>,
) -> Result<AcceptOfferReceipt, OtcError> {
    match conversion_rate_result(dst_token_decimals) {
        Err(e) => Err(e),
        Ok(rate) => {
            let d = dst_amount(src_amount_sd as int, exchange_rate_sd as int, rate as int);
            if d <= u64::MAX {
                Ok(AcceptOfferReceipt { dst_amount_ld: d as u64, fee_ld: fee_of(d) as u64 })
            } else {
                Err(OtcError::ExcessiveAmount)
            }
        },
    }
}

/// Configuration of one market instance.
#[derive(Clone, Copy, Debug)]
pub struct OtcConfig {
    pub endpoint_program: [u8; 32],
    pub eid: u32,
    pub admin: [u8; 32],
    pub treasury: [u8; 32],
}

impl OtcConfig {
    pub fn ld2sd(amount_ld: u64, decimal_conversion_rate: u64) -> (r: u64)
        requires
            decimal_conversion_rate > 0,
        ensures
            r == ld_to_sd(amount_ld as int, decimal_conversion_rate as int),
    {
        amount_ld / decimal_conversion_rate
    }

    /// Fails with `ExcessiveAmount` where the local amount does not fit a `u64`.
    pub fn sd2ld(amount_sd: u64, decimal_conversion_rate: u64) -> (r: Result<u64, OtcError>)
        ensures
            sd_to_ld(amount_sd as int, decimal_conversion_rate as int) <= u64::MAX ==> r == Ok::<
                u64,
                OtcError,
            >(sd_to_ld(amount_sd as int, decimal_conversion_rate as int) as u64),
            sd_to_ld(amount_sd as int, decimal_conversion_rate as int) > u64::MAX ==> r == Err::<
                u64,
                OtcError,
            >(OtcError::ExcessiveAmount),
    {
        match amount_sd.checked_mul(decimal_conversion_rate) {
            Some(v) => Ok(v),
            None => Err(OtcError::ExcessiveAmount),
        }
    }

    pub fn remove_dust(amount_ld: u64, decimal_conversion_rate: u64) -> (r: (u64, u64))
        requires
            decimal_conversion_rate > 0,
        ensures
            r.0 == remove_dust_spec(amount_ld as int, decimal_conversion_rate as int).0,
            r.1 == remove_dust_spec(amount_ld as int, decimal_conversion_rate as int).1,
            r.1 <= amount_ld,
    {
        let amount_sd = Self::ld2sd(amount_ld, decimal_conversion_rate);
        proof {
            lemma_dust_bounded(amount_ld as int, decimal_conversion_rate as int);
        }
        let amount_ld_rounded = amount_sd * decimal_conversion_rate;
        (amount_sd, amount_ld_rounded)
    }

    /// The 32-byte address of a token: its mint, or all zeros for the native token.
    pub fn get_token_address(token_mint: Option<[u8; 32]>) -> (r: [u8; 32])
        ensures
            r@ == token_address(token_mint),
    {
        match token_mint {
            Some(mint) => mint,
            None => {
                let r = [0u8; 32];
                assert(r@ =~= Seq::new(32, |i: int| 0u8));
                r
            },
        }
    }

    /// `10^(D - SHARED_DECIMALS)` for a token with `D` local decimals (9 when native).
    pub fn get_decimal_conversion_rate(token_decimals: Option<u8>) -> (r: Result<u64, OtcError>)
        ensures
            r == conversion_rate_result(token_decimals),
            r matches Ok(rate) ==> rate >= 1,
    {
        let d: u8 = match token_decimals {
            Some(d) => d,
            None => NATIVE_DECIMALS,
        };
        if d < SHARED_DECIMALS {
            return Err(OtcError::InvalidLocalDecimals);
        }
        let n: u8 = d - SHARED_DECIMALS;
        let mut rate: u64 = 1;
        let mut i: u8 = 0;
        while i < n
            invariant
                i <= n,
                n as int == local_decimals(token_decimals) - SHARED_DECIMALS,
                rate as nat == pow10(i as nat),
            decreases n - i,
        {
            match rate.checked_mul(10) {
                Some(v) => {
                    rate = v;
                },
                None => {
                    proof {
                        lemma_pow10_mono((i + 1) as nat, n as nat);
                        assert(pow10((i + 1) as nat) == 10 * pow10(i as nat));
                    }
                    return Err(OtcError::ExcessiveAmount);
                },
            }
            i = i + 1;
        }
        proof {
            lemma_pow10_mono(0, n as nat);
        }
        Ok(rate)
    }

    /// Destination amount and fee for accepting `src_amount_sd` of an offer.
    pub fn to_dst_amount(
        src_amount_sd: u64,
        exchange_rate_sd: u64,
        dst_token_decimals: Option<u8>,
    ) -> (r: Result<AcceptOfferReceipt, OtcError>)
        ensures
            r == to_dst_amount_result(src_amount_sd, exchange_rate_sd, dst_token_decimals),
            r matches Ok(receipt) ==> receipt.fee_ld <= receipt.dst_amount_ld,
    {
        let rate = match Self::get_decimal_conversion_rate(dst_token_decimals) {
            Ok(rate) => rate,
            Err(e) => return Err(e),
        };
        let a = src_amount_sd as u128;
        let b = exchange_rate_sd as u128;
        proof {
            lemma_mul_u64_fits(src_amount_sd, exchange_rate_sd);
        }
        let ab: u128 = a * b;
        let scale: u128 = 1_000_000;
        proof {
            reveal_with_fuel(pow10, 7);
        }
        assert(pow10(SHARED_DECIMALS as nat) == 1_000_000);
        let abc: u128 = match ab.checked_mul(rate as u128) {
            Some(v) => v,
            None => {
                proof {
                    lemma_big_quotient(ab as int * rate as int);
                }
                return Err(OtcError::ExcessiveAmount);
            },
        };
        let q: u128 = abc / scale;
        if q > u64::MAX as u128 {
            return Err(OtcError::ExcessiveAmount);
        }
        let dst_amount_ld = q as u64;
        let fee_ld = dst_amount_ld / (FEE as u64);
        Ok(AcceptOfferReceipt { dst_amount_ld, fee_ld })
    }
}

/// Address of a token given its mint; all zeros denotes the native token.
pub open spec fn token_address(token_mint: Option<[u8; 32]>) -> Seq<u8> {
    match token_mint {
        Some(mint) => mint@,
        None => Seq::new(32, |i: int| 0u8),
    }
}

proof fn lemma_dust_bounded(x: int, c: int)
    requires
        0 <= x,
        0 < c,
    ensures
        0 <= (x / c) * c <= x,
{
    assert(0 <= (x / c) * c <= x) by (nonlinear_arith)
        requires
            0 <= x,
            0 < c,
    ;
}

proof fn lemma_mul_u64_fits(a: u64, b: u64)
    ensures
        (a as int) * (b as int) <= u128::MAX,
{
    assert((a as int) * (b as int) <= (u64::MAX as int) * (u64::MAX as int)) by (nonlinear_arith);
    assert((u64::MAX as int) * (u64::MAX as int) <= u128::MAX);
}

proof fn lemma_big_quotient(x: int)
    requires
        x > u128::MAX,
    ensures
        x / 1_000_000 > u64::MAX,
{
    assert(x / 1_000_000 > u64::MAX) by (nonlinear_arith)
        requires
            x > u128::MAX,
    ;
}

/// Removing dust yields the local amount of the shared amount it keeps, and
/// never more than the amount given.
pub proof fn lemma_remove_dust_law(amount_ld: u64, rate: u64)
    requires
        rate > 0,
    ensures
        remove_dust_spec(amount_ld as int, rate as int).1 == sd_to_ld(
            remove_dust_spec(amount_ld as int, rate as int).0,
            rate as int,
        ),
        remove_dust_spec(amount_ld as int, rate as int).1 <= amount_ld,
{
    lemma_dust_bounded(amount_ld as int, rate as int);
}

/// Converting a shared amount to local decimals and back gives it back.
pub proof fn lemma_sd_ld_round_trip(amount_sd: u64, rate: u64)
    requires
        rate > 0,
    ensures
        ld_to_sd(sd_to_ld(amount_sd as int, rate as int), rate as int) == amount_sd,
{
    vstd::arithmetic::div_mod::lemma_div_multiples_vanish(amount_sd as int, rate as int);
    assert((rate as int) * (amount_sd as int) == (amount_sd as int) * (rate as int)) by (nonlinear_arith);
}

} // verus!
