//! Shared decoding machinery for pool responses: big-endian byte reading
//! and the plausibility-window search over candidate price ratios that the
//! constant-product family of protocols uses.
use crate::types::PriceError;
use crate::wide::Wide;
use crate::wide::lemma_wval_range;
use crate::wide::p128;
use crate::wide::p256;
use crate::wide::p320;
use crate::wide::wval;
use vstd::arithmetic::mul::lemma_mul_is_commutative;
use vstd::arithmetic::mul::lemma_mul_strict_inequality;
use vstd::prelude::*;

verus! {

/// The unsigned integer a big-endian byte string denotes.
pub open spec fn spec_be_val(s: Seq<u8>) -> int
    decreases s.len(),
{
    if s.len() == 0 {
        0
    } else {
        spec_be_val(s.drop_last()) * 256 + s.last()
    }
}

/// 256^k for the byte counts that a single 128-bit read can cover.
pub open spec fn pow256(k: int) -> int {
    if k <= 0 {
        1
    } else if k == 1 {
        0x100
    } else if k == 2 {
        0x1_0000
    } else if k == 3 {
        0x100_0000
    } else if k == 4 {
        0x1_0000_0000
    } else if k == 5 {
        0x100_0000_0000
    } else if k == 6 {
        0x1_0000_0000_0000
    } else if k == 7 {
        0x100_0000_0000_0000
    } else if k == 8 {
        0x1_0000_0000_0000_0000
    } else if k == 9 {
        0x100_0000_0000_0000_0000
    } else if k == 10 {
        0x1_0000_0000_0000_0000_0000
    } else if k == 11 {
        0x100_0000_0000_0000_0000_0000
    } else if k == 12 {
        0x1_0000_0000_0000_0000_0000_0000
    } else if k == 13 {
        0x100_0000_0000_0000_0000_0000_0000
    } else if k == 14 {
        0x1_0000_0000_0000_0000_0000_0000_0000
    } else if k == 15 {
        0x100_0000_0000_0000_0000_0000_0000_0000
    } else {
        0x1_0000_0000_0000_0000int * 0x1_0000_0000_0000_0000
    }
}

/// A big-endian byte string of at most sixteen bytes stays below 256^len.
proof fn lemma_be_val_bound(s: Seq<u8>)
    requires
        s.len() <= 16,
    ensures
        0 <= spec_be_val(s) < pow256(s.len() as int),
    decreases s.len(),
{
    if s.len() > 0 {
        lemma_be_val_bound(s.drop_last());
    }
}

/// Splitting a byte string at sixteen bytes from its end splits its value
/// into a high and a low half.
proof fn lemma_be_val_split(s: Seq<u8>, at: int)
    requires
        0 <= at <= s.len(),
        s.len() - at <= 16,
    ensures
        spec_be_val(s) == spec_be_val(s.subrange(0, at)) * pow256(s.len() - at) + spec_be_val(
            s.subrange(at, s.len() as int),
        ),
    decreases s.len() - at,
{
    if s.len() == at {
        assert(s.subrange(0, at) =~= s);
    } else {
        let init = s.drop_last();
        lemma_be_val_split(init, at);
        assert(init.subrange(0, at) =~= s.subrange(0, at));
        assert(init.subrange(at, init.len() as int) =~= s.subrange(at, s.len() as int).drop_last());
        let hi = spec_be_val(s.subrange(0, at));
        let lo_init = spec_be_val(s.subrange(at, s.len() as int).drop_last());
        let k = s.len() - at;
        assert(spec_be_val(s) == (hi * pow256(k - 1) + lo_init) * 256 + s.last());
        assert((hi * pow256(k - 1)) * 256 == hi * pow256(k)) by (nonlinear_arith)
            requires
                pow256(k - 1) * 256 == pow256(k),
        ;
    }
}

/// Reads sixteen bytes at `start` as a big-endian 128-bit integer.
fn read_u128_be(data: &Vec<u8>, start: usize) -> (r: u128)
    requires
        start + 16 <= data@.len(),
    ensures
        r == spec_be_val(data@.subrange(start as int, start + 16)),
{
    let n = data.len();
    let mut acc: u128 = 0;
    let mut k: usize = 0;
    while k < 16
        invariant
            k <= 16,
            n == data@.len(),
            start + 16 <= n,
            acc == spec_be_val(data@.subrange(start as int, start + k)),
            acc < pow256(k as int),
        decreases 16 - k,
    {
        proof {
            let cur = data@.subrange(start as int, start + k + 1);
            assert(cur.drop_last() =~= data@.subrange(start as int, start + k));
        }
        acc = acc * 256 + (data[start + k] as u128);
        k = k + 1;
    }
    proof {
        assert(data@.subrange(start as int, start + 16) =~= data@.subrange(
            start as int,
            start + 16,
        ));
    }
    acc
}

/// Reads thirty-two bytes at `start` as a big-endian 256-bit integer.
pub fn read_u256_be(data: &Vec<u8>, start: usize) -> (r: Wide)
    requires
        start + 32 <= data@.len(),
    ensures
        wval(r) == spec_be_val(data@.subrange(start as int, start + 32)),
        wval(r) < p256(),
{
    let n = data.len();
    let hi = read_u128_be(data, start);
    let lo = read_u128_be(data, start + 16);
    let r = Wide::from_u128_pair(hi, lo);
    proof {
        let whole = data@.subrange(start as int, start + 32);
        lemma_be_val_split(whole, 16);
        assert(whole.subrange(0, 16) =~= data@.subrange(start as int, start + 16));
        assert(whole.subrange(16, 32) =~= data@.subrange(start + 16, start + 32));
        lemma_be_val_bound(whole.subrange(0, 16));
        lemma_be_val_bound(whole.subrange(16, 32));
        assert(hi * p128() + lo < p256());
    }
    r
}

/// Whether `num / den` lies strictly inside the window `(lo, hi)`, stated
/// without division.
pub open spec fn spec_in_window(num: int, den: int, lo: int, hi: int) -> bool {
    lo * den < num && num < hi * den
}

/// Window test on `Wide` values. A product that overflows the width is
/// larger than any representable numerator.
fn in_window(num: &Wide, den: &Wide, lo: u64, hi: u64) -> (r: bool)
    ensures
        r == spec_in_window(wval(*num), wval(*den), lo as int, hi as int),
{
    proof {
        lemma_wval_range(*num);
        lemma_mul_is_commutative(lo as int, wval(*den));
        lemma_mul_is_commutative(hi as int, wval(*den));
    }
    let below = match den.mul_u64(lo) {
        Some(ld) => ld.lt(num),
        None => false,
    };
    let above = match den.mul_u64(hi) {
        Some(hd) => num.lt(&hd),
        None => true,
    };
    below && above
}

/// The first of the four candidate ratios that lies inside the window
/// `(lo, hi)`, as a `(numerator, denominator)` pair. The candidates are the
/// two reserve ratios with a 10^12 decimal adjustment either way, then the
/// two plain ratios, in that order.
pub open spec fn spec_first_window(r0: int, r1: int, lo: int, hi: int) -> Option<(int, int)> {
    let s0 = r0 * 1000000000000;
    if spec_in_window(s0, r1, lo, hi) {
        Some((s0, r1))
    } else if spec_in_window(r1, s0, lo, hi) {
        Some((r1, s0))
    } else if spec_in_window(r0, r1, lo, hi) {
        Some((r0, r1))
    } else if spec_in_window(r1, r0, lo, hi) {
        Some((r1, r0))
    } else {
        None
    }
}

/// Finds the first candidate ratio inside the window, with the bounds the
/// division step needs.
pub fn first_window(r0: &Wide, r1: &Wide, lo: u64, hi: u64) -> (r: Option<(Wide, Wide)>)
    requires
        0 < wval(*r0) < p256(),
        0 < wval(*r1) < p256(),
    ensures
        match r {
            Some(nd) => {
                &&& spec_first_window(wval(*r0), wval(*r1), lo as int, hi as int) == Some(
                    (wval(nd.0), wval(nd.1)),
                )
                &&& spec_in_window(wval(nd.0), wval(nd.1), lo as int, hi as int)
                &&& 0 < wval(nd.1)
                &&& wval(nd.0) < p320()
            },
            None => spec_first_window(wval(*r0), wval(*r1), lo as int, hi as int) is None,
        },
{
    proof {
        lemma_mul_strict_inequality(wval(*r0), p256(), 1000000000000);
    }
    let s0 = r0.mul_u64(1_000_000_000_000).unwrap();
    if in_window(&s0, r1, lo, hi) {
        Some((s0, *r1))
    } else if in_window(r1, &s0, lo, hi) {
        Some((*r1, s0))
    } else if in_window(r0, r1, lo, hi) {
        Some((*r0, *r1))
    } else if in_window(r1, r0, lo, hi) {
        Some((*r1, *r0))
    } else {
        None
    }
}

/// The constant-product decode shared by the standard pools: reject short
/// or empty-reserve data, then accept the first candidate ratio inside the
/// exclusive window `(1000, 20000)` and return it in micro-units.
pub open spec fn spec_reserves_price(data: Seq<u8>) -> Result<u64, PriceError> {
    if data.len() < 96 {
        Err(PriceError::MalformedData)
    } else {
        let r0 = spec_be_val(data.subrange(0, 32));
        let r1 = spec_be_val(data.subrange(32, 64));
        if r0 == 0 || r1 == 0 {
            Err(PriceError::MalformedData)
        } else {
            match spec_first_window(r0, r1, 1000, 20000) {
                Some(nd) => Ok(((nd.0 * 1000000) / nd.1) as u64),
                None => Err(PriceError::OutOfRange),
            }
        }
    }
}

/// Decodes a `getReserves()` response into a micro-unit price.
pub fn parse_reserves_price(data: &Vec<u8>) -> (r: Result<u64, PriceError>)
    ensures
        r == spec_reserves_price(data@),
{
    if data.len() < 96 {
        return Err(PriceError::MalformedData);
    }
    let r0 = read_u256_be(data, 0);
    let r1 = read_u256_be(data, 32);
    if r0.is_zero() || r1.is_zero() {
        return Err(PriceError::MalformedData);
    }
    match first_window(&r0, &r1, 1000, 20000) {
        Some((num, den)) => {
            proof {
                lemma_mul_strict_inequality(wval(num), p320(), 1000000);
                crate::wide::lemma_scale_strict(wval(num), wval(den), 20000, 1000000);
            }
            let nm = num.mul_u64(1_000_000).unwrap();
            let q = crate::wide::div_floor_bounded(&nm, &den, 20_000_000_000);
            Ok(q)
        },
        None => Err(PriceError::OutOfRange),
    }
}

} // verus!
