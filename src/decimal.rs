//! Fixed-point amounts with 18 decimal places, held by their scaled value, and the oracle
//! price feed that yields them.
//!
//! Arithmetic on these values is done by the lending service's own `Decimal` type, which
//! computes in 192 bits; the chamber holds each result as a `u128` scaled value and reports
//! a result that does not fit one as an overflow.

use tulipv2_sdk_common::math::common::{TryAdd, TryDiv, TryMul};
use tulipv2_sdk_common::math::decimal::Decimal;
use tulipv2_sdk_common::pyth;
use vstd::prelude::*;

verus! {

/// The scaled value of one: 10^18.
pub open spec fn wad() -> int {
    1_000_000_000_000_000_000
}

/// Size of a price feed record; shorter data holds no price.
pub const PRICE_ACCOUNT_LEN: usize = 3312;

/// An integer as a `u128`, or `None` where it does not fit one.
pub open spec fn as_u128(x: int) -> Option<u128> {
    if 0 <= x <= u128::MAX {
        Some(x as u128)
    } else {
        None
    }
}

/// Relies on `Decimal::try_mul` by a `u64` and `Decimal::to_scaled_val` of tulipv2-sdk-common:
/// the scaled value times the integer, `None` where it leaves 192 bits or, once back, 128 bits.
#[verifier::external_body]
pub(crate) fn wad_mul_int(a: u128, b: u64) -> (r: Option<u128>)
    ensures
        r == as_u128(a * b),
{
    Decimal::from_scaled_val(a).try_mul(b).and_then(|d| d.to_scaled_val()).ok()
}

/// Relies on `Decimal::try_div` by a `u64` of tulipv2-sdk-common: the scaled value divided
/// by the integer, rounded down, `None` on a zero divisor.
#[verifier::external_body]
pub(crate) fn wad_div_int(a: u128, b: u64) -> (r: Option<u128>)
    ensures
        r == (if b == 0 { None } else { Some((a as int / b as int) as u128) }),
{
    Decimal::from_scaled_val(a).try_div(b).and_then(|d| d.to_scaled_val()).ok()
}

/// Relies on `Decimal::try_add` of tulipv2-sdk-common: the sum of the scaled values.
#[verifier::external_body]
pub(crate) fn wad_add(a: u128, b: u128) -> (r: Option<u128>)
    ensures
        r == as_u128(a + b),
{
    Decimal::from_scaled_val(a).try_add(Decimal::from_scaled_val(b)).and_then(|d| d.to_scaled_val()).ok()
}

/// Relies on `Decimal::try_div` by a `Decimal` of tulipv2-sdk-common: the quotient of two
/// decimals, that is `a * 10^18 / b` on scaled values, rounded down, `None` on a zero divisor.
#[verifier::external_body]
pub(crate) fn wad_div(a: u128, b: u128) -> (r: Option<u128>)
    ensures
        r == (if b == 0 { None } else { as_u128(a as int * wad() / b as int) }),
{
    Decimal::from_scaled_val(a).try_div(Decimal::from_scaled_val(b)).and_then(|d| d.to_scaled_val()).ok()
}

/// Relies on `Decimal::try_floor_u64` of tulipv2-sdk-common: the decimal rounded down to an
/// integer, `None` where that does not fit a `u64`.
#[verifier::external_body]
pub(crate) fn wad_floor(a: u128) -> (r: Option<u64>)
    ensures
        r == (if a as int / wad() <= u64::MAX { Some((a as int / wad()) as u64) } else { None::<u64> }),
{
    Decimal::from_scaled_val(a).try_floor_u64().ok()
}

/// Offset of the record's price type (a `u32`; 1 is a price).
pub const PRICE_TYPE_OFFSET: usize = 16;

/// Offset of the record's decimal exponent (an `i32`).
pub const EXPONENT_OFFSET: usize = 20;

/// Offset of the aggregate price (an `i64`).
pub const AGGREGATE_PRICE_OFFSET: usize = 208;

/// Offset of the aggregate price's status, followed by its corporate action.
pub const AGGREGATE_STATUS_OFFSET: usize = 224;

/// Offset of the first of the record's per-publisher components.
pub const COMPONENTS_OFFSET: usize = 240;

/// Size of one per-publisher component.
pub const COMPONENT_LEN: usize = 96;

/// Number of per-publisher components.
pub const COMPONENT_COUNT: usize = 32;

/// The little-endian `u32` at `off`.
pub open spec fn u32_at(data: Seq<u8>, off: int) -> int {
    data[off] + 256 * data[off + 1] + 65536 * data[off + 2] + 16777216 * data[off + 3]
}

/// The little-endian `i32` at `off`.
pub open spec fn i32_at(data: Seq<u8>, off: int) -> int {
    let u = u32_at(data, off);
    if u >= 0x8000_0000 {
        u - 0x1_0000_0000
    } else {
        u
    }
}

/// The little-endian `i64` at `off`.
pub open spec fn i64_at(data: Seq<u8>, off: int) -> int {
    let u = u32_at(data, off) + 0x1_0000_0000 * u32_at(data, off + 4);
    if u >= 0x8000_0000_0000_0000 {
        u - 0x1_0000_0000_0000_0000
    } else {
        u
    }
}

pub open spec fn abs(x: int) -> int {
    if x < 0 {
        -x
    } else {
        x
    }
}

/// Ten to the `n`.
pub open spec fn pow10(n: nat) -> nat
    decreases n,
{
    if n == 0 {
        1
    } else {
        10 * pow10((n - 1) as nat)
    }
}

/// Whether the `u32` at `off` is below `bound`, byte by byte.
pub open spec fn small_u32_at(data: Seq<u8>, off: int, bound: u8) -> bool {
    data[off] < bound && data[off + 1] == 0 && data[off + 2] == 0 && data[off + 3] == 0
}

/// Whether a price info block at `off` holds a known status (below 4) and corporate action
/// (only 0).
pub open spec fn price_info_valid(data: Seq<u8>, off: int) -> bool {
    small_u32_at(data, off + 16, 4) && small_u32_at(data, off + 20, 1)
}

/// Whether a per-publisher component holds known enumeration values in both its blocks.
pub open spec fn component_valid(data: Seq<u8>, i: int) -> bool {
    let off = COMPONENTS_OFFSET + COMPONENT_LEN * i;
    price_info_valid(data, off + 32) && price_info_valid(data, off + 64)
}

/// Whether every enumeration field of a record holds one of its variants: the price type,
/// and the status and corporate action of each price info block.
pub open spec fn feed_enums_valid(data: Seq<u8>) -> bool {
    &&& small_u32_at(data, PRICE_TYPE_OFFSET as int, 4)
    &&& price_info_valid(data, (AGGREGATE_STATUS_OFFSET - 16) as int)
    &&& forall|i: int| 0 <= i < COMPONENT_COUNT ==> #[trigger] component_valid(data, i)
}

/// The price that a record holds, as a scaled decimal: the absolute aggregate price over ten
/// to the absolute exponent. There is none where the record is not a price, or the price or
/// exponent is the least value of its type, or the exponent's power of ten leaves a `u64`.
pub open spec fn feed_price(data: Seq<u8>) -> Option<u128> {
    let price = i64_at(data, AGGREGATE_PRICE_OFFSET as int);
    let expo = i32_at(data, EXPONENT_OFFSET as int);
    if u32_at(data, PRICE_TYPE_OFFSET as int) != 1 {
        None
    } else if price == i64::MIN || expo == i32::MIN || abs(expo) > 19 {
        None
    } else {
        Some((abs(price) * wad() / (pow10(abs(expo) as nat) as int)) as u128)
    }
}

/// Relies on `pyth::load_pyth_price` of tulipv2-sdk-common, with `Decimal::to_scaled_val`:
/// it checks the price type, takes the absolute price and exponent, and divides the price,
/// as a decimal, by ten to the exponent. It slices the record off the front of the data and
/// reinterprets it in place, which needs the record's size and 8-byte alignment, so the
/// bytes are first copied into aligned storage; and it reads enumeration fields from raw
/// bytes, which must each hold one of their variants.
#[verifier::external_body]
fn load_price(data: &Vec<u8>) -> (r: Option<u128>)
    requires
        data@.len() >= PRICE_ACCOUNT_LEN,
        feed_enums_valid(data@),
    ensures
        r == feed_price(data@),
{
    let mut aligned: Vec<u64> = vec![0u64; PRICE_ACCOUNT_LEN / 8];
    bytemuck::cast_slice_mut::<u64, u8>(&mut aligned).copy_from_slice(&data.as_slice()[..PRICE_ACCOUNT_LEN]);
    pyth::load_pyth_price(bytemuck::cast_slice::<u64, u8>(&aligned)).and_then(|d| d.to_scaled_val()).ok()
}

/// The price held by feed data of any length: none where it is shorter than a record or an
/// enumeration field holds an unknown value.
pub open spec fn price_of_feed(data: Seq<u8>) -> Option<u128> {
    if data.len() >= PRICE_ACCOUNT_LEN && feed_enums_valid(data) {
        feed_price(data)
    } else {
        None
    }
}

/// Whether the `u32` at `off` is below `bound`.
fn small_u32(data: &Vec<u8>, off: usize, bound: u8) -> (r: bool)
    requires
        off + 4 <= PRICE_ACCOUNT_LEN <= data@.len(),
    ensures
        r == small_u32_at(data@, off as int, bound),
{
    data[off] < bound && data[off + 1] == 0 && data[off + 2] == 0 && data[off + 3] == 0
}

/// Whether a price info block holds a known status and corporate action.
fn price_info_ok(data: &Vec<u8>, off: usize) -> (r: bool)
    requires
        off + 24 <= PRICE_ACCOUNT_LEN <= data@.len(),
    ensures
        r == price_info_valid(data@, off as int),
{
    small_u32(data, off + 16, 4) && small_u32(data, off + 20, 1)
}

/// Whether every enumeration field of a record holds one of its variants.
fn feed_enums_ok(data: &Vec<u8>) -> (r: bool)
    requires
        data@.len() >= PRICE_ACCOUNT_LEN,
    ensures
        r == feed_enums_valid(data@),
{
    if !small_u32(data, PRICE_TYPE_OFFSET, 4) || !price_info_ok(data, AGGREGATE_STATUS_OFFSET - 16) {
        return false;
    }
    let mut i: usize = 0;
    while i < COMPONENT_COUNT
        invariant
            i <= COMPONENT_COUNT,
            data@.len() >= PRICE_ACCOUNT_LEN,
            forall|j: int| 0 <= j < i ==> #[trigger] component_valid(data@, j),
        decreases COMPONENT_COUNT - i,
    {
        let off = COMPONENTS_OFFSET + COMPONENT_LEN * i;
        if !price_info_ok(data, off + 32) || !price_info_ok(data, off + 64) {
            assert(!component_valid(data@, i as int));
            return false;
        }
        assert(component_valid(data@, i as int));
        i = i + 1;
    }
    true
}

/// Reads the price of a price feed record.
pub fn read_price(data: &Vec<u8>) -> (r: Option<u128>)
    ensures
        r == price_of_feed(data@),
{
    if data.len() < PRICE_ACCOUNT_LEN || !feed_enums_ok(data) {
        return None;
    }
    load_price(data)
}

} // verus!
