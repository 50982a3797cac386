//! The memory figures of the system report, as human-readable sizes.

use vstd::prelude::*;

verus! {

/// The decimal digit character for `d` (`0 <= d < 10`).
pub open spec fn digit_char(d: nat) -> char {
    (48 + d) as char
}

/// The decimal notation of `n`, without leading zeros.
pub open spec fn decimal(n: nat) -> Seq<char>
    decreases n,
{
    if n < 10 {
        seq![digit_char(n)]
    } else {
        decimal(n / 10).push(digit_char(n % 10))
    }
}

/// The size in bytes of the `e`-th binary unit (kiB, MiB, ... EiB), that
/// is 1024 to the power `e`, for `1 <= e <= 6`.
pub open spec fn binary_unit(e: int) -> int {
    if e == 1 {
        1024
    } else if e == 2 {
        1048576
    } else if e == 3 {
        1073741824
    } else if e == 4 {
        1099511627776
    } else if e == 5 {
        1125899906842624
    } else {
        1152921504606846976
    }
}

/// The letter of the `e`-th binary unit, from "kMGTPE".
pub open spec fn unit_letter(e: int) -> char {
    if e == 1 {
        'k'
    } else if e == 2 {
        'M'
    } else if e == 3 {
        'G'
    } else if e == 4 {
        'T'
    } else if e == 5 {
        'P'
    } else {
        'E'
    }
}

/// The text "q.d XiB" with `X` the letter of the `e`-th unit.
pub open spec fn scaled_text(q: nat, d: nat, e: int) -> Seq<char> {
    decimal(q) + "."@ + seq![digit_char(d)] + " "@ + seq![unit_letter(e)] + "iB"@
}

/// Whether `q.d` units of size 1024^`e` lie within one tenth of a unit of
/// `bytes`: |(10q + d) * 1024^e - 10 * bytes| <= 1024^e.
pub open spec fn approximates(bytes: u64, q: nat, d: nat, e: int) -> bool {
    let scaled = (10 * q + d) * binary_unit(e);
    -binary_unit(e) <= scaled - 10 * bytes <= binary_unit(e)
}

/// 1000 to the power `e`, for `1 <= e <= 7`.
pub open spec fn power1000(e: int) -> int {
    if e == 1 {
        1000
    } else if e == 2 {
        1000000
    } else if e == 3 {
        1000000000
    } else if e == 4 {
        1000000000000
    } else if e == 5 {
        1000000000000000
    } else if e == 6 {
        1000000000000000000
    } else {
        1000000000000000000000
    }
}

/// Whether `e` is the unit that `bytesize` picks for `bytes`: the exponent
/// of the largest power of 1000 not above `bytes` (never below 1), up to a
/// thousandth either side of each power of 1000.
pub open spec fn unit_fits(bytes: u64, e: int) -> bool {
    &&& e == 1 || 1000 * bytes >= 999 * power1000(e)
    &&& e == 6 || 1000 * bytes <= 1001 * power1000(e + 1)
}

/// What the source of `bytesize` shows of the text for `bytes`: the plain
/// number and " B" under 1024 bytes; otherwise the figure in the binary
/// unit 1024^e whose exponent `e` (1 to 6) is that of the largest power of
/// 1000 not above the figure, written with one decimal place, a space, the
/// unit's letter and "iB", the number within a tenth of a unit of the
/// figure.
pub open spec fn is_size_text(bytes: u64, s: Seq<char>) -> bool {
    &&& bytes < 1024 ==> s == decimal(bytes as nat) + " B"@
    &&& bytes >= 1024 ==> exists|q: nat, d: nat, e: int|
        1 <= e <= 6 && d < 10 && unit_fits(bytes, e) && approximates(bytes, q, d, e) && s
            == #[trigger] scaled_text(
            q,
            d,
            e,
        )
}

/// `bytesize::ByteSize(bytes).to_string_as(true)`. Its source writes sizes
/// under 1024 bytes as the decimal number and " B". Larger ones it writes as
/// `bytes as f64` divided by 1024^e, with `{:.1}`, then a space, the letter
/// `"kMGTPE"[e - 1]` and "iB". It takes `e` as `(ln(bytes) / 6.907755279)`
/// truncated (1 when that is 0); 6.907755279 is ln 1000, so `e` is the
/// exponent of the largest power of 1000 not above the figure, save for
/// the rounding of the logarithm, which std leaves open and which can move
/// the switch only by far less than the thousandth stated here. The
/// division by a power of two is exact, and `bytes as f64` is off by at
/// most 1024 (only for figures of 2^53 bytes or more, where `e` is at least
/// 5), so the printed number lies within a tenth of a unit of the figure.
/// Which `e` within a thousandth of a power of 1000, and which last digit at
/// a rounding tie, is not stated.
#[verifier::external_body]
fn byte_size_binary(bytes: u64) -> (s: String)
    ensures
        is_size_text(bytes, s@),
{
    bytesize::ByteSize(bytes).to_string_as(true)
}

/// A size text for 1024 bytes or more never reads "0.0" or less than 0.8 of
/// its unit, nor 1000 or more: the unit fits the figure.
pub proof fn size_figure_in_range(bytes: u64, q: nat, d: nat, e: int)
    requires
        bytes >= 1024,
        1 <= e <= 6,
        d < 10,
        unit_fits(bytes, e),
        approximates(bytes, q, d, e),
    ensures
        8 <= 10 * q + d < 10000,
{
    let t = 10 * q + d;
    if e == 1 {
        assert(t * 1024 == 1024 * t);
    } else if e == 2 {
        assert(t * 1048576 == 1048576 * t);
    } else if e == 3 {
        assert(t * 1073741824 == 1073741824 * t);
    } else if e == 4 {
        assert(t * 1099511627776 == 1099511627776 * t);
    } else if e == 5 {
        assert(t * 1125899906842624 == 1125899906842624 * t);
    } else {
        assert(t * 1152921504606846976 == 1152921504606846976 * t);
    }
}

/// The memory and swap figures of the system, in bytes.
#[derive(Clone, Copy, Debug, PartialEq, Eq)]
pub struct MemoryFigures {
    pub total_memory: u64,
    pub used_memory: u64,
    pub available_memory: u64,
    pub total_swap: u64,
    pub used_swap: u64,
}

/// The same figures written as sizes.
#[derive(Debug)]
pub struct MemoryReport {
    pub total_memory: String,
    pub used_memory: String,
    pub available_memory: String,
    pub total_swap: String,
    pub used_swap: String,
}

/// Writes each figure as `bytesize` does with binary units.
pub fn memory_report(figures: &MemoryFigures) -> (r: MemoryReport)
    ensures
        is_size_text(figures.total_memory, r.total_memory@),
        is_size_text(figures.used_memory, r.used_memory@),
        is_size_text(figures.available_memory, r.available_memory@),
        is_size_text(figures.total_swap, r.total_swap@),
        is_size_text(figures.used_swap, r.used_swap@),
{
    MemoryReport {
        total_memory: byte_size_binary(figures.total_memory),
        used_memory: byte_size_binary(figures.used_memory),
        available_memory: byte_size_binary(figures.available_memory),
        total_swap: byte_size_binary(figures.total_swap),
        used_swap: byte_size_binary(figures.used_swap),
    }
}

} // verus!
