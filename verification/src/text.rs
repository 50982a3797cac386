//! Text helpers: lossy decoding of UTF-16 code units.

use vstd::prelude::*;

verus! {

/// Whether `u` is the first (high) half of a UTF-16 surrogate pair.
pub open spec fn is_high_surrogate(u: u16) -> bool {
    0xD800 <= u <= 0xDBFF
}

/// Whether `u` is the second (low) half of a UTF-16 surrogate pair.
pub open spec fn is_low_surrogate(u: u16) -> bool {
    0xDC00 <= u <= 0xDFFF
}

/// The scalar value encoded by a high and a low surrogate.
pub open spec fn surrogate_pair_value(hi: u16, lo: u16) -> int {
    0x10000 + (hi - 0xD800) * 0x400 + (lo - 0xDC00)
}

/// Whether `v` is a Unicode scalar value (a value a `char` may hold).
pub open spec fn is_scalar_value(v: int) -> bool {
    (0 <= v < 0xD800) || (0xE000 <= v <= 0x10FFFF)
}

/// The replacement character U+FFFD.
pub open spec fn replacement_char() -> char {
    0xFFFDint as char
}

/// Lossy UTF-16 decoding: a surrogate pair becomes the scalar value it
/// encodes, every unpaired surrogate becomes U+FFFD, and any other code unit
/// is the character with that value.
pub open spec fn utf16_lossy(units: Seq<u16>) -> Seq<char>
    decreases units.len(),
{
    if units.len() == 0 {
        Seq::empty()
    } else if units.len() >= 2 && is_high_surrogate(units[0]) && is_low_surrogate(units[1]) {
        seq![surrogate_pair_value(units[0], units[1]) as char] + utf16_lossy(
            units.subrange(2, units.len() as int),
        )
    } else if is_high_surrogate(units[0]) || is_low_surrogate(units[0]) {
        seq![replacement_char()] + utf16_lossy(units.subrange(1, units.len() as int))
    } else {
        seq![units[0] as char] + utf16_lossy(units.subrange(1, units.len() as int))
    }
}

/// Text without surrogate code units decodes unit by unit: each unit
/// becomes the character with its value, so the text keeps its length.
pub proof fn utf16_lossy_without_surrogates(units: Seq<u16>)
    requires
        forall|i: int| 0 <= i < units.len() ==> !(0xD800 <= #[trigger] units[i] <= 0xDFFF),
    ensures
        utf16_lossy(units) == units.map_values(|u: u16| u as char),
        utf16_lossy(units).len() == units.len(),
    decreases units.len(),
{
    if units.len() > 0 {
        let rest = units.subrange(1, units.len() as int);
        assert forall|i: int| 0 <= i < rest.len() implies !(0xD800 <= #[trigger] rest[i] <= 0xDFFF) by {
            assert(rest[i] == units[i + 1]);
        }
        utf16_lossy_without_surrogates(rest);
        assert(units.map_values(|u: u16| u as char) =~= seq![units[0] as char] + rest.map_values(
            |u: u16| u as char,
        ));
    } else {
        assert(units.map_values(|u: u16| u as char) =~= Seq::<char>::empty());
    }
}

/// Appends `c` to `s` (std `String::push`).
#[verifier::external_body]
fn string_push(s: &mut String, c: char)
    ensures
        final(s)@ == old(s)@.push(c),
{
    s.push(c);
}

/// Converts a `u32` to the `char` with that value (std `char::from_u32`),
/// which is `None` exactly when the value is not a Unicode scalar value.
#[verifier::external_body]
fn char_from_u32(v: u32) -> (r: Option<char>)
    ensures
        is_scalar_value(v as int) ==> r == Some(v as char),
        !is_scalar_value(v as int) ==> r is None,
{
    char::from_u32(v)
}

/// Position of the first NUL code unit in `units`, or its length when it
/// holds none.
pub open spec fn nul_position(units: Seq<u16>) -> nat
    decreases units.len(),
{
    if units.len() == 0 {
        0
    } else if units[0] == 0 {
        0
    } else {
        1 + nul_position(units.subrange(1, units.len() as int))
    }
}

/// The NUL position is that of the first NUL: every unit before it is
/// non-zero, and it is either the end of the units or a NUL unit.
pub proof fn nul_position_is_first_nul(units: Seq<u16>)
    ensures
        nul_position(units) <= units.len(),
        forall|j: int| 0 <= j < nul_position(units) ==> units[j] != 0,
        nul_position(units) == units.len() || units[nul_position(units) as int] == 0,
    decreases units.len(),
{
    if units.len() > 0 && units[0] != 0 {
        let rest = units.subrange(1, units.len() as int);
        nul_position_is_first_nul(rest);
        assert forall|j: int| 0 <= j < nul_position(units) implies units[j] != 0 by {
            if j > 0 {
                assert(units[j] == rest[j - 1]);
            }
        }
        if nul_position(rest) < rest.len() {
            assert(units[nul_position(units) as int] == rest[nul_position(rest) as int]);
        }
    }
}

/// Decodes the first `len` units of `units` lossily, as
/// `String::from_utf16_lossy` does on `&units[..len]`.
pub fn decode_utf16_prefix(units: &[u16], len: usize) -> (s: String)
    requires
        len <= units@.len(),
    ensures
        s@ == utf16_lossy(units@.subrange(0, len as int)),
{
    let ghost whole = units@.subrange(0, len as int);
    let mut out = String::new();
    let n = len;
    let mut i: usize = 0;
    assert(whole.subrange(0, n as int) =~= whole);
    assert(out@ + utf16_lossy(whole) =~= utf16_lossy(whole));
    while i < n
        invariant
            n == whole.len(),
            n <= units@.len(),
            whole == units@.subrange(0, n as int),
            i <= n,
            out@ + utf16_lossy(whole.subrange(i as int, n as int)) == utf16_lossy(whole),
        decreases n - i,
    {
        let ghost rest = whole.subrange(i as int, n as int);
        let ghost before = out@;
        let u = units[i];
        if 0xD800 <= u && u <= 0xDBFF && i + 1 < n && 0xDC00 <= units[i + 1] && units[i + 1]
            <= 0xDFFF {
            let lo = units[i + 1];
            let v: u32 = 0x10000 + ((u - 0xD800) as u32) * 0x400 + ((lo - 0xDC00) as u32);
            assert(v as int == surrogate_pair_value(rest[0], rest[1]));
            match char_from_u32(v) {
                Some(c) => string_push(&mut out, c),
                None => string_push(&mut out, '\u{FFFD}'),
            }
            assert(rest.subrange(2, rest.len() as int) =~= whole.subrange(i + 2, n as int));
            assert(out@ =~= before + seq![surrogate_pair_value(rest[0], rest[1]) as char]);
            i = i + 2;
        } else if 0xD800 <= u && u <= 0xDFFF {
            string_push(&mut out, '\u{FFFD}');
            assert(rest.subrange(1, rest.len() as int) =~= whole.subrange(i + 1, n as int));
            assert(out@ =~= before + seq![replacement_char()]);
            i = i + 1;
        } else {
            match char_from_u32(u as u32) {
                Some(c) => string_push(&mut out, c),
                None => string_push(&mut out, '\u{FFFD}'),
            }
            assert(rest.subrange(1, rest.len() as int) =~= whole.subrange(i + 1, n as int));
            assert(out@ =~= before + seq![rest[0] as char]);
            i = i + 1;
        }
    }
    assert(whole.subrange(n as int, n as int) =~= Seq::<u16>::empty());
    out
}

/// Decodes all of `units` lossily, as `String::from_utf16_lossy` does.
pub fn decode_utf16_lossy(units: &[u16]) -> (s: String)
    ensures
        s@ == utf16_lossy(units@),
{
    let s = decode_utf16_prefix(units, units.len());
    assert(units@.subrange(0, units@.len() as int) =~= units@);
    s
}

/// Index of the first NUL unit of `units`, or its length when it has none.
pub fn find_nul(units: &[u16]) -> (k: usize)
    ensures
        k == nul_position(units@),
        k <= units@.len(),
        forall|j: int| 0 <= j < k ==> units@[j] != 0,
        k == units@.len() || units@[k as int] == 0,
{
    let n = units.len();
    let mut i: usize = 0;
    assert(units@.subrange(0, n as int) =~= units@);
    while i < n && units[i] != 0
        invariant
            n == units@.len(),
            i <= n,
            nul_position(units@) == i + nul_position(units@.subrange(i as int, n as int)),
            forall|j: int| 0 <= j < i ==> units@[j] != 0,
        decreases n - i,
    {
        assert(units@.subrange(i as int, n as int).subrange(1, n - i) =~= units@.subrange(
            i + 1,
            n as int,
        ));
        i = i + 1;
    }
    i
}

/// Decodes a NUL-terminated wide string: the units before the first NUL,
/// or all units when there is none.
pub fn decode_wide_c_string(units: &[u16]) -> (s: String)
    ensures
        s@ == utf16_lossy(units@.subrange(0, nul_position(units@) as int)),
{
    let k = find_nul(units);
    decode_utf16_prefix(units, k)
}

} // verus!
