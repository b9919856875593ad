//! UTF-16 text for the Windows API: NUL-terminated strings and fixed-size
//! buffers such as a notification icon's tip.
use vstd::prelude::*;

verus! {

/// The UTF-16 code units of one character: one unit in the Basic
/// Multilingual Plane, else a surrogate pair.
pub open spec fn utf16_units(c: char) -> Seq<u16> {
    let v = c as int;
    if v < 0x10000 {
        seq![v as u16]
    } else {
        let w = v - 0x10000;
        seq![(0xD800 + w / 0x400) as u16, (0xDC00 + w % 0x400) as u16]
    }
}

/// The UTF-16 encoding of a sequence of characters.
pub open spec fn utf16_encode(s: Seq<char>) -> Seq<u16>
    decreases s.len(),
{
    if s.len() == 0 {
        Seq::empty()
    } else {
        utf16_encode(s.drop_last()) + utf16_units(s.last())
    }
}

/// Appends the UTF-16 units of `c` to `out`.
fn push_utf16(out: &mut Vec<u16>, c: char)
    ensures
        final(out)@ == old(out)@ + utf16_units(c),
{
    let v = c as u32;
    if v < 0x10000 {
        out.push(v as u16);
    } else {
        let w = v - 0x10000;
        out.push((0xD800 + w / 0x400) as u16);
        out.push((0xDC00 + w % 0x400) as u16);
    }
    assert(out@ =~= old(out)@ + utf16_units(c));
}

/// The UTF-16 encoding of `text`.
pub fn encode_utf16(text: &str) -> (r: Vec<u16>)
    ensures
        r@ == utf16_encode(text@),
{
    let mut out: Vec<u16> = Vec::new();
    for c in it: text.chars()
        invariant
            out@ == utf16_encode(it.seq().take(it.index() as int)),
            it.seq() == text@,
    {
        let ghost before = it.seq().take(it.index() as int);
        push_utf16(&mut out, c);
        proof {
            let after = it.seq().take(it.index() + 1);
            assert(after.drop_last() =~= before);
            assert(after.last() == c);
        }
    }
    assert(text@.take(text@.len() as int) =~= text@);
    out
}

/// `text` in UTF-16 with a terminating NUL, as the Windows API takes strings.
pub fn to_wide(text: &str) -> (r: Vec<u16>)
    ensures
        r@ == utf16_encode(text@).push(0),
{
    let mut out = encode_utf16(text);
    out.push(0);
    out
}

/// The unit at `i` of a fixed buffer of `n` units that holds as much of
/// `units` as fits before a final NUL, and zeros after it.
pub open spec fn fixed_slot(units: Seq<u16>, n: int, i: int) -> u16 {
    if i + 1 < n && i < units.len() {
        units[i]
    } else {
        0
    }
}

/// Fills a fixed buffer with `text` in UTF-16: as many units as fit before a
/// final NUL, cut at the last whole unit, and zeros after them.
pub fn write_wide_fixed<const N: usize>(target: &mut [u16; N], text: &str)
    ensures
        forall|i: int|
            0 <= i < N ==> #[trigger] final(target)@[i] == fixed_slot(utf16_encode(text@), N as int, i),
{
    let units = encode_utf16(text);
    let mut i: usize = 0;
    while i < N
        invariant
            0 <= i <= N,
            units@ == utf16_encode(text@),
            target@.len() == N,
            forall|j: int| 0 <= j < i ==> #[trigger] target@[j] == fixed_slot(units@, N as int, j),
        decreases N - i,
    {
        let v = if i + 1 < N && i < units.len() {
            units[i]
        } else {
            0
        };
        target[i] = v;
        i = i + 1;
    }
}

/// A fixed buffer of at least one unit always ends in a NUL, so the text in
/// it is terminated whatever its length.
pub proof fn law_fixed_buffer_terminated(units: Seq<u16>, n: int)
    requires
        n >= 1,
    ensures
        fixed_slot(units, n, n - 1) == 0,
{
}

/// Text in the Basic Multilingual Plane takes one unit per character.
pub proof fn law_bmp_text_one_unit_per_char(s: Seq<char>)
    requires
        forall|i: int| 0 <= i < s.len() ==> (#[trigger] s[i] as int) < 0x10000,
    ensures
        utf16_encode(s).len() == s.len(),
        forall|i: int| 0 <= i < s.len() ==> #[trigger] utf16_encode(s)[i] == s[i] as u16,
    decreases s.len(),
{
    if s.len() > 0 {
        let init = s.drop_last();
        assert forall|i: int| 0 <= i < init.len() implies (#[trigger] init[i] as int) < 0x10000 by {
            assert(init[i] == s[i]);
        }
        law_bmp_text_one_unit_per_char(init);
        assert forall|i: int| 0 <= i < s.len() implies #[trigger] utf16_encode(s)[i] == s[i] as u16 by {
            if i < init.len() {
                assert(s[i] == init[i]);
            }
        }
    }
}

} // verus!
