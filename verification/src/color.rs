//! Colors of the rings and the byte order of the pixels handed to Windows.
use vstd::prelude::*;

verus! {

/// A color with straight (not premultiplied) 8-bit channels.
#[derive(Clone, Copy, Debug, PartialEq, Eq, Structural)]
pub struct Rgba {
    pub r: u8,
    pub g: u8,
    pub b: u8,
    pub a: u8,
}

#[verifier::external_type_specification]
#[verifier::external_body]
pub struct ExSkiaColor(tiny_skia::Color);

/// The color `tiny_skia::Color::from_rgba8` makes from four bytes.
pub uninterp spec fn skia_color_of(r: u8, g: u8, b: u8, a: u8) -> tiny_skia::Color;

/// Calls `tiny_skia::Color::from_rgba8`, which makes a color whose four
/// components are the given bytes divided by 255. The contract names the
/// result, a function of the four bytes alone, and says nothing more of it.
#[verifier::external_body]
fn color_from_rgba8(r: u8, g: u8, b: u8, a: u8) -> (c: tiny_skia::Color)
    ensures
        c == skia_color_of(r, g, b, a),
{
    tiny_skia::Color::from_rgba8(r, g, b, a)
}

impl Rgba {
    /// The color as the renderer takes it.
    pub fn to_skia(self) -> (c: tiny_skia::Color)
        ensures
            c == skia_color_of(self.r, self.g, self.b, self.a),
    {
        color_from_rgba8(self.r, self.g, self.b, self.a)
    }

    pub fn new(r: u8, g: u8, b: u8, a: u8) -> (c: Self)
        ensures
            c == (Rgba { r, g, b, a }),
    {
        Rgba { r, g, b, a }
    }

    /// The same color with another alpha.
    pub fn with_alpha(self, a: u8) -> (c: Self)
        ensures
            c == (Rgba { a, ..self }),
    {
        Rgba { a, ..self }
    }
}

/// The alpha of the arc that shows the used part of a limit.
pub const USED_ALPHA: u8 = 92;

/// A channel moved 74% of the way toward white, rounded to the nearest
/// integer with halves rounded up: `round(from + (255 - from) * 0.74)`.
pub open spec fn toward_white(from: u8) -> int {
    (100 * from + 74 * (255 - from) + 50) / 100
}

/// The channel of the used-part color: `toward_white`, computed in integers.
fn blend_toward_white(from: u8) -> (r: u8)
    ensures
        r == toward_white(from),
{
    let f = from as u32;
    ((100 * f + 74 * (255 - f) + 50) / 100) as u8
}

/// The color of the used part of a ring: the ring's color lightened 74% of
/// the way toward white, at a fixed low alpha.
pub fn used_color(color: Rgba) -> (c: Rgba)
    ensures
        c.r == toward_white(color.r),
        c.g == toward_white(color.g),
        c.b == toward_white(color.b),
        c.a == USED_ALPHA,
{
    Rgba::new(
        blend_toward_white(color.r),
        blend_toward_white(color.g),
        blend_toward_white(color.b),
        USED_ALPHA,
    )
}

/// The index, within `RGBA` order, of the byte that lands at `i` in `BGRA`
/// order: red and blue trade places, green and alpha stay.
pub open spec fn bgra_source_index(i: int) -> int {
    let base = i - i % 4;
    if i % 4 == 0 {
        base + 2
    } else if i % 4 == 2 {
        base
    } else {
        i
    }
}

/// The pixels of `rgba`, each in `BGRA` order; a trailing partial pixel is
/// dropped.
pub open spec fn bgra_order(rgba: Seq<u8>) -> Seq<u8> {
    Seq::new(((rgba.len() / 4) * 4) as nat, |i: int| rgba[bgra_source_index(i)])
}

/// Converts pixels from `RGBA` byte order to the `BGRA` order that Windows'
/// layered windows take. The channels are copied as they are: the renderer
/// already premultiplies them.
pub fn rgba_to_bgra_premul(data: &mut [u8]) -> (out: Vec<u8>)
    ensures
        final(data)@ == old(data)@,
        out@ == bgra_order(old(data)@),
{
    let n = data.len() / 4;
    let mut out: Vec<u8> = Vec::with_capacity(data.len());
    let mut c: usize = 0;
    while c < n
        invariant
            n == data@.len() / 4,
            0 <= c <= n,
            out@.len() == 4 * c,
            forall|i: int| 0 <= i < 4 * c ==> out@[i] == data@[bgra_source_index(i)],
        decreases n - c,
    {
        let base = 4 * c;
        out.push(data[base + 2]);
        out.push(data[base + 1]);
        out.push(data[base]);
        out.push(data[base + 3]);
        proof {
            assert forall|i: int| 4 * c <= i < 4 * c + 4 implies out@[i] == data@[bgra_source_index(
                i,
            )] by {
                assert(i % 4 == i - 4 * c);
                assert(i - i % 4 == 4 * c);
            }
        }
        c = c + 1;
    }
    assert(out@ =~= bgra_order(data@));
    out
}

/// Reordering twice gives back the whole pixels of the input.
pub proof fn law_bgra_order_involution(rgba: Seq<u8>)
    ensures
        bgra_order(bgra_order(rgba)) == rgba.take(((rgba.len() / 4) * 4) as int),
{
    let once = bgra_order(rgba);
    let n: int = ((rgba.len() / 4) * 4) as int;
    assert(once.len() == n);
    assert(n / 4 * 4 == n);
    assert forall|i: int| 0 <= i < n implies #[trigger] bgra_order(once)[i] == rgba[i] by {
        let j = bgra_source_index(i);
        assert(j - j % 4 == i - i % 4);
        assert(0 <= j < n);
    }
    assert(bgra_order(once) =~= rgba.take(n));
}

/// The used-part color never darkens a channel, and its alpha is fixed.
pub proof fn law_used_color_lightens(color: Rgba)
    ensures
        toward_white(color.r) >= color.r,
        toward_white(color.g) >= color.g,
        toward_white(color.b) >= color.b,
        toward_white(color.r) <= 255,
{
}

/// Setting the alpha twice keeps only the second, and leaves the color channels.
pub proof fn law_with_alpha_last_wins(color: Rgba, a1: u8, a2: u8)
    ensures
        (Rgba { a: a2, ..Rgba { a: a1, ..color } }) == (Rgba { a: a2, ..color }),
{
}

} // verus!
