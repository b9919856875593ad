//! Drawing the text of a percentage label into the ring image.
//!
//! The text is rendered by Windows into a coverage mask: 4 bytes a pixel, the
//! coverage being the largest of the first three. The mask is blended into
//! the image, whose pixels are 4 bytes in `RGBA` order with premultiplied
//! alpha, row after row.
use vstd::prelude::*;
use vstd::arithmetic::div_mod::{lemma_fundamental_div_mod, lemma_fundamental_div_mod_converse};
use crate::color::Rgba;

verus! {

pub open spec fn max3(a: u8, b: u8, c: u8) -> int {
    if a >= b && a >= c {
        a as int
    } else if b >= c {
        b as int
    } else {
        c as int
    }
}

/// Where the mask's pixel at column `x`, row `y` starts.
pub open spec fn mask_index(mask_width: int, x: int, y: int) -> int {
    (y * mask_width + x) * 4
}

/// How much of the mask's pixel at `x`, `y` the text covers, 0 to 255.
pub open spec fn coverage(mask: Seq<u8>, mask_width: int, x: int, y: int) -> int {
    let k = mask_index(mask_width, x, y);
    max3(mask[k], mask[k + 1], mask[k + 2])
}

/// The opacity of the text over a pixel: the coverage times the color's
/// alpha, rounded.
pub open spec fn source_alpha(cov: int, alpha: u8) -> int {
    (cov * alpha + 127) / 255
}

/// A color channel of the text over a destination channel.
pub open spec fn over_channel(src: u8, sa: int, dst: u8) -> int {
    (src * sa + dst * (255 - sa)) / 255
}

/// The alpha of the text over a destination alpha.
pub open spec fn over_alpha(sa: int, dst: u8) -> int {
    sa + dst * (255 - sa) / 255
}

/// The image column of byte `i` in an image `pw` pixels wide.
pub open spec fn pixel_col(i: int, pw: int) -> int {
    (i / 4) % pw
}

/// The image row of byte `i` in an image `pw` pixels wide.
pub open spec fn pixel_row(i: int, pw: int) -> int {
    (i / 4) / pw
}

/// Byte `i` of the image lies under the mask placed at `dx`, `dy`.
pub open spec fn under_mask(i: int, pw: int, mw: int, mh: int, dx: int, dy: int) -> bool {
    &&& 0 <= pixel_col(i, pw) - dx < mw
    &&& 0 <= pixel_row(i, pw) - dy < mh
}

/// Byte `i` of the image after blending: under the mask, where the text
/// covers the pixel and its opacity is not zero, the text's color over the
/// old byte; the old byte everywhere else.
pub open spec fn blended_byte(
    old: Seq<u8>,
    pw: int,
    mask: Seq<u8>,
    mw: int,
    mh: int,
    dx: int,
    dy: int,
    color: Rgba,
    i: int,
) -> u8 {
    if under_mask(i, pw, mw, mh, dx, dy) {
        let cov = coverage(mask, mw, pixel_col(i, pw) - dx, pixel_row(i, pw) - dy);
        let sa = source_alpha(cov, color.a);
        if cov == 0 || sa == 0 {
            old[i]
        } else if i % 4 == 0 {
            over_channel(color.r, sa, old[i]) as u8
        } else if i % 4 == 1 {
            over_channel(color.g, sa, old[i]) as u8
        } else if i % 4 == 2 {
            over_channel(color.b, sa, old[i]) as u8
        } else {
            over_alpha(sa, old[i]) as u8
        }
    } else {
        old[i]
    }
}

/// Mask row `y` lands on a row of the image.
pub open spec fn row_on_image(ph: int, dy: int, y: int) -> bool {
    0 <= dy + y < ph
}

/// The mask holds every pixel that lands on the image.
pub open spec fn mask_fits(mask_len: int, pw: int, ph: int, mw: int, mh: int, dx: int, dy: int) -> bool {
    forall|x: int, y: int|
        0 <= x < mw && 0 <= y < mh && 0 <= dx + x < pw && 0 <= dy + y < ph ==> #[trigger] mask_index(
            mw,
            x,
            y,
        ) + 2 < mask_len
}

/// The blend's own arithmetic stays in range: coordinates in `i32`, the
/// row length in `usize`.
pub open spec fn placement_ok(pw: int, ph: int, mw: int, mh: int, dx: int, dy: int) -> bool {
    &&& pw <= i32::MAX && ph <= i32::MAX
    &&& pw * 4 <= usize::MAX
    &&& mw <= i32::MAX && mh <= i32::MAX
    &&& mh > 0 ==> dy + mh - 1 <= i32::MAX
    &&& (exists|y: int| 0 <= y < mh && #[trigger] row_on_image(ph, dy, y)) && mw > 0 ==> dx + mw
        - 1 <= i32::MAX
}

/// Byte `i` has been blended once the mask pixel over it comes before row
/// `cy`, column `cx` in the mask's row-by-row order.
pub open spec fn done_before(
    i: int,
    pw: int,
    mw: int,
    mh: int,
    dx: int,
    dy: int,
    cy: int,
    cx: int,
) -> bool {
    &&& under_mask(i, pw, mw, mh, dx, dy)
    &&& pixel_row(i, pw) - dy < cy || (pixel_row(i, pw) - dy == cy && pixel_col(i, pw) - dx < cx)
}

/// The bytes of the pixel at column `px`, row `py` sit at `(py * pw + px) * 4`.
proof fn lemma_pixel_coords(pw: int, px: int, py: int, c: int)
    requires
        pw > 0,
        0 <= px < pw,
        0 <= py,
        0 <= c < 4,
    ensures
        ((py * pw + px) * 4 + c) / 4 == py * pw + px,
        ((py * pw + px) * 4 + c) % 4 == c,
        pixel_col((py * pw + px) * 4 + c, pw) == px,
        pixel_row((py * pw + px) * 4 + c, pw) == py,
{
    let p = py * pw + px;
    assert(p >= 0) by (nonlinear_arith)
        requires
            py >= 0,
            pw > 0,
            px >= 0,
            p == py * pw + px,
    ;
    lemma_fundamental_div_mod_converse(p * 4 + c, 4, p, c);
    lemma_fundamental_div_mod_converse(p, pw, py, px);
}

/// Every byte sits in the pixel its column and row name.
proof fn lemma_pixel_of_byte(i: int, pw: int)
    requires
        pw > 0,
        i >= 0,
    ensures
        i == (pixel_row(i, pw) * pw + pixel_col(i, pw)) * 4 + i % 4,
        0 <= pixel_col(i, pw) < pw,
        0 <= pixel_row(i, pw),
        0 <= i % 4 < 4,
{
    lemma_fundamental_div_mod(i, 4);
    lemma_fundamental_div_mod(i / 4, pw);
    assert(pixel_row(i, pw) * pw == pw * pixel_row(i, pw)) by (nonlinear_arith);
}

/// The bytes of an image `pw` by `ph` lie in rows below `ph`.
proof fn lemma_row_bound(i: int, pw: int, ph: int)
    requires
        pw > 0,
        0 <= i < pw * ph * 4,
    ensures
        pixel_row(i, pw) < ph,
{
    lemma_pixel_of_byte(i, pw);
    let r = pixel_row(i, pw);
    assert(r < ph) by (nonlinear_arith)
        requires
            i == (r * pw + pixel_col(i, pw)) * 4 + i % 4,
            0 <= pixel_col(i, pw),
            0 <= i % 4,
            i < pw * ph * 4,
            pw > 0,
    ;
}

/// Blends the text mask of `mask_width` by `mask_height` pixels into the
/// `pix_width` by `pix_height` image `data`, with the mask's top-left pixel at
/// `dst_x`, `dst_y`; the mask's pixels that fall outside the image are
/// dropped.
pub fn blend_text_mask(
    data: &mut [u8],
    pix_width: u32,
    pix_height: u32,
    mask: &[u8],
    mask_width: usize,
    mask_height: usize,
    dst_x: i32,
    dst_y: i32,
    color: Rgba,
)
    requires
        old(data)@.len() == pix_width * pix_height * 4,
        placement_ok(
            pix_width as int,
            pix_height as int,
            mask_width as int,
            mask_height as int,
            dst_x as int,
            dst_y as int,
        ),
        mask_fits(
            mask@.len() as int,
            pix_width as int,
            pix_height as int,
            mask_width as int,
            mask_height as int,
            dst_x as int,
            dst_y as int,
        ),
    ensures
        final(data)@.len() == old(data)@.len(),
        forall|i: int|
            0 <= i < old(data)@.len() ==> #[trigger] final(data)@[i] == blended_byte(
                old(data)@,
                pix_width as int,
                mask@,
                mask_width as int,
                mask_height as int,
                dst_x as int,
                dst_y as int,
                color,
                i,
            ),
{
    let ghost old_data = data@;
    let ghost pw = pix_width as int;
    let ghost ph = pix_height as int;
    let ghost mw = mask_width as int;
    let ghost mh = mask_height as int;
    let ghost dx = dst_x as int;
    let ghost dy = dst_y as int;
    let ghost len = old_data.len() as int;
    let pix_w = pix_width as i32;
    let pix_h = pix_height as i32;
    let stride = pix_width as usize * 4;
    let data_len = data.len();
    let mut y: usize = 0;
    while y < mask_height
        invariant
            data@.len() == len,
            data_len == len,
            len == pw * ph * 4,
            pw == pix_width,
            ph == pix_height,
            mw == mask_width,
            mh == mask_height,
            dx == dst_x,
            dy == dst_y,
            pix_w == pw,
            pix_h == ph,
            stride == pw * 4,
            placement_ok(pw, ph, mw, mh, dx, dy),
            mask_fits(mask@.len() as int, pw, ph, mw, mh, dx, dy),
            0 <= y <= mh,
            forall|i: int|
                0 <= i < len ==> #[trigger] data@[i] == if done_before(i, pw, mw, mh, dx, dy, y as int, 0) {
                    blended_byte(old_data, pw, mask@, mw, mh, dx, dy, color, i)
                } else {
                    old_data[i]
                },
        decreases mh - y,
    {
        let py = dst_y + y as i32;
        if py >= 0 && py < pix_h {
            assert(row_on_image(ph, dy, y as int));
            assert(mw > 0 ==> dx + mw - 1 <= i32::MAX);
            let mut x: usize = 0;
            while x < mask_width
                invariant
                    data@.len() == len,
                    data_len == len,
                    len == pw * ph * 4,
                    pw == pix_width,
                    ph == pix_height,
                    mw == mask_width,
                    mh == mask_height,
                    dx == dst_x,
                    dy == dst_y,
                    pix_w == pw,
                    pix_h == ph,
                    stride == pw * 4,
                    placement_ok(pw, ph, mw, mh, dx, dy),
                    mask_fits(mask@.len() as int, pw, ph, mw, mh, dx, dy),
                    0 <= y < mh,
                    py == dy + y,
                    0 <= py < ph,
                    0 <= x <= mw,
                    mw > 0 ==> dx + mw - 1 <= i32::MAX,
                    forall|i: int|
                        0 <= i < len ==> #[trigger] data@[i] == if done_before(
                            i,
                            pw,
                            mw,
                            mh,
                            dx,
                            dy,
                            y as int,
                            x as int,
                        ) {
                            blended_byte(old_data, pw, mask@, mw, mh, dx, dy, color, i)
                        } else {
                            old_data[i]
                        },
                decreases mw - x,
            {
                let ghost before = data@;
                let px = dst_x + x as i32;
                if px >= 0 && px < pix_w {
                    assert(mask_index(mw, x as int, y as int) + 2 < mask@.len());
                    assert(0 <= y * mw + x) by (nonlinear_arith)
                        requires
                            y >= 0,
                            mw >= 0,
                            x >= 0,
                    ;
                    let mask_len = mask.len();
                    assert((y * mw + x) * 4 + 2 < mask@.len());
                    let row_start = y * mask_width;
                    let mi = (row_start + x) * 4;
                    let c0 = mask[mi];
                    let c1 = mask[mi + 1];
                    let c2 = mask[mi + 2];
                    let cov: u8 = if c0 >= c1 && c0 >= c2 {
                        c0
                    } else if c1 >= c2 {
                        c1
                    } else {
                        c2
                    };
                    assert(cov as int == coverage(mask@, mw, x as int, y as int));
                    if cov != 0 {
                        assert(cov as u32 * color.a as u32 <= 255 * 255) by (nonlinear_arith)
                            requires
                                cov <= 255,
                                color.a <= 255,
                        ;
                        let src_a: u32 = (cov as u32 * color.a as u32 + 127) / 255;
                        assert(src_a <= 255);
                        if src_a != 0 {
                            let inv_a: u32 = 255 - src_a;
                            assert(py as usize * stride <= (ph - 1) * (pw * 4)) by (nonlinear_arith)
                                requires
                                    0 <= py < ph,
                                    stride == pw * 4,
                                    pw >= 0,
                            ;
                            assert(py * (pw * 4) + px * 4 == (py * pw + px) * 4) by (nonlinear_arith);
                            assert((py * pw + px) * 4 + 3 < pw * ph * 4) by (nonlinear_arith)
                                requires
                                    0 <= py < ph,
                                    0 <= px < pw,
                            ;
                            assert(py * (pw * 4) + px * 4 < data_len);
                            let d: usize = py as usize * stride + px as usize * 4;
                            assert(d as int == (py * pw + px) * 4);
                            let o0 = data[d];
                            let o1 = data[d + 1];
                            let o2 = data[d + 2];
                            let o3 = data[d + 3];
                            assert(color.r as u32 * src_a + o0 as u32 * inv_a <= 255 * 255)
                                by (nonlinear_arith)
                                requires
                                    color.r <= 255,
                                    o0 <= 255,
                                    src_a + inv_a == 255,
                            ;
                            assert(color.g as u32 * src_a + o1 as u32 * inv_a <= 255 * 255)
                                by (nonlinear_arith)
                                requires
                                    color.g <= 255,
                                    o1 <= 255,
                                    src_a + inv_a == 255,
                            ;
                            assert(color.b as u32 * src_a + o2 as u32 * inv_a <= 255 * 255)
                                by (nonlinear_arith)
                                requires
                                    color.b <= 255,
                                    o2 <= 255,
                                    src_a + inv_a == 255,
                            ;
                            assert(src_a + o3 as u32 * inv_a / 255 <= 255) by (nonlinear_arith)
                                requires
                                    o3 <= 255,
                                    src_a + inv_a == 255,
                                    src_a <= 255,
                            ;
                            data[d] = ((color.r as u32 * src_a + o0 as u32 * inv_a) / 255) as u8;
                            data[d + 1] = ((color.g as u32 * src_a + o1 as u32 * inv_a) / 255) as u8;
                            data[d + 2] = ((color.b as u32 * src_a + o2 as u32 * inv_a) / 255) as u8;
                            data[d + 3] = (src_a + o3 as u32 * inv_a / 255) as u8;
                            proof {
                                lemma_pixel_coords(pw, px as int, py as int, 0);
                                lemma_pixel_coords(pw, px as int, py as int, 1);
                                lemma_pixel_coords(pw, px as int, py as int, 2);
                                lemma_pixel_coords(pw, px as int, py as int, 3);
                                assert forall|i: int| 0 <= i < len implies #[trigger] data@[i]
                                    == if done_before(i, pw, mw, mh, dx, dy, y as int, x + 1) {
                                    blended_byte(old_data, pw, mask@, mw, mh, dx, dy, color, i)
                                } else {
                                    old_data[i]
                                } by {
                                    if d <= i < d + 4 {
                                        assert(before[i] == old_data[i]);
                                    } else {
                                        lemma_pixel_of_byte(i, pw);
                                        assert(data@[i] == before[i]);
                                        if pixel_col(i, pw) == px && pixel_row(i, pw) == py {
                                            assert(false);
                                        }
                                    }
                                }
                            }
                        } else {
                            proof {
                                assert forall|i: int| 0 <= i < len implies #[trigger] data@[i]
                                    == if done_before(i, pw, mw, mh, dx, dy, y as int, x + 1) {
                                    blended_byte(old_data, pw, mask@, mw, mh, dx, dy, color, i)
                                } else {
                                    old_data[i]
                                } by {
                                    lemma_pixel_of_byte(i, pw);
                                }
                            }
                        }
                    } else {
                        proof {
                            assert forall|i: int| 0 <= i < len implies #[trigger] data@[i]
                                == if done_before(i, pw, mw, mh, dx, dy, y as int, x + 1) {
                                blended_byte(old_data, pw, mask@, mw, mh, dx, dy, color, i)
                            } else {
                                old_data[i]
                            } by {
                                lemma_pixel_of_byte(i, pw);
                            }
                        }
                    }
                } else {
                    proof {
                        assert forall|i: int| 0 <= i < len implies #[trigger] data@[i] == if done_before(
                            i,
                            pw,
                            mw,
                            mh,
                            dx,
                            dy,
                            y as int,
                            x + 1,
                        ) {
                            blended_byte(old_data, pw, mask@, mw, mh, dx, dy, color, i)
                        } else {
                            old_data[i]
                        } by {
                            lemma_pixel_of_byte(i, pw);
                        }
                    }
                }
                x = x + 1;
            }
        } else {
            proof {
                assert forall|i: int| 0 <= i < len implies #[trigger] data@[i] == if done_before(
                    i,
                    pw,
                    mw,
                    mh,
                    dx,
                    dy,
                    y + 1,
                    0,
                ) {
                    blended_byte(old_data, pw, mask@, mw, mh, dx, dy, color, i)
                } else {
                    old_data[i]
                } by {
                    lemma_pixel_of_byte(i, pw);
                    lemma_row_bound(i, pw, ph);
                }
            }
        }
        y = y + 1;
    }
    assert forall|i: int| 0 <= i < len implies #[trigger] data@[i] == blended_byte(
        old_data,
        pw,
        mask@,
        mw,
        mh,
        dx,
        dy,
        color,
        i,
    ) by {}
}

/// Pixels that the mask does not reach keep their bytes.
pub proof fn law_blend_outside_mask_unchanged(
    old: Seq<u8>,
    pw: int,
    mask: Seq<u8>,
    mw: int,
    mh: int,
    dx: int,
    dy: int,
    color: Rgba,
    i: int,
)
    requires
        !under_mask(i, pw, mw, mh, dx, dy),
    ensures
        blended_byte(old, pw, mask, mw, mh, dx, dy, color, i) == old[i],
{
}

/// Fully covered text in an opaque color replaces the pixel with the color.
pub proof fn law_opaque_text_paints_color(
    old: Seq<u8>,
    pw: int,
    mask: Seq<u8>,
    mw: int,
    mh: int,
    dx: int,
    dy: int,
    color: Rgba,
    i: int,
)
    requires
        under_mask(i, pw, mw, mh, dx, dy),
        coverage(mask, mw, pixel_col(i, pw) - dx, pixel_row(i, pw) - dy) == 255,
        color.a == 255,
        i % 4 == 0,
    ensures
        blended_byte(old, pw, mask, mw, mh, dx, dy, color, i) == color.r,
{
    assert(source_alpha(255, 255) == 255);
    assert(over_channel(color.r, 255, old[i]) == color.r) by (nonlinear_arith)
        requires
            0 <= color.r <= 255,
    {
        assert(color.r * 255 + old[i] * 0 == color.r * 255);
    }
}

} // verus!
