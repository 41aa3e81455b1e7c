//! Pixel format conversions between packed RGB layouts and I420.
//!
//! The conversions use the BT.601 studio-swing integer formulas. Chroma is
//! sampled from the top-left pixel of each two-by-two block.

use vstd::prelude::*;

use crate::api::video_codec_common::{I420Buffer, chroma_dim};

verus! {

/// The luma of one RGB pixel.
pub open spec fn y_of(r: u8, g: u8, b: u8) -> u8 {
    (((66 * r + 129 * g + 25 * b + 128) / 256) + 16) as u8
}

/// The U chroma of one RGB pixel, biased into the unsigned range.
pub open spec fn u_of(r: u8, g: u8, b: u8) -> u8 {
    ((112 * b + 32896 - 38 * r - 74 * g) / 256) as u8
}

/// The V chroma of one RGB pixel, biased into the unsigned range.
pub open spec fn v_of(r: u8, g: u8, b: u8) -> u8 {
    ((112 * r + 32896 - 94 * g - 18 * b) / 256) as u8
}

/// The luma of one RGB pixel.
fn y_byte(r: u8, g: u8, b: u8) -> (y: u8)
    ensures
        y == y_of(r, g, b),
{
    let t: u32 = 66 * (r as u32) + 129 * (g as u32) + 25 * (b as u32) + 128;
    (t / 256) as u8 + 16
}

/// The U chroma of one RGB pixel.
fn u_byte(r: u8, g: u8, b: u8) -> (u: u8)
    ensures
        u == u_of(r, g, b),
{
    let t: u32 = 112 * (b as u32) + 32896 - 38 * (r as u32) - 74 * (g as u32);
    (t / 256) as u8
}

/// The V chroma of one RGB pixel.
fn v_byte(r: u8, g: u8, b: u8) -> (v: u8)
    ensures
        v == v_of(r, g, b),
{
    let t: u32 = 112 * (r as u32) + 32896 - 94 * (g as u32) - 18 * (b as u32);
    (t / 256) as u8
}

/// The red byte of pixel `i` of a packed R-G-B-A image.
pub open spec fn rgba_r(src: Seq<u8>, i: int) -> u8 {
    src[4 * i]
}

/// The green byte of pixel `i` of a packed R-G-B-A image.
pub open spec fn rgba_g(src: Seq<u8>, i: int) -> u8 {
    src[4 * i + 1]
}

/// The blue byte of pixel `i` of a packed R-G-B-A image.
pub open spec fn rgba_b(src: Seq<u8>, i: int) -> u8 {
    src[4 * i + 2]
}

/// Converts a packed R-G-B-A image to I420. Succeeds exactly for positive
/// dimensions whose pixel count is addressable and covered by the source:
/// every luma value and every chroma value is then the converted source
/// pixel, with chroma taken from the top-left pixel of its block.
pub fn abgr_to_i420(src_abgr: &[u8], width: i32, height: i32) -> (r: Option<I420Buffer>)
    ensures
        (r is Some) == (0 < width && 0 < height && 4 * width * height <= usize::MAX
            && src_abgr@.len() >= 4 * width * height),
        r matches Some(buf) ==> {
            &&& buf.spec_width() == width
            &&& buf.spec_height() == height
            &&& buf.wf()
            &&& forall|i: int|
                0 <= i < width * height ==> (#[trigger] buf.spec_y()[i]) == y_of(
                    rgba_r(src_abgr@, i),
                    rgba_g(src_abgr@, i),
                    rgba_b(src_abgr@, i),
                )
            &&& forall|k: int|
                0 <= k < chroma_dim(width as int) * chroma_dim(height as int) ==> (
                #[trigger] buf.spec_u()[k]) == u_of(
                    rgba_r(src_abgr@, chroma_src_pixel(k, width as int)),
                    rgba_g(src_abgr@, chroma_src_pixel(k, width as int)),
                    rgba_b(src_abgr@, chroma_src_pixel(k, width as int)),
                )
            &&& forall|k: int|
                0 <= k < chroma_dim(width as int) * chroma_dim(height as int) ==> (
                #[trigger] buf.spec_v()[k]) == v_of(
                    rgba_r(src_abgr@, chroma_src_pixel(k, width as int)),
                    rgba_g(src_abgr@, chroma_src_pixel(k, width as int)),
                    rgba_b(src_abgr@, chroma_src_pixel(k, width as int)),
                )
        },
{
    if width <= 0 || height <= 0 {
        return None;
    }
    let w = width as usize;
    let h = height as usize;
    let pixels_opt = w.checked_mul(h);
    let pixels = match pixels_opt {
        Some(p) => p,
        None => {
            proof {
                assert(4 * width * height > usize::MAX) by (nonlinear_arith)
                    requires
                        width == w as int,
                        height == h as int,
                        w * h > usize::MAX,
                        0 < w,
                        0 < h,
                ;
            }
            return None;
        },
    };
    let bytes_opt = pixels.checked_mul(4);
    let bytes = match bytes_opt {
        Some(b) => b,
        None => {
            proof {
                assert(4 * width * height > usize::MAX) by (nonlinear_arith)
                    requires
                        width == w as int,
                        height == h as int,
                        pixels == w * h,
                        pixels * 4 > usize::MAX,
                ;
            }
            return None;
        },
    };
    proof {
        assert(4 * width * height == bytes) by (nonlinear_arith)
            requires
                width == w as int,
                height == h as int,
                pixels == w * h,
                bytes == pixels * 4,
        ;
    }
    if src_abgr.len() < bytes {
        return None;
    }
    let cw = (w + 1) / 2;
    let ch = (h + 1) / 2;
    proof {
        vstd::arithmetic::mul::lemma_mul_upper_bound(cw as int, w as int, ch as int, h as int);
    }
    let mut y_plane: Vec<u8> = Vec::new();
    let mut i: usize = 0;
    while i < pixels
        invariant
            pixels == w * h,
            4 * pixels <= usize::MAX,
            src_abgr@.len() >= 4 * pixels,
            y_plane@.len() == i,
            i <= pixels,
            forall|j: int|
                0 <= j < i ==> (#[trigger] y_plane@[j]) == y_of(
                    rgba_r(src_abgr@, j),
                    rgba_g(src_abgr@, j),
                    rgba_b(src_abgr@, j),
                ),
        decreases pixels - i,
    {
        proof {
            assert(4 * i + 3 < 4 * pixels);
        }
        let r = src_abgr[4 * i];
        let g = src_abgr[4 * i + 1];
        let b = src_abgr[4 * i + 2];
        y_plane.push(y_byte(r, g, b));
        i = i + 1;
    }
    let chroma_pixels = cw * ch;
    let mut u_plane: Vec<u8> = Vec::new();
    let mut v_plane: Vec<u8> = Vec::new();
    let mut k: usize = 0;
    while k < chroma_pixels
        invariant
            pixels == w * h,
            chroma_pixels == cw * ch,
            cw == chroma_dim(w as int),
            ch == chroma_dim(h as int),
            0 < w,
            0 < h,
            4 * pixels <= usize::MAX,
            src_abgr@.len() >= 4 * pixels,
            u_plane@.len() == k,
            v_plane@.len() == k,
            k <= chroma_pixels,
            forall|j: int|
                0 <= j < k ==> (#[trigger] u_plane@[j]) == u_of(
                    rgba_r(src_abgr@, chroma_src_pixel(j, w as int)),
                    rgba_g(src_abgr@, chroma_src_pixel(j, w as int)),
                    rgba_b(src_abgr@, chroma_src_pixel(j, w as int)),
                ),
            forall|j: int|
                0 <= j < k ==> (#[trigger] v_plane@[j]) == v_of(
                    rgba_r(src_abgr@, chroma_src_pixel(j, w as int)),
                    rgba_g(src_abgr@, chroma_src_pixel(j, w as int)),
                    rgba_b(src_abgr@, chroma_src_pixel(j, w as int)),
                ),
        decreases chroma_pixels - k,
    {
        let cx = k % cw;
        let cy = k / cw;
        proof {
            lemma_chroma_index_in_range(k as int, cw as int, ch as int, w as int, h as int);
            lemma_pixel_in_range(2 * (cy as int), 2 * (cx as int), w as int, h as int);
        }
        let sp = (2 * cy) * w + 2 * cx;
        proof {
            assert(sp == chroma_src_pixel(k as int, w as int));
            assert(4 * sp + 3 < 4 * pixels);
        }
        let r = src_abgr[4 * sp];
        let g = src_abgr[4 * sp + 1];
        let b = src_abgr[4 * sp + 2];
        u_plane.push(u_byte(r, g, b));
        v_plane.push(v_byte(r, g, b));
        k = k + 1;
    }
    let buf = I420Buffer::from_planes(width, height, y_plane, u_plane, v_plane);
    Some(buf)
}

/// The source pixel a chroma sample `k` is taken from: the top-left pixel
/// of its block.
pub open spec fn chroma_src_pixel(k: int, w: int) -> int {
    let cw = chroma_dim(w);
    let cx = k % cw;
    let cy = k / cw;
    (2 * cy) * w + 2 * cx
}

/// A chroma index names a block whose top-left pixel lies inside the
/// image.
proof fn lemma_chroma_index_in_range(k: int, cw: int, ch: int, w: int, h: int)
    requires
        0 < w,
        0 < h,
        cw == chroma_dim(w),
        ch == chroma_dim(h),
        0 <= k < cw * ch,
    ensures
        0 <= k % cw < cw,
        0 <= k / cw < ch,
        2 * (k % cw) < w,
        2 * (k / cw) < h,
{
    assert(cw > 0);
    assert(ch > 0);
    vstd::arithmetic::div_mod::lemma_mod_bound(k, cw);
    vstd::arithmetic::div_mod::lemma_div_pos_is_pos(k, cw);
    assert(k / cw < ch) by (nonlinear_arith)
        requires
            0 <= k,
            0 < cw,
            0 < ch,
            k < cw * ch,
    ;
    assert(2 * (k % cw) < w) by (nonlinear_arith)
        requires
            0 <= k % cw,
            k % cw < cw,
            cw == (w + 1) / 2,
            0 < w,
    ;
    assert(2 * (k / cw) < h) by (nonlinear_arith)
        requires
            0 <= k / cw,
            k / cw < ch,
            ch == (h + 1) / 2,
            0 < h,
    ;
}

/// A pixel at row `y` and column `x` lies at a flat index inside the
/// image.
proof fn lemma_pixel_in_range(y: int, x: int, w: int, h: int)
    requires
        0 <= y < h,
        0 <= x < w,
    ensures
        0 <= y * w + x < w * h,
{
    assert(y * w + x < w * h) by (nonlinear_arith)
        requires
            0 <= y < h,
            0 <= x < w,
    ;
    assert(0 <= y * w + x) by (nonlinear_arith)
        requires
            0 <= y,
            0 <= x,
            0 <= w,
    ;
}

/// The clamped value of a scaled term: zero for negative terms, the
/// divided value capped at 255 otherwise.
pub open spec fn clamp_shift(t: int) -> u8 {
    if t < 0 {
        0
    } else if t / 256 > 255 {
        255
    } else {
        (t / 256) as u8
    }
}

/// The red byte recovered from one I420 sample triple.
pub open spec fn argb_red(y: u8, v: u8) -> u8 {
    clamp_shift(298 * (y - 16) + 409 * (v - 128) + 128)
}

/// The green byte recovered from one I420 sample triple.
pub open spec fn argb_green(y: u8, u: u8, v: u8) -> u8 {
    clamp_shift(298 * (y - 16) - 100 * (u - 128) - 208 * (v - 128) + 128)
}

/// The blue byte recovered from one I420 sample triple.
pub open spec fn argb_blue(y: u8, u: u8) -> u8 {
    clamp_shift(298 * (y - 16) + 516 * (u - 128) + 128)
}

/// Clamps and scales one term.
fn clamp_shift_byte(t: i64) -> (r: u8)
    ensures
        r == clamp_shift(t as int),
{
    if t < 0 {
        0
    } else if t / 256 > 255 {
        255
    } else {
        (t / 256) as u8
    }
}

/// Converts an I420 buffer to a packed B-G-R-A image. Succeeds exactly for
/// well-formed buffers whose byte count is addressable; each pixel is then
/// the converted sample triple, with alpha opaque.
pub fn i420_to_argb(src: &I420Buffer) -> (r: Option<Vec<u8>>)
    requires
        src.wf(),
    ensures
        (r is Some) == (4 * src.spec_width() * src.spec_height() <= usize::MAX),
        r matches Some(out) ==> {
            &&& out@.len() == 4 * src.spec_width() * src.spec_height()
            &&& forall|i: int|
                0 <= i < src.spec_width() * src.spec_height() ==> (#[trigger] out@[4 * i])
                    == argb_blue(
                    src.spec_y()[i],
                    src.spec_u()[chroma_sample_index(i, src.spec_width() as int)],
                )
            &&& forall|i: int|
                0 <= i < src.spec_width() * src.spec_height() ==> (#[trigger] out@[4 * i + 1])
                    == argb_green(
                    src.spec_y()[i],
                    src.spec_u()[chroma_sample_index(i, src.spec_width() as int)],
                    src.spec_v()[chroma_sample_index(i, src.spec_width() as int)],
                )
            &&& forall|i: int|
                0 <= i < src.spec_width() * src.spec_height() ==> (#[trigger] out@[4 * i + 2])
                    == argb_red(
                    src.spec_y()[i],
                    src.spec_v()[chroma_sample_index(i, src.spec_width() as int)],
                )
            &&& forall|i: int|
                0 <= i < src.spec_width() * src.spec_height() ==> (#[trigger] out@[4 * i + 3])
                    == 255
        },
{
    let width = src.width();
    let height = src.height();
    let w = width as usize;
    let h = height as usize;
    let pixels_opt = w.checked_mul(h);
    let pixels = match pixels_opt {
        Some(p) => p,
        None => {
            proof {
                assert(4 * src.spec_width() * src.spec_height() > usize::MAX) by (nonlinear_arith)
                    requires
                        src.spec_width() == w as int,
                        src.spec_height() == h as int,
                        w * h > usize::MAX,
                        0 < w,
                        0 < h,
                ;
            }
            return None;
        },
    };
    let bytes_opt = pixels.checked_mul(4);
    let bytes = match bytes_opt {
        Some(b) => b,
        None => {
            proof {
                assert(4 * src.spec_width() * src.spec_height() > usize::MAX) by (nonlinear_arith)
                    requires
                        src.spec_width() == w as int,
                        src.spec_height() == h as int,
                        pixels == w * h,
                        pixels * 4 > usize::MAX,
                ;
            }
            return None;
        },
    };
    proof {
        assert(4 * src.spec_width() * src.spec_height() == bytes) by (nonlinear_arith)
            requires
                src.spec_width() == w as int,
                src.spec_height() == h as int,
                pixels == w * h,
                bytes == pixels * 4,
        ;
    }
    let cw = (w + 1) / 2;
    let y_data = src.y_data();
    let u_data = src.u_data();
    let v_data = src.v_data();
    let mut out: Vec<u8> = Vec::new();
    let mut i: usize = 0;
    while i < pixels
        invariant
            pixels == w * h,
            w == src.spec_width(),
            h == src.spec_height(),
            src.wf(),
            cw == chroma_dim(w as int),
            y_data@ == src.spec_y(),
            u_data@ == src.spec_u(),
            v_data@ == src.spec_v(),
            out@.len() == 4 * i,
            i <= pixels,
            4 * pixels <= usize::MAX,
            forall|j: int|
                0 <= j < i ==> (#[trigger] out@[4 * j]) == argb_blue(
                    src.spec_y()[j],
                    src.spec_u()[chroma_sample_index(j, w as int)],
                ),
            forall|j: int|
                0 <= j < i ==> (#[trigger] out@[4 * j + 1]) == argb_green(
                    src.spec_y()[j],
                    src.spec_u()[chroma_sample_index(j, w as int)],
                    src.spec_v()[chroma_sample_index(j, w as int)],
                ),
            forall|j: int|
                0 <= j < i ==> (#[trigger] out@[4 * j + 2]) == argb_red(
                    src.spec_y()[j],
                    src.spec_v()[chroma_sample_index(j, w as int)],
                ),
            forall|j: int| 0 <= j < i ==> (#[trigger] out@[4 * j + 3]) == 255,
        decreases pixels - i,
    {
        let x = i % w;
        let yy = i / w;
        proof {
            lemma_flat_index_split(i as int, w as int, h as int);
            lemma_chroma_sample_in_range(i as int, w as int, h as int);
            vstd::arithmetic::mul::lemma_mul_upper_bound(
                chroma_dim(w as int),
                w as int,
                chroma_dim(h as int),
                h as int,
            );
            assert(((i as int / w as int) / 2) * (cw as int) + (i as int % w as int) / 2
                < pixels);
        }
        let ci = (yy / 2) * cw + x / 2;
        proof {
            assert(ci == chroma_sample_index(i as int, w as int));
        }
        let yv = y_data[i];
        let uv = u_data[ci];
        let vv = v_data[ci];
        let c: i64 = 298 * ((yv as i64) - 16);
        let d: i64 = (uv as i64) - 128;
        let e: i64 = (vv as i64) - 128;
        let ghost before = out@;
        out.push(clamp_shift_byte(c + 516 * d + 128));
        out.push(clamp_shift_byte(c - 100 * d - 208 * e + 128));
        out.push(clamp_shift_byte(c + 409 * e + 128));
        out.push(255);
        proof {
            assert(out@.len() == 4 * i + 4);
            assert forall|j: int| 0 <= j < i + 1 implies (#[trigger] out@[4 * j + 3]) == 255 by {
                if j < i {
                    assert(out@[4 * j + 3] == before[4 * j + 3]);
                }
            }
            assert forall|j: int| 0 <= j < i + 1 implies (#[trigger] out@[4 * j]) == argb_blue(
                src.spec_y()[j],
                src.spec_u()[chroma_sample_index(j, w as int)],
            ) by {
                if j < i {
                    assert(out@[4 * j] == before[4 * j]);
                }
            }
            assert forall|j: int| 0 <= j < i + 1 implies (#[trigger] out@[4 * j + 1])
                == argb_green(
                src.spec_y()[j],
                src.spec_u()[chroma_sample_index(j, w as int)],
                src.spec_v()[chroma_sample_index(j, w as int)],
            ) by {
                if j < i {
                    assert(out@[4 * j + 1] == before[4 * j + 1]);
                }
            }
            assert forall|j: int| 0 <= j < i + 1 implies (#[trigger] out@[4 * j + 2]) == argb_red(
                src.spec_y()[j],
                src.spec_v()[chroma_sample_index(j, w as int)],
            ) by {
                if j < i {
                    assert(out@[4 * j + 2] == before[4 * j + 2]);
                }
            }
        }
        i = i + 1;
    }
    Some(out)
}

/// The chroma sample a pixel at flat index `i` reads: its block's entry of
/// the chroma plane.
pub open spec fn chroma_sample_index(i: int, w: int) -> int {
    let x = i % w;
    let y = i / w;
    (y / 2) * chroma_dim(w) + x / 2
}

/// Splitting a flat pixel index into row and column stays inside the
/// image.
proof fn lemma_flat_index_split(i: int, w: int, h: int)
    requires
        0 < w,
        0 < h,
        0 <= i < w * h,
    ensures
        0 <= i % w < w,
        0 <= i / w < h,
{
    vstd::arithmetic::div_mod::lemma_mod_bound(i, w);
    vstd::arithmetic::div_mod::lemma_div_pos_is_pos(i, w);
    assert(i / w < h) by (nonlinear_arith)
        requires
            0 <= i,
            0 < w,
            0 < h,
            i < w * h,
    ;
}

/// A pixel's chroma sample lies inside the chroma plane.
proof fn lemma_chroma_sample_in_range(i: int, w: int, h: int)
    requires
        0 < w,
        0 < h,
        0 <= i < w * h,
    ensures
        0 <= chroma_sample_index(i, w) < chroma_dim(w) * chroma_dim(h),
{
    let x = i % w;
    let y = i / w;
    let cw = chroma_dim(w);
    let ch = chroma_dim(h);
    lemma_flat_index_split(i, w, h);
    assert(0 <= x / 2 < cw) by (nonlinear_arith)
        requires
            0 <= x < w,
            cw == (w + 1) / 2,
    ;
    assert(0 <= y / 2 < ch) by (nonlinear_arith)
        requires
            0 <= y < h,
            ch == (h + 1) / 2,
    ;
    lemma_pixel_in_range(y / 2, x / 2, cw, ch);
    assert((y / 2) * cw + x / 2 < cw * ch);
}

} // verus!

verus! {

/// A row byte at column `c` of row `r` lies inside a buffer that covers
/// `h` rows of `rowbytes` at the given stride.
proof fn lemma_row_byte_in_range(r: int, c: int, h: int, stride: int, rowbytes: int, len: int)
    requires
        0 <= r < h,
        0 <= c < rowbytes,
        rowbytes <= stride,
        len >= (h - 1) * stride + rowbytes,
    ensures
        0 <= r * stride + c < len,
{
    assert(r * stride <= (h - 1) * stride) by (nonlinear_arith)
        requires
            0 <= r <= h - 1,
            0 <= stride,
    ;
    assert(0 <= r * stride) by (nonlinear_arith)
        requires
            0 <= r,
            0 <= stride,
    ;
}

/// The luma source byte of pixel `i` in a strided plane.
pub open spec fn strided_byte(src: Seq<u8>, i: int, w: int, stride: int) -> u8 {
    src[(i / w) * stride + i % w]
}

/// The interleaved chroma source byte of chroma sample `k`: its row in the
/// half-height plane, with U at even and V at odd byte offsets.
pub open spec fn nv12_uv_byte(src: Seq<u8>, k: int, w: int, stride: int, off: int) -> u8 {
    let cw = chroma_dim(w);
    src[(k / cw) * stride + 2 * (k % cw) + off]
}

/// Converts NV12 planes — luma, and interleaved chroma at half height — to
/// I420. Succeeds exactly when the dimensions are positive and addressable,
/// the strides cover the row widths, and both buffers cover their rows;
/// every sample is then copied from its strided source position.
pub fn nv12_to_i420(
    src_y: &[u8],
    src_stride_y: i32,
    src_uv: &[u8],
    src_stride_uv: i32,
    width: i32,
    height: i32,
) -> (r: Option<I420Buffer>)
    ensures
        (r is Some) == (0 < width && 0 < height && width * height <= usize::MAX && width
            <= src_stride_y && 2 * chroma_dim(width as int) <= src_stride_uv && src_y@.len() >= (
        height - 1) * src_stride_y + width && src_uv@.len() >= (chroma_dim(height as int) - 1)
            * src_stride_uv + 2 * chroma_dim(width as int)),
        r matches Some(buf) ==> {
            &&& buf.spec_width() == width
            &&& buf.spec_height() == height
            &&& buf.wf()
            &&& forall|i: int|
                0 <= i < width * height ==> (#[trigger] buf.spec_y()[i]) == strided_byte(
                    src_y@,
                    i,
                    width as int,
                    src_stride_y as int,
                )
            &&& forall|k: int|
                0 <= k < chroma_dim(width as int) * chroma_dim(height as int) ==> (
                #[trigger] buf.spec_u()[k]) == nv12_uv_byte(
                    src_uv@,
                    k,
                    width as int,
                    src_stride_uv as int,
                    0,
                )
            &&& forall|k: int|
                0 <= k < chroma_dim(width as int) * chroma_dim(height as int) ==> (
                #[trigger] buf.spec_v()[k]) == nv12_uv_byte(
                    src_uv@,
                    k,
                    width as int,
                    src_stride_uv as int,
                    1,
                )
        },
{
    if width <= 0 || height <= 0 {
        return None;
    }
    let w = width as usize;
    let h = height as usize;
    let cw = (w + 1) / 2;
    let ch = (h + 1) / 2;
    if src_stride_y < width {
        return None;
    }
    let stride_y = src_stride_y as usize;
    if (src_stride_uv as i64) < 2 * (cw as i64) {
        return None;
    }
    let stride_uv = src_stride_uv as usize;
    let src_y_len = src_y.len();
    let src_uv_len = src_uv.len();
    let pixels_opt = w.checked_mul(h);
    let pixels = match pixels_opt {
        Some(p) => p,
        None => {
            proof {
                assert(width * height > usize::MAX) by (nonlinear_arith)
                    requires
                        width == w as int,
                        height == h as int,
                        w * h > usize::MAX,
                        0 < w,
                        0 < h,
                ;
            }
            return None;
        },
    };
    let y_rows_opt = (h - 1).checked_mul(stride_y);
    let y_need = match y_rows_opt {
        Some(base) => {
            match base.checked_add(w) {
                Some(n) => n,
                None => {
                    return None;
                },
            }
        },
        None => {
            return None;
        },
    };
    if src_y_len < y_need {
        return None;
    }
    let uv_rows_opt = (ch - 1).checked_mul(stride_uv);
    let uv_need = match uv_rows_opt {
        Some(base) => {
            match base.checked_add(2 * cw) {
                Some(n) => n,
                None => {
                    return None;
                },
            }
        },
        None => {
            return None;
        },
    };
    if src_uv_len < uv_need {
        return None;
    }
    proof {
        vstd::arithmetic::mul::lemma_mul_upper_bound(cw as int, w as int, ch as int, h as int);
    }
    let mut y_plane: Vec<u8> = Vec::new();
    let mut i: usize = 0;
    while i < pixels
        invariant
            pixels == w * h,
            0 < w,
            0 < h,
            w <= stride_y,
            src_y@.len() >= (h - 1) * stride_y + w,
            src_y@.len() <= usize::MAX,
            y_plane@.len() == i,
            i <= pixels,
            forall|j: int|
                0 <= j < i ==> (#[trigger] y_plane@[j]) == strided_byte(
                    src_y@,
                    j,
                    w as int,
                    stride_y as int,
                ),
        decreases pixels - i,
    {
        let c = i % w;
        let rr = i / w;
        proof {
            lemma_flat_index_split(i as int, w as int, h as int);
            lemma_row_byte_in_range(
                rr as int,
                c as int,
                h as int,
                stride_y as int,
                w as int,
                src_y@.len() as int,
            );
        }
        y_plane.push(src_y[rr * stride_y + c]);
        i = i + 1;
    }
    let chroma_pixels = cw * ch;
    let mut u_plane: Vec<u8> = Vec::new();
    let mut v_plane: Vec<u8> = Vec::new();
    let mut k: usize = 0;
    while k < chroma_pixels
        invariant
            chroma_pixels == cw * ch,
            cw == chroma_dim(w as int),
            ch == chroma_dim(h as int),
            0 < w,
            0 < h,
            0 < cw,
            0 < ch,
            2 * cw <= stride_uv,
            src_uv@.len() >= (ch - 1) * stride_uv + 2 * cw,
            src_uv@.len() <= usize::MAX,
            u_plane@.len() == k,
            v_plane@.len() == k,
            k <= chroma_pixels,
            forall|j: int|
                0 <= j < k ==> (#[trigger] u_plane@[j]) == nv12_uv_byte(
                    src_uv@,
                    j,
                    w as int,
                    stride_uv as int,
                    0,
                ),
            forall|j: int|
                0 <= j < k ==> (#[trigger] v_plane@[j]) == nv12_uv_byte(
                    src_uv@,
                    j,
                    w as int,
                    stride_uv as int,
                    1,
                ),
        decreases chroma_pixels - k,
    {
        let cx = k % cw;
        let cy = k / cw;
        proof {
            lemma_flat_index_split(k as int, cw as int, ch as int);
            lemma_row_byte_in_range(
                cy as int,
                2 * (cx as int) + 1,
                ch as int,
                stride_uv as int,
                2 * (cw as int),
                src_uv@.len() as int,
            );
        }
        u_plane.push(src_uv[cy * stride_uv + 2 * cx]);
        v_plane.push(src_uv[cy * stride_uv + 2 * cx + 1]);
        k = k + 1;
    }
    let buf = I420Buffer::from_planes(width, height, y_plane, u_plane, v_plane);
    Some(buf)
}

/// The luma byte of pixel `i` of a packed Y-U-Y-V image.
pub open spec fn yuy2_y_byte(src: Seq<u8>, i: int, w: int, stride: int) -> u8 {
    src[(i / w) * stride + 2 * (i % w)]
}

/// The chroma byte of sample `k` of a packed Y-U-Y-V image: its macropixel
/// on the even source row, with U at offset one and V at offset three.
pub open spec fn yuy2_uv_byte(src: Seq<u8>, k: int, w: int, stride: int, off: int) -> u8 {
    let cw = chroma_dim(w);
    src[(2 * (k / cw)) * stride + 4 * (k % cw) + off]
}

/// Converts a packed Y-U-Y-V image to I420. Succeeds exactly when the
/// dimensions are positive and addressable, the stride covers the row's
/// macropixels, and the buffer covers its rows; every sample is then
/// copied from its packed source position, with chroma taken from the even
/// rows.
pub fn yuy2_to_i420(src_yuy2: &[u8], src_stride: i32, width: i32, height: i32) -> (r: Option<
    I420Buffer,
>)
    ensures
        (r is Some) == (0 < width && 0 < height && width * height <= usize::MAX && 4 * chroma_dim(
            width as int,
        ) <= src_stride && src_yuy2@.len() >= (height - 1) * src_stride + 4 * chroma_dim(
            width as int,
        )),
        r matches Some(buf) ==> {
            &&& buf.spec_width() == width
            &&& buf.spec_height() == height
            &&& buf.wf()
            &&& forall|i: int|
                0 <= i < width * height ==> (#[trigger] buf.spec_y()[i]) == yuy2_y_byte(
                    src_yuy2@,
                    i,
                    width as int,
                    src_stride as int,
                )
            &&& forall|k: int|
                0 <= k < chroma_dim(width as int) * chroma_dim(height as int) ==> (
                #[trigger] buf.spec_u()[k]) == yuy2_uv_byte(
                    src_yuy2@,
                    k,
                    width as int,
                    src_stride as int,
                    1,
                )
            &&& forall|k: int|
                0 <= k < chroma_dim(width as int) * chroma_dim(height as int) ==> (
                #[trigger] buf.spec_v()[k]) == yuy2_uv_byte(
                    src_yuy2@,
                    k,
                    width as int,
                    src_stride as int,
                    3,
                )
        },
{
    if width <= 0 || height <= 0 {
        return None;
    }
    let w = width as usize;
    let h = height as usize;
    let cw = (w + 1) / 2;
    let ch = (h + 1) / 2;
    if (src_stride as i64) < 4 * (cw as i64) {
        return None;
    }
    let stride = src_stride as usize;
    let src_len = src_yuy2.len();
    let pixels_opt = w.checked_mul(h);
    let pixels = match pixels_opt {
        Some(p) => p,
        None => {
            proof {
                assert(width * height > usize::MAX) by (nonlinear_arith)
                    requires
                        width == w as int,
                        height == h as int,
                        w * h > usize::MAX,
                        0 < w,
                        0 < h,
                ;
            }
            return None;
        },
    };
    let rows_opt = (h - 1).checked_mul(stride);
    let need = match rows_opt {
        Some(base) => {
            match base.checked_add(4 * cw) {
                Some(n) => n,
                None => {
                    return None;
                },
            }
        },
        None => {
            return None;
        },
    };
    if src_len < need {
        return None;
    }
    proof {
        vstd::arithmetic::mul::lemma_mul_upper_bound(cw as int, w as int, ch as int, h as int);
    }
    let mut y_plane: Vec<u8> = Vec::new();
    let mut i: usize = 0;
    while i < pixels
        invariant
            pixels == w * h,
            cw == chroma_dim(w as int),
            0 < w,
            0 < h,
            4 * cw <= stride,
            src_yuy2@.len() >= (h - 1) * stride + 4 * cw,
            src_yuy2@.len() <= usize::MAX,
            y_plane@.len() == i,
            i <= pixels,
            forall|j: int|
                0 <= j < i ==> (#[trigger] y_plane@[j]) == yuy2_y_byte(
                    src_yuy2@,
                    j,
                    w as int,
                    stride as int,
                ),
        decreases pixels - i,
    {
        let c = i % w;
        let rr = i / w;
        proof {
            lemma_flat_index_split(i as int, w as int, h as int);
            assert(2 * (c as int) < 4 * (cw as int)) by (nonlinear_arith)
                requires
                    0 <= c < w,
                    cw == (w + 1) / 2,
            ;
            lemma_row_byte_in_range(
                rr as int,
                2 * (c as int),
                h as int,
                stride as int,
                4 * (cw as int),
                src_yuy2@.len() as int,
            );
        }
        y_plane.push(src_yuy2[rr * stride + 2 * c]);
        i = i + 1;
    }
    let chroma_pixels = cw * ch;
    let mut u_plane: Vec<u8> = Vec::new();
    let mut v_plane: Vec<u8> = Vec::new();
    let mut k: usize = 0;
    while k < chroma_pixels
        invariant
            chroma_pixels == cw * ch,
            cw == chroma_dim(w as int),
            ch == chroma_dim(h as int),
            0 < w,
            0 < h,
            0 < cw,
            0 < ch,
            4 * cw <= stride,
            src_yuy2@.len() >= (h - 1) * stride + 4 * cw,
            src_yuy2@.len() <= usize::MAX,
            u_plane@.len() == k,
            v_plane@.len() == k,
            k <= chroma_pixels,
            forall|j: int|
                0 <= j < k ==> (#[trigger] u_plane@[j]) == yuy2_uv_byte(
                    src_yuy2@,
                    j,
                    w as int,
                    stride as int,
                    1,
                ),
            forall|j: int|
                0 <= j < k ==> (#[trigger] v_plane@[j]) == yuy2_uv_byte(
                    src_yuy2@,
                    j,
                    w as int,
                    stride as int,
                    3,
                ),
        decreases chroma_pixels - k,
    {
        let cx = k % cw;
        let cy = k / cw;
        proof {
            lemma_flat_index_split(k as int, cw as int, ch as int);
            lemma_chroma_index_in_range(k as int, cw as int, ch as int, w as int, h as int);
            assert(4 * (cx as int) + 3 < 4 * (cw as int)) by (nonlinear_arith)
                requires
                    0 <= cx < cw,
            ;
            lemma_row_byte_in_range(
                2 * (cy as int),
                4 * (cx as int) + 3,
                h as int,
                stride as int,
                4 * (cw as int),
                src_yuy2@.len() as int,
            );
        }
        u_plane.push(src_yuy2[(2 * cy) * stride + 4 * cx + 1]);
        v_plane.push(src_yuy2[(2 * cy) * stride + 4 * cx + 3]);
        k = k + 1;
    }
    let buf = I420Buffer::from_planes(width, height, y_plane, u_plane, v_plane);
    Some(buf)
}

} // verus!
