//! Conversion of the guest framebuffer to RGBA for display on the host.
//!
//! The framebuffer is read as bytes: `height` rows of `stride` bytes, each
//! starting with `width` pixels in the format the driver reports. Multi-byte
//! pixels are little-endian, as on the card's host.
use vstd::prelude::*;
use crate::ioctl::PixelFormat;

verus! {

/// Bytes per source pixel of a format code; 0 for an unknown code.
pub open spec fn bytes_per_pixel(format: u32) -> int {
    if format == 0 {
        1
    } else if format == 1 {
        2
    } else if format == 2 {
        3
    } else if format == 3 {
        4
    } else {
        0
    }
}

/// A 5-bit channel widened to 8 bits by repeating its high bits.
pub open spec fn widen5(c: int) -> u8 {
    (c * 8 + c / 4) as u8
}

/// A 6-bit channel widened to 8 bits by repeating its high bits.
pub open spec fn widen6(c: int) -> u8 {
    (c * 4 + c / 16) as u8
}

/// The RGBA value of the source pixel at byte `at`. Indexed pixels show as
/// grey (no palette is available); RGB888 and XRGB8888 are stored blue
/// first; an unknown format shows as opaque magenta.
pub open spec fn pixel_rgba(src: Seq<u8>, at: int, format: u32) -> Seq<u8> {
    if format == 0 {
        seq![src[at], src[at], src[at], 255u8]
    } else if format == 1 {
        let p = src[at] as int + src[at + 1] as int * 256;
        seq![widen5(p / 2048 % 32), widen6(p / 32 % 64), widen5(p % 32), 255u8]
    } else if format == 2 || format == 3 {
        seq![src[at + 2], src[at + 1], src[at], 255u8]
    } else {
        seq![255u8, 0u8, 255u8, 255u8]
    }
}

/// The RGBA bytes of the first `w` pixels of the row starting at byte `base`.
pub open spec fn row_rgba(src: Seq<u8>, base: int, format: u32, w: nat) -> Seq<u8>
    decreases w,
{
    if w == 0 {
        Seq::empty()
    } else {
        row_rgba(src, base, format, (w - 1) as nat) + pixel_rgba(
            src,
            base + (w - 1) * bytes_per_pixel(format),
            format,
        )
    }
}

/// The RGBA bytes of the first `h` rows of a frame `w` pixels wide.
pub open spec fn frame_rgba(src: Seq<u8>, w: nat, h: nat, stride: int, format: u32) -> Seq<u8>
    decreases h,
{
    if h == 0 {
        Seq::empty()
    } else {
        frame_rgba(src, w, (h - 1) as nat, stride, format) + row_rgba(
            src,
            (h - 1) * stride,
            format,
            w,
        )
    }
}

/// The source holds every pixel of a `w` by `h` frame.
pub open spec fn frame_fits(src_len: int, w: int, h: int, stride: int, format: u32) -> bool {
    src_len > 0 && (bytes_per_pixel(format) == 0 || (h - 1) * stride + w * bytes_per_pixel(format)
        <= src_len)
}

/// Appends the RGBA value of the source pixel at byte `at`.
fn push_pixel(out: &mut Vec<u8>, src: &[u8], at: usize, format: u32)
    requires
        at + bytes_per_pixel(format) <= src@.len(),
    ensures
        final(out)@ == old(out)@ + pixel_rgba(src@, at as int, format),
{
    let _len = src.len();
    let px: [u8; 4] = if format == 0 {
        let v = src[at];
        [v, v, v, 255]
    } else if format == 1 {
        let lo = src[at];
        let hi = src[at + 1];
        let p: u16 = (lo as u16) | ((hi as u16) << 8u16);
        assert(p == lo as u16 + hi as u16 * 256u16) by (bit_vector)
            requires
                p == (lo as u16) | ((hi as u16) << 8u16),
        ;
        let r: u16 = (p >> 11u16) & 0x1F;
        let g: u16 = (p >> 5u16) & 0x3F;
        let b: u16 = p & 0x1F;
        assert(r == p / 2048 % 32 && g == p / 32 % 64 && b == p % 32) by (bit_vector)
            requires
                r == (p >> 11u16) & 0x1F,
                g == (p >> 5u16) & 0x3F,
                b == p & 0x1F,
        ;
        let rr: u16 = (r << 3u16) | (r >> 2u16);
        let gg: u16 = (g << 2u16) | (g >> 4u16);
        let bb: u16 = (b << 3u16) | (b >> 2u16);
        assert(rr == r * 8 + r / 4 && bb == b * 8 + b / 4 && gg == g * 4 + g / 16 && rr < 256 && gg
            < 256 && bb < 256) by (bit_vector)
            requires
                r < 32,
                g < 64,
                b < 32,
                rr == (r << 3u16) | (r >> 2u16),
                gg == (g << 2u16) | (g >> 4u16),
                bb == (b << 3u16) | (b >> 2u16),
        ;
        [rr as u8, gg as u8, bb as u8, 255]
    } else if format == 2 || format == 3 {
        assert(bytes_per_pixel(format) >= 3);
        let a1: usize = at + 1;
        let a2: usize = at + 2;
        [src[a2], src[a1], src[at], 255]
    } else {
        [255, 0, 255, 255]
    };
    out.push(px[0]);
    out.push(px[1]);
    out.push(px[2]);
    out.push(px[3]);
    assert(px@ =~= pixel_rgba(src@, at as int, format));
    assert(out@ =~= old(out)@ + pixel_rgba(src@, at as int, format));
}

/// Converts a `width` by `height` frame of `stride`-byte rows in pixel
/// format `format` (a `PixelFormat` code) to RGBA, four bytes per pixel,
/// rows top to bottom. `None` for an empty frame, a source too short to
/// hold it, or an output too large to allocate.
pub fn framebuffer_to_rgba(src: &[u8], width: u32, height: u32, stride: u32, format: u32) -> (r: Option<Vec<u8>>)
    ensures
        r is Some <==> (width > 0 && height > 0 && frame_fits(
            src@.len() as int,
            width as int,
            height as int,
            stride as int,
            format,
        ) && width as int * height as int * 4 <= usize::MAX),
        r matches Some(v) ==> v@ == frame_rgba(
            src@,
            width as nat,
            height as nat,
            stride as int,
            format,
        ),
{
    if width == 0 || height == 0 || src.len() == 0 {
        return None;
    }
    let bpp: u32 = if format == 0 {
        1
    } else if format == 1 {
        2
    } else if format == 2 {
        3
    } else if format == 3 {
        4
    } else {
        0
    };
    assert((height as int - 1) * stride as int <= 0xFFFF_FFFF * 0xFFFF_FFFF) by (nonlinear_arith)
        requires
            height >= 1,
    ;
    assert(width as int * bpp as int <= 0xFFFF_FFFF * 4) by (nonlinear_arith)
        requires
            bpp <= 4,
    ;
    assert(width as int * height as int <= 0xFFFF_FFFF * 0xFFFF_FFFF) by (nonlinear_arith);
    let needed: u128 = (height as u128 - 1) * stride as u128 + width as u128 * bpp as u128;
    if bpp != 0 && needed > src.len() as u128 {
        return None;
    }
    let out_len: u128 = width as u128 * height as u128 * 4;
    if out_len > usize::MAX as u128 {
        return None;
    }
    let _src_len = src.len();
    let ghost w = width as nat;
    let ghost fits = bpp == 0 || (height as int - 1) * stride as int + width as int * bpp as int
        <= src@.len();
    assert(fits);
    let mut out: Vec<u8> = Vec::new();
    let mut y: u32 = 0;
    while y < height
        invariant
            0 <= y <= height,
            src@.len() > 0,
            src@.len() <= usize::MAX,
            bpp as int == bytes_per_pixel(format),
            bpp == 0 || (height as int - 1) * stride as int + width as int * bpp as int <= src@.len(),
            out@ == frame_rgba(src@, w, y as nat, stride as int, format),
            w == width as nat,
            height > 0,
        decreases height - y,
    {
        let ghost before = out@;
        let row_base: usize = if bpp == 0 {
            0
        } else {
            assert(y as int * stride as int <= (height as int - 1) * stride as int) by (nonlinear_arith)
                requires
                    y < height,
            ;
            assert(y as int * stride as int <= 0xFFFF_FFFF * 0xFFFF_FFFF) by (nonlinear_arith);
            assert(width as int * bpp as int >= 0) by (nonlinear_arith);
            let wide: u64 = y as u64 * stride as u64;
            assert(wide as int <= src@.len());
            wide as usize
        };
        let mut x: u32 = 0;
        while x < width
            invariant
                0 <= x <= width,
                y < height,
                src@.len() > 0,
                src@.len() <= usize::MAX,
                bpp as int == bytes_per_pixel(format),
                bpp == 0 || (height as int - 1) * stride as int + width as int * bpp as int
                    <= src@.len(),
                bpp != 0 ==> row_base as int == y as int * stride as int,
                bpp != 0 ==> y as int * stride as int <= (height as int - 1) * stride as int,
                out@ == before + row_rgba(src@, y as int * stride as int, format, x as nat),
                before == frame_rgba(src@, w, y as nat, stride as int, format),
                w == width as nat,
            decreases width - x,
        {
            let at: usize = if bpp == 0 {
                0
            } else {
                assert(x as int * bpp as int <= width as int * bpp as int) by (nonlinear_arith)
                    requires
                        x < width,
                ;
                assert((x as int + 1) * bpp as int <= width as int * bpp as int) by (nonlinear_arith)
                    requires
                        x < width,
                ;
                assert(x as int * bpp as int + bpp as int == (x as int + 1) * bpp as int)
                    by (nonlinear_arith);
                assert(width as int * bpp as int <= src@.len());
                assert(x as int * bpp as int <= src@.len());
                let off: usize = (x as usize) * (bpp as usize);
                row_base + off
            };
            proof {
                if bpp == 0 {
                    assert(src@.len() > 0);
                }
            }
            let ghost mid = out@;
            push_pixel(&mut out, src, at, format);
            proof {
                if bpp == 0 {
                    assert(pixel_rgba(src@, at as int, format) == pixel_rgba(
                        src@,
                        y as int * stride as int + x as int * bytes_per_pixel(format),
                        format,
                    ));
                }
                assert(out@ =~= before + row_rgba(src@, y as int * stride as int, format, (x + 1) as nat));
            }
            x = x + 1;
        }
        assert(out@ =~= frame_rgba(src@, w, (y + 1) as nat, stride as int, format));
        y = y + 1;
    }
    Some(out)
}

/// The pixel format that a framebuffer's format code names, if any.
pub fn pixel_format_of(code: u32) -> (r: Option<PixelFormat>)
    ensures
        (bytes_per_pixel(code) != 0) <==> r is Some,
        r matches Some(f) ==> f.spec_code() == code,
{
    PixelFormat::from_code(code)
}

} // verus!
