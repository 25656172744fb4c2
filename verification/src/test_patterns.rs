//! Solid-red fill patterns: the byte sequence a full-red frame takes in
//! each pixel encoding and byte order.

use vstd::prelude::*;

use crate::display_config::ByteOrder;
use crate::display_config::ColorFormat;
use crate::display_config::DisplayConfig;
use crate::display_config::spec_bytes_per_pixel;
use crate::display_config::spec_is_bgr;

verus! {

/// `pattern` laid end to end `n` times.
pub open spec fn repeated(pattern: Seq<u8>, n: nat) -> Seq<u8>
    decreases n,
{
    if n == 0 {
        Seq::empty()
    } else {
        repeated(pattern, (n - 1) as nat) + pattern
    }
}

/// Low byte of a 16-bit value.
pub open spec fn low_byte(v: u16) -> u8 {
    (v & 0xFF) as u8
}

/// High byte of a 16-bit value.
pub open spec fn high_byte(v: u16) -> u8 {
    (v >> 8) as u8
}

/// The two wire bytes of a 16-bit pixel value in the given byte order.
pub open spec fn pair_bytes(v: u16, order: ByteOrder) -> Seq<u8> {
    match order {
        ByteOrder::BigEndian => seq![high_byte(v), low_byte(v)],
        ByteOrder::LittleEndian => seq![low_byte(v), high_byte(v)],
    }
}

/// Full red as a 16-bit 565 pixel: the blue field when the channels are
/// swapped, the red field otherwise.
pub open spec fn red_565_value(format: ColorFormat) -> u16 {
    if format is BGR565 {
        0x001F
    } else {
        0xF800
    }
}

/// Full red as three 666 wire bytes.
pub open spec fn red_666_bytes(format: ColorFormat) -> Seq<u8> {
    if spec_is_bgr(format) {
        seq![0x00u8, 0x00u8, 0xFCu8]
    } else {
        seq![0xFCu8, 0x00u8, 0x00u8]
    }
}

/// Full red as three 888 wire bytes.
pub open spec fn red_888_bytes(format: ColorFormat) -> Seq<u8> {
    if spec_is_bgr(format) {
        seq![0x00u8, 0x00u8, 0xFFu8]
    } else {
        seq![0xFFu8, 0x00u8, 0x00u8]
    }
}

/// The wire bytes of one full-red pixel under a configuration.
pub open spec fn red_pixel_bytes(cfg: DisplayConfig) -> Seq<u8> {
    match cfg.format {
        ColorFormat::RGB565 | ColorFormat::BGR565 => pair_bytes(
            red_565_value(cfg.format),
            cfg.byte_order,
        ),
        ColorFormat::RGB666 | ColorFormat::BGR666 => red_666_bytes(cfg.format),
        ColorFormat::RGB888 | ColorFormat::BGR888 => red_888_bytes(cfg.format),
    }
}

/// Full red as a 16-bit 565 pixel.
fn red_rgb565(format: ColorFormat) -> (r: u16)
    ensures
        r == red_565_value(format),
{
    match format {
        ColorFormat::BGR565 => 0x001F,
        _ => 0xF800,
    }
}

/// Full red as three 666 wire bytes.
fn red_rgb666(format: ColorFormat) -> (r: (u8, u8, u8))
    ensures
        r.0 == red_666_bytes(format)[0],
        r.1 == red_666_bytes(format)[1],
        r.2 == red_666_bytes(format)[2],
{
    if format.is_bgr() {
        (0x00, 0x00, 0xFC)
    } else {
        (0xFC, 0x00, 0x00)
    }
}

/// Full red as three 888 wire bytes.
fn red_rgb888(format: ColorFormat) -> (r: (u8, u8, u8))
    ensures
        r.0 == red_888_bytes(format)[0],
        r.1 == red_888_bytes(format)[1],
        r.2 == red_888_bytes(format)[2],
{
    if format.is_bgr() {
        (0x00, 0x00, 0xFF)
    } else {
        (0xFF, 0x00, 0x00)
    }
}

/// Write `pixels` copies of a two-byte pixel at the front of `buf`,
/// leaving the rest untouched.
fn fill_16bpp(buf: &mut Vec<u8>, pixels: usize, value: u16, order: ByteOrder)
    requires
        2 * pixels <= old(buf).len(),
    ensures
        final(buf).len() == old(buf).len(),
        final(buf)@.subrange(0, 2 * pixels as int) == repeated(pair_bytes(value, order), pixels as nat),
        final(buf)@.subrange(2 * pixels as int, old(buf).len() as int) == old(buf)@.subrange(
            2 * pixels as int,
            old(buf).len() as int,
        ),
{
    let hi = (value >> 8) as u8;
    let lo = (value & 0xFF) as u8;
    let (b0, b1) = match order {
        ByteOrder::BigEndian => (hi, lo),
        ByteOrder::LittleEndian => (lo, hi),
    };
    proof {
        assert(pair_bytes(value, order) =~= seq![b0, b1]);
    }
    let mut i: usize = 0;
    while i < pixels
        invariant
            2 * pixels <= buf.len(),
            buf.len() == old(buf).len(),
            i <= pixels,
            pair_bytes(value, order) == seq![b0, b1],
            buf@.subrange(0, 2 * i as int) == repeated(seq![b0, b1], i as nat),
            buf@.skip(2 * i as int) == old(buf)@.skip(2 * i as int),
        decreases pixels - i,
    {
        let ghost before = buf@;
        let idx = i * 2;
        buf[idx] = b0;
        buf[idx + 1] = b1;
        proof {
            assert(buf@.subrange(0, 2 * (i + 1)) =~= before.subrange(0, 2 * i as int) + seq![
                b0,
                b1,
            ]);
            assert(repeated(seq![b0, b1], (i + 1) as nat) == repeated(seq![b0, b1], i as nat)
                + seq![b0, b1]);
            assert(buf@.skip(2 * (i + 1)) =~= before.skip(2 * i as int).skip(2));
            assert(before.skip(2 * i as int).skip(2) =~= old(buf)@.skip(2 * (i + 1)));
        }
        i = i + 1;
    }
    proof {
        assert(buf@.subrange(0, 2 * pixels as int) =~= buf@.subrange(0, 2 * i as int));
        assert(buf@.subrange(2 * pixels as int, old(buf).len() as int) =~= old(buf)@.subrange(
            2 * pixels as int,
            old(buf).len() as int,
        ));
    }
}

/// Write `pixels` copies of a three-byte pixel at the front of `buf`,
/// leaving the rest untouched.
fn fill_24bpp(buf: &mut Vec<u8>, pixels: usize, b0: u8, b1: u8, b2: u8)
    requires
        3 * pixels <= old(buf).len(),
    ensures
        final(buf).len() == old(buf).len(),
        final(buf)@.subrange(0, 3 * pixels as int) == repeated(seq![b0, b1, b2], pixels as nat),
        final(buf)@.subrange(3 * pixels as int, old(buf).len() as int) == old(buf)@.subrange(
            3 * pixels as int,
            old(buf).len() as int,
        ),
{
    let mut i: usize = 0;
    while i < pixels
        invariant
            3 * pixels <= buf.len(),
            buf.len() == old(buf).len(),
            i <= pixels,
            buf@.subrange(0, 3 * i as int) == repeated(seq![b0, b1, b2], i as nat),
            buf@.skip(3 * i as int) == old(buf)@.skip(3 * i as int),
        decreases pixels - i,
    {
        let ghost before = buf@;
        let idx = i * 3;
        buf[idx] = b0;
        buf[idx + 1] = b1;
        buf[idx + 2] = b2;
        proof {
            assert(buf@.subrange(0, 3 * (i + 1)) =~= before.subrange(0, 3 * i as int) + seq![
                b0,
                b1,
                b2,
            ]);
            assert(repeated(seq![b0, b1, b2], (i + 1) as nat) == repeated(seq![b0, b1, b2], i as nat)
                + seq![b0, b1, b2]);
            assert(buf@.skip(3 * (i + 1)) =~= before.skip(3 * i as int).skip(3));
            assert(before.skip(3 * i as int).skip(3) =~= old(buf)@.skip(3 * (i + 1)));
        }
        i = i + 1;
    }
    proof {
        assert(buf@.subrange(0, 3 * pixels as int) =~= buf@.subrange(0, 3 * i as int));
        assert(buf@.subrange(3 * pixels as int, old(buf).len() as int) =~= old(buf)@.subrange(
            3 * pixels as int,
            old(buf).len() as int,
        ));
    }
}

/// Fill the front of `buf` with `width * height` full-red pixels in the
/// configured encoding and byte order, leaving the rest untouched.
pub fn fill_red_chunk(buf: &mut Vec<u8>, width: usize, height: usize, cfg: &DisplayConfig)
    requires
        width * height * spec_bytes_per_pixel(cfg.format) <= old(buf).len(),
    ensures
        final(buf).len() == old(buf).len(),
        final(buf)@.subrange(0, width * height * spec_bytes_per_pixel(cfg.format) as int)
            == repeated(red_pixel_bytes(*cfg), (width * height) as nat),
        final(buf)@.subrange(
            width * height * spec_bytes_per_pixel(cfg.format) as int,
            old(buf).len() as int,
        ) == old(buf)@.subrange(
            width * height * spec_bytes_per_pixel(cfg.format) as int,
            old(buf).len() as int,
        ),
{
    proof {
        vstd::arithmetic::mul::lemma_mul_inequality(
            2,
            spec_bytes_per_pixel(cfg.format) as int,
            (width * height) as int,
        );
        assert(width * height * 2 == 2 * (width * height)) by (nonlinear_arith);
        assert(width * height * 3 == 3 * (width * height)) by (nonlinear_arith);
    }
    let pixels = width * height;
    match cfg.format {
        ColorFormat::RGB565 | ColorFormat::BGR565 => {
            let pixel = red_rgb565(cfg.format);
            fill_16bpp(buf, pixels, pixel, cfg.byte_order);
        },
        ColorFormat::RGB666 | ColorFormat::BGR666 => {
            let (b0, b1, b2) = red_rgb666(cfg.format);
            fill_24bpp(buf, pixels, b0, b1, b2);
            proof {
                assert(seq![b0, b1, b2] =~= red_666_bytes(cfg.format));
            }
        },
        ColorFormat::RGB888 | ColorFormat::BGR888 => {
            let (b0, b1, b2) = red_rgb888(cfg.format);
            fill_24bpp(buf, pixels, b0, b1, b2);
            proof {
                assert(seq![b0, b1, b2] =~= red_888_bytes(cfg.format));
            }
        },
    }
}

} // verus!
