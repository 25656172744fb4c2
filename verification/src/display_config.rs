//! Panel configuration choices a display test can combine.

use vstd::prelude::*;

use crate::timing::TimingConfig;

verus! {

/// Pixel encoding, in both channel orders the panel accepts.
#[derive(Clone, Copy, Debug, PartialEq, Eq, Structural)]
pub enum ColorFormat {
    RGB565,
    RGB666,
    RGB888,
    BGR565,
    BGR666,
    BGR888,
}

/// The format swaps the red and blue channels.
pub open spec fn spec_is_bgr(format: ColorFormat) -> bool {
    format is BGR565 || format is BGR666 || format is BGR888
}

impl ColorFormat {
    /// Parameter byte of the pixel-format command for this encoding.
    pub fn pixel_format_param(self) -> (r: u8)
        ensures
            (self is RGB565 || self is BGR565) ==> r == 0x55,
            (self is RGB666 || self is BGR666) ==> r == 0x66,
            (self is RGB888 || self is BGR888) ==> r == 0x77,
    {
        match self {
            ColorFormat::RGB565 | ColorFormat::BGR565 => 0x55,
            ColorFormat::RGB666 | ColorFormat::BGR666 => 0x66,
            ColorFormat::RGB888 | ColorFormat::BGR888 => 0x77,
        }
    }

    /// Bytes one pixel occupies on the wire.
    pub fn bytes_per_pixel(self) -> (r: usize)
        ensures
            r == spec_bytes_per_pixel(self),
    {
        match self {
            ColorFormat::RGB565 | ColorFormat::BGR565 => 2,
            ColorFormat::RGB666 | ColorFormat::BGR666 => 3,
            ColorFormat::RGB888 | ColorFormat::BGR888 => 3,
        }
    }

    /// Display label of the encoding.
    pub fn name(self) -> (r: &'static str)
        ensures
            self is RGB565 ==> r@ == "RGB565"@,
            self is RGB666 ==> r@ == "RGB666"@,
            self is RGB888 ==> r@ == "RGB888"@,
            self is BGR565 ==> r@ == "BGR565"@,
            self is BGR666 ==> r@ == "BGR666"@,
            self is BGR888 ==> r@ == "BGR888"@,
    {
        match self {
            ColorFormat::RGB565 => "RGB565",
            ColorFormat::RGB666 => "RGB666",
            ColorFormat::RGB888 => "RGB888",
            ColorFormat::BGR565 => "BGR565",
            ColorFormat::BGR666 => "BGR666",
            ColorFormat::BGR888 => "BGR888",
        }
    }

    /// Whether the encoding swaps the red and blue channels.
    pub fn is_bgr(self) -> (r: bool)
        ensures
            r == spec_is_bgr(self),
    {
        matches!(self, ColorFormat::BGR565 | ColorFormat::BGR666 | ColorFormat::BGR888)
    }
}

/// Bytes one pixel of the format occupies on the wire.
pub open spec fn spec_bytes_per_pixel(format: ColorFormat) -> usize {
    match format {
        ColorFormat::RGB565 | ColorFormat::BGR565 => 2,
        ColorFormat::RGB666 | ColorFormat::BGR666 => 3,
        ColorFormat::RGB888 | ColorFormat::BGR888 => 3,
    }
}

/// Order of the two bytes of a 16-bit pixel.
#[derive(Clone, Copy, Debug, PartialEq, Eq, Structural)]
pub enum ByteOrder {
    LittleEndian,
    BigEndian,
}

impl ByteOrder {
    /// Display label of the order.
    pub fn name(self) -> (r: &'static str)
        ensures
            self is LittleEndian ==> r@ == "Little-endian"@,
            self is BigEndian ==> r@ == "Big-endian"@,
    {
        match self {
            ByteOrder::LittleEndian => "Little-endian",
            ByteOrder::BigEndian => "Big-endian",
        }
    }
}

/// Order of the bits within a transferred byte.
#[derive(Clone, Copy, Debug, PartialEq, Eq, Structural)]
pub enum BitOrder {
    MSBFirst,
    LSBFirst,
}

impl BitOrder {
    /// Display label of the order.
    pub fn name(self) -> (r: &'static str)
        ensures
            self is MSBFirst ==> r@ == "MSB First"@,
            self is LSBFirst ==> r@ == "LSB First"@,
    {
        match self {
            BitOrder::MSBFirst => "MSB First",
            BitOrder::LSBFirst => "LSB First",
        }
    }
}

/// Number of data lines the bus drives.
#[derive(Clone, Copy, Debug, PartialEq, Eq, Structural)]
pub enum QspiMode {
    Quad,
    Dual,
    Single,
}

impl QspiMode {
    /// Display label of the mode.
    pub fn name(self) -> (r: &'static str)
        ensures
            self is Quad ==> r@ == "Quad"@,
            self is Dual ==> r@ == "Dual"@,
            self is Single ==> r@ == "Single"@,
    {
        match self {
            QspiMode::Quad => "Quad",
            QspiMode::Dual => "Dual",
            QspiMode::Single => "Single",
        }
    }
}

/// One complete panel configuration under test.
#[derive(Clone, Copy, Debug, PartialEq, Eq, Structural)]
pub struct DisplayConfig {
    pub format: ColorFormat,
    pub byte_order: ByteOrder,
    pub bit_order: BitOrder,
    pub qspi_mode: QspiMode,
    pub timing: TimingConfig,
}

} // verus!
