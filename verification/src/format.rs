//! The pixel formats the device can deliver, their geometry tables, and the
//! unpacking of raw frame bytes into 16-bit samples.

use vstd::prelude::*;

verus! {

/// A pixel format the device can deliver. Each format has a driver code
/// whose fields give the colour class, the bits each pixel occupies and a
/// format id; `code` and `from_code` convert between the two.
#[allow(non_camel_case_types)]
#[derive(Copy, Clone, Debug, PartialEq, Eq, Structural)]
pub enum PixelFormat {
    Mono8,
    Mono10,
    Mono10p,
    Mono12,
    Mono12Packed,
    Mono12p,
    Mono14,
    Mono16,
    BayerGR8,
    BayerRG8,
    BayerGB8,
    BayerBG8,
    BayerGR10,
    BayerRG10,
    BayerGB10,
    BayerBG10,
    BayerGR12,
    BayerRG12,
    BayerGB12,
    BayerBG12,
    BayerGR12Packed,
    BayerRG12Packed,
    BayerGB12Packed,
    BayerBG12Packed,
    BayerGR10p,
    BayerRG10p,
    BayerGB10p,
    BayerBG10p,
    BayerGR12p,
    BayerRG12p,
    BayerGB12p,
    BayerBG12p,
    BayerGR16,
    BayerRG16,
    BayerGB16,
    BayerBG16,
    Rgb8,
    Bgr8,
    Rgb10,
    Bgr10,
    Rgb12,
    Bgr12,
    Rgb14,
    Bgr14,
    Rgb16,
    Bgr16,
    Rgba8,
    Bgra8,
    Rgba10,
    Bgra10,
    Rgba12,
    Bgra12,
    Rgba14,
    Bgra14,
    Rgba16,
    Bgra16,
    Yuv411,
    Yuv422,
    Yuv444,
    YCbCr411_8_CbYYCrYY,
    YCbCr422_8_CbYCrY,
    YCbCr8_CbYCr,
}

/// The pixel format a given driver format code stands for, or `None` when
/// the code is not one the driver documents.
pub open spec fn spec_format_of_code(code: int) -> Option<PixelFormat> {
    if code == 0x01080001 {
        Some(PixelFormat::Mono8)
    } else if code == 0x01100003 {
        Some(PixelFormat::Mono10)
    } else if code == 0x010a0046 {
        Some(PixelFormat::Mono10p)
    } else if code == 0x01100005 {
        Some(PixelFormat::Mono12)
    } else if code == 0x010c0006 {
        Some(PixelFormat::Mono12Packed)
    } else if code == 0x010c0047 {
        Some(PixelFormat::Mono12p)
    } else if code == 0x01100025 {
        Some(PixelFormat::Mono14)
    } else if code == 0x01100007 {
        Some(PixelFormat::Mono16)
    } else if code == 0x01080008 {
        Some(PixelFormat::BayerGR8)
    } else if code == 0x01080009 {
        Some(PixelFormat::BayerRG8)
    } else if code == 0x0108000a {
        Some(PixelFormat::BayerGB8)
    } else if code == 0x0108000b {
        Some(PixelFormat::BayerBG8)
    } else if code == 0x0110000c {
        Some(PixelFormat::BayerGR10)
    } else if code == 0x0110000d {
        Some(PixelFormat::BayerRG10)
    } else if code == 0x0110000e {
        Some(PixelFormat::BayerGB10)
    } else if code == 0x0110000f {
        Some(PixelFormat::BayerBG10)
    } else if code == 0x01100010 {
        Some(PixelFormat::BayerGR12)
    } else if code == 0x01100011 {
        Some(PixelFormat::BayerRG12)
    } else if code == 0x01100012 {
        Some(PixelFormat::BayerGB12)
    } else if code == 0x01100013 {
        Some(PixelFormat::BayerBG12)
    } else if code == 0x010c002a {
        Some(PixelFormat::BayerGR12Packed)
    } else if code == 0x010c002b {
        Some(PixelFormat::BayerRG12Packed)
    } else if code == 0x010c002c {
        Some(PixelFormat::BayerGB12Packed)
    } else if code == 0x010c002d {
        Some(PixelFormat::BayerBG12Packed)
    } else if code == 0x010a0056 {
        Some(PixelFormat::BayerGR10p)
    } else if code == 0x010a0058 {
        Some(PixelFormat::BayerRG10p)
    } else if code == 0x010a0054 {
        Some(PixelFormat::BayerGB10p)
    } else if code == 0x010a0052 {
        Some(PixelFormat::BayerBG10p)
    } else if code == 0x010c0057 {
        Some(PixelFormat::BayerGR12p)
    } else if code == 0x010c0059 {
        Some(PixelFormat::BayerRG12p)
    } else if code == 0x010c0055 {
        Some(PixelFormat::BayerGB12p)
    } else if code == 0x010c0053 {
        Some(PixelFormat::BayerBG12p)
    } else if code == 0x0110002e {
        Some(PixelFormat::BayerGR16)
    } else if code == 0x0110002f {
        Some(PixelFormat::BayerRG16)
    } else if code == 0x01100030 {
        Some(PixelFormat::BayerGB16)
    } else if code == 0x01100031 {
        Some(PixelFormat::BayerBG16)
    } else if code == 0x02180014 {
        Some(PixelFormat::Rgb8)
    } else if code == 0x02180015 {
        Some(PixelFormat::Bgr8)
    } else if code == 0x02300018 {
        Some(PixelFormat::Rgb10)
    } else if code == 0x02300019 {
        Some(PixelFormat::Bgr10)
    } else if code == 0x0230001a {
        Some(PixelFormat::Rgb12)
    } else if code == 0x0230001b {
        Some(PixelFormat::Bgr12)
    } else if code == 0x0230005e {
        Some(PixelFormat::Rgb14)
    } else if code == 0x0230004a {
        Some(PixelFormat::Bgr14)
    } else if code == 0x02300033 {
        Some(PixelFormat::Rgb16)
    } else if code == 0x0230004b {
        Some(PixelFormat::Bgr16)
    } else if code == 0x02200016 {
        Some(PixelFormat::Rgba8)
    } else if code == 0x02200017 {
        Some(PixelFormat::Bgra8)
    } else if code == 0x0240005f {
        Some(PixelFormat::Rgba10)
    } else if code == 0x0240004c {
        Some(PixelFormat::Bgra10)
    } else if code == 0x02400061 {
        Some(PixelFormat::Rgba12)
    } else if code == 0x0240004e {
        Some(PixelFormat::Bgra12)
    } else if code == 0x02400063 {
        Some(PixelFormat::Rgba14)
    } else if code == 0x02400050 {
        Some(PixelFormat::Bgra14)
    } else if code == 0x02400064 {
        Some(PixelFormat::Rgba16)
    } else if code == 0x02400051 {
        Some(PixelFormat::Bgra16)
    } else if code == 0x020c001e {
        Some(PixelFormat::Yuv411)
    } else if code == 0x0210001f {
        Some(PixelFormat::Yuv422)
    } else if code == 0x02180020 {
        Some(PixelFormat::Yuv444)
    } else if code == 0x020c003c {
        Some(PixelFormat::YCbCr411_8_CbYYCrYY)
    } else if code == 0x02100043 {
        Some(PixelFormat::YCbCr422_8_CbYCrY)
    } else if code == 0x0218003a {
        Some(PixelFormat::YCbCr8_CbYCr)
    } else {
        None
    }
}

impl PixelFormat {
    /// The driver code of this format, as `code` returns it.
    pub open spec fn spec_code(&self) -> u32 {
        match self {
            PixelFormat::Mono8 => 0x01080001,
            PixelFormat::Mono10 => 0x01100003,
            PixelFormat::Mono10p => 0x010a0046,
            PixelFormat::Mono12 => 0x01100005,
            PixelFormat::Mono12Packed => 0x010c0006,
            PixelFormat::Mono12p => 0x010c0047,
            PixelFormat::Mono14 => 0x01100025,
            PixelFormat::Mono16 => 0x01100007,
            PixelFormat::BayerGR8 => 0x01080008,
            PixelFormat::BayerRG8 => 0x01080009,
            PixelFormat::BayerGB8 => 0x0108000a,
            PixelFormat::BayerBG8 => 0x0108000b,
            PixelFormat::BayerGR10 => 0x0110000c,
            PixelFormat::BayerRG10 => 0x0110000d,
            PixelFormat::BayerGB10 => 0x0110000e,
            PixelFormat::BayerBG10 => 0x0110000f,
            PixelFormat::BayerGR12 => 0x01100010,
            PixelFormat::BayerRG12 => 0x01100011,
            PixelFormat::BayerGB12 => 0x01100012,
            PixelFormat::BayerBG12 => 0x01100013,
            PixelFormat::BayerGR12Packed => 0x010c002a,
            PixelFormat::BayerRG12Packed => 0x010c002b,
            PixelFormat::BayerGB12Packed => 0x010c002c,
            PixelFormat::BayerBG12Packed => 0x010c002d,
            PixelFormat::BayerGR10p => 0x010a0056,
            PixelFormat::BayerRG10p => 0x010a0058,
            PixelFormat::BayerGB10p => 0x010a0054,
            PixelFormat::BayerBG10p => 0x010a0052,
            PixelFormat::BayerGR12p => 0x010c0057,
            PixelFormat::BayerRG12p => 0x010c0059,
            PixelFormat::BayerGB12p => 0x010c0055,
            PixelFormat::BayerBG12p => 0x010c0053,
            PixelFormat::BayerGR16 => 0x0110002e,
            PixelFormat::BayerRG16 => 0x0110002f,
            PixelFormat::BayerGB16 => 0x01100030,
            PixelFormat::BayerBG16 => 0x01100031,
            PixelFormat::Rgb8 => 0x02180014,
            PixelFormat::Bgr8 => 0x02180015,
            PixelFormat::Rgb10 => 0x02300018,
            PixelFormat::Bgr10 => 0x02300019,
            PixelFormat::Rgb12 => 0x0230001a,
            PixelFormat::Bgr12 => 0x0230001b,
            PixelFormat::Rgb14 => 0x0230005e,
            PixelFormat::Bgr14 => 0x0230004a,
            PixelFormat::Rgb16 => 0x02300033,
            PixelFormat::Bgr16 => 0x0230004b,
            PixelFormat::Rgba8 => 0x02200016,
            PixelFormat::Bgra8 => 0x02200017,
            PixelFormat::Rgba10 => 0x0240005f,
            PixelFormat::Bgra10 => 0x0240004c,
            PixelFormat::Rgba12 => 0x02400061,
            PixelFormat::Bgra12 => 0x0240004e,
            PixelFormat::Rgba14 => 0x02400063,
            PixelFormat::Bgra14 => 0x02400050,
            PixelFormat::Rgba16 => 0x02400064,
            PixelFormat::Bgra16 => 0x02400051,
            PixelFormat::Yuv411 => 0x020c001e,
            PixelFormat::Yuv422 => 0x0210001f,
            PixelFormat::Yuv444 => 0x02180020,
            PixelFormat::YCbCr411_8_CbYYCrYY => 0x020c003c,
            PixelFormat::YCbCr422_8_CbYCrY => 0x02100043,
            PixelFormat::YCbCr8_CbYCr => 0x0218003a,
        }
    }

    /// The driver code of this format.
    pub fn code(&self) -> (r: u32)
        ensures
            r == self.spec_code(),
    {
        match self {
            PixelFormat::Mono8 => 0x01080001,
            PixelFormat::Mono10 => 0x01100003,
            PixelFormat::Mono10p => 0x010a0046,
            PixelFormat::Mono12 => 0x01100005,
            PixelFormat::Mono12Packed => 0x010c0006,
            PixelFormat::Mono12p => 0x010c0047,
            PixelFormat::Mono14 => 0x01100025,
            PixelFormat::Mono16 => 0x01100007,
            PixelFormat::BayerGR8 => 0x01080008,
            PixelFormat::BayerRG8 => 0x01080009,
            PixelFormat::BayerGB8 => 0x0108000a,
            PixelFormat::BayerBG8 => 0x0108000b,
            PixelFormat::BayerGR10 => 0x0110000c,
            PixelFormat::BayerRG10 => 0x0110000d,
            PixelFormat::BayerGB10 => 0x0110000e,
            PixelFormat::BayerBG10 => 0x0110000f,
            PixelFormat::BayerGR12 => 0x01100010,
            PixelFormat::BayerRG12 => 0x01100011,
            PixelFormat::BayerGB12 => 0x01100012,
            PixelFormat::BayerBG12 => 0x01100013,
            PixelFormat::BayerGR12Packed => 0x010c002a,
            PixelFormat::BayerRG12Packed => 0x010c002b,
            PixelFormat::BayerGB12Packed => 0x010c002c,
            PixelFormat::BayerBG12Packed => 0x010c002d,
            PixelFormat::BayerGR10p => 0x010a0056,
            PixelFormat::BayerRG10p => 0x010a0058,
            PixelFormat::BayerGB10p => 0x010a0054,
            PixelFormat::BayerBG10p => 0x010a0052,
            PixelFormat::BayerGR12p => 0x010c0057,
            PixelFormat::BayerRG12p => 0x010c0059,
            PixelFormat::BayerGB12p => 0x010c0055,
            PixelFormat::BayerBG12p => 0x010c0053,
            PixelFormat::BayerGR16 => 0x0110002e,
            PixelFormat::BayerRG16 => 0x0110002f,
            PixelFormat::BayerGB16 => 0x01100030,
            PixelFormat::BayerBG16 => 0x01100031,
            PixelFormat::Rgb8 => 0x02180014,
            PixelFormat::Bgr8 => 0x02180015,
            PixelFormat::Rgb10 => 0x02300018,
            PixelFormat::Bgr10 => 0x02300019,
            PixelFormat::Rgb12 => 0x0230001a,
            PixelFormat::Bgr12 => 0x0230001b,
            PixelFormat::Rgb14 => 0x0230005e,
            PixelFormat::Bgr14 => 0x0230004a,
            PixelFormat::Rgb16 => 0x02300033,
            PixelFormat::Bgr16 => 0x0230004b,
            PixelFormat::Rgba8 => 0x02200016,
            PixelFormat::Bgra8 => 0x02200017,
            PixelFormat::Rgba10 => 0x0240005f,
            PixelFormat::Bgra10 => 0x0240004c,
            PixelFormat::Rgba12 => 0x02400061,
            PixelFormat::Bgra12 => 0x0240004e,
            PixelFormat::Rgba14 => 0x02400063,
            PixelFormat::Bgra14 => 0x02400050,
            PixelFormat::Rgba16 => 0x02400064,
            PixelFormat::Bgra16 => 0x02400051,
            PixelFormat::Yuv411 => 0x020c001e,
            PixelFormat::Yuv422 => 0x0210001f,
            PixelFormat::Yuv444 => 0x02180020,
            PixelFormat::YCbCr411_8_CbYYCrYY => 0x020c003c,
            PixelFormat::YCbCr422_8_CbYCrY => 0x02100043,
            PixelFormat::YCbCr8_CbYCr => 0x0218003a,
        }
    }

    /// The pixel format for a driver format code, or `None` for an
    /// undocumented code.
    pub fn from_code(code: u32) -> (r: Option<PixelFormat>)
        ensures
            r == spec_format_of_code(code as int),
    {
        match code {
            0x01080001 => Some(PixelFormat::Mono8),
            0x01100003 => Some(PixelFormat::Mono10),
            0x010a0046 => Some(PixelFormat::Mono10p),
            0x01100005 => Some(PixelFormat::Mono12),
            0x010c0006 => Some(PixelFormat::Mono12Packed),
            0x010c0047 => Some(PixelFormat::Mono12p),
            0x01100025 => Some(PixelFormat::Mono14),
            0x01100007 => Some(PixelFormat::Mono16),
            0x01080008 => Some(PixelFormat::BayerGR8),
            0x01080009 => Some(PixelFormat::BayerRG8),
            0x0108000a => Some(PixelFormat::BayerGB8),
            0x0108000b => Some(PixelFormat::BayerBG8),
            0x0110000c => Some(PixelFormat::BayerGR10),
            0x0110000d => Some(PixelFormat::BayerRG10),
            0x0110000e => Some(PixelFormat::BayerGB10),
            0x0110000f => Some(PixelFormat::BayerBG10),
            0x01100010 => Some(PixelFormat::BayerGR12),
            0x01100011 => Some(PixelFormat::BayerRG12),
            0x01100012 => Some(PixelFormat::BayerGB12),
            0x01100013 => Some(PixelFormat::BayerBG12),
            0x010c002a => Some(PixelFormat::BayerGR12Packed),
            0x010c002b => Some(PixelFormat::BayerRG12Packed),
            0x010c002c => Some(PixelFormat::BayerGB12Packed),
            0x010c002d => Some(PixelFormat::BayerBG12Packed),
            0x010a0056 => Some(PixelFormat::BayerGR10p),
            0x010a0058 => Some(PixelFormat::BayerRG10p),
            0x010a0054 => Some(PixelFormat::BayerGB10p),
            0x010a0052 => Some(PixelFormat::BayerBG10p),
            0x010c0057 => Some(PixelFormat::BayerGR12p),
            0x010c0059 => Some(PixelFormat::BayerRG12p),
            0x010c0055 => Some(PixelFormat::BayerGB12p),
            0x010c0053 => Some(PixelFormat::BayerBG12p),
            0x0110002e => Some(PixelFormat::BayerGR16),
            0x0110002f => Some(PixelFormat::BayerRG16),
            0x01100030 => Some(PixelFormat::BayerGB16),
            0x01100031 => Some(PixelFormat::BayerBG16),
            0x02180014 => Some(PixelFormat::Rgb8),
            0x02180015 => Some(PixelFormat::Bgr8),
            0x02300018 => Some(PixelFormat::Rgb10),
            0x02300019 => Some(PixelFormat::Bgr10),
            0x0230001a => Some(PixelFormat::Rgb12),
            0x0230001b => Some(PixelFormat::Bgr12),
            0x0230005e => Some(PixelFormat::Rgb14),
            0x0230004a => Some(PixelFormat::Bgr14),
            0x02300033 => Some(PixelFormat::Rgb16),
            0x0230004b => Some(PixelFormat::Bgr16),
            0x02200016 => Some(PixelFormat::Rgba8),
            0x02200017 => Some(PixelFormat::Bgra8),
            0x0240005f => Some(PixelFormat::Rgba10),
            0x0240004c => Some(PixelFormat::Bgra10),
            0x02400061 => Some(PixelFormat::Rgba12),
            0x0240004e => Some(PixelFormat::Bgra12),
            0x02400063 => Some(PixelFormat::Rgba14),
            0x02400050 => Some(PixelFormat::Bgra14),
            0x02400064 => Some(PixelFormat::Rgba16),
            0x02400051 => Some(PixelFormat::Bgra16),
            0x020c001e => Some(PixelFormat::Yuv411),
            0x0210001f => Some(PixelFormat::Yuv422),
            0x02180020 => Some(PixelFormat::Yuv444),
            0x020c003c => Some(PixelFormat::YCbCr411_8_CbYYCrYY),
            0x02100043 => Some(PixelFormat::YCbCr422_8_CbYCrY),
            0x0218003a => Some(PixelFormat::YCbCr8_CbYCr),
            _ => None,
        }
    }

    /// The number of bits one whole pixel occupies, as `bits_per_pixel`
    /// returns it.
    pub open spec fn spec_bits_per_pixel(&self) -> usize {
        match self {
            PixelFormat::Mono8 | PixelFormat::BayerGR8 | PixelFormat::BayerRG8 | PixelFormat::BayerGB8 | PixelFormat::BayerBG8 => 8,
            PixelFormat::Mono10 | PixelFormat::Mono12 | PixelFormat::Mono14 | PixelFormat::Mono16 | PixelFormat::BayerGR10 | PixelFormat::BayerRG10 | PixelFormat::BayerGB10 | PixelFormat::BayerBG10 | PixelFormat::BayerGR12 | PixelFormat::BayerRG12 | PixelFormat::BayerGB12 | PixelFormat::BayerBG12 | PixelFormat::BayerGR16 | PixelFormat::BayerRG16 | PixelFormat::BayerGB16 | PixelFormat::BayerBG16 | PixelFormat::Yuv422 | PixelFormat::YCbCr422_8_CbYCrY => 16,
            PixelFormat::Mono10p | PixelFormat::BayerGR10p | PixelFormat::BayerRG10p | PixelFormat::BayerGB10p | PixelFormat::BayerBG10p => 10,
            PixelFormat::Mono12Packed | PixelFormat::Mono12p | PixelFormat::BayerGR12Packed | PixelFormat::BayerRG12Packed | PixelFormat::BayerGB12Packed | PixelFormat::BayerBG12Packed | PixelFormat::BayerGR12p | PixelFormat::BayerRG12p | PixelFormat::BayerGB12p | PixelFormat::BayerBG12p | PixelFormat::Yuv411 | PixelFormat::YCbCr411_8_CbYYCrYY => 12,
            PixelFormat::Rgb8 | PixelFormat::Bgr8 | PixelFormat::Yuv444 | PixelFormat::YCbCr8_CbYCr => 24,
            PixelFormat::Rgb10 | PixelFormat::Bgr10 | PixelFormat::Rgb12 | PixelFormat::Bgr12 | PixelFormat::Rgb14 | PixelFormat::Bgr14 | PixelFormat::Rgb16 | PixelFormat::Bgr16 => 48,
            PixelFormat::Rgba8 | PixelFormat::Bgra8 => 32,
            PixelFormat::Rgba10 | PixelFormat::Bgra10 | PixelFormat::Rgba12 | PixelFormat::Bgra12 | PixelFormat::Rgba14 | PixelFormat::Bgra14 | PixelFormat::Rgba16 | PixelFormat::Bgra16 => 64,
        }
    }

    /// The number of bits one whole pixel occupies in the raw buffer: the
    /// occupancy field of the driver code.
    pub fn bits_per_pixel(&self) -> (r: usize)
        ensures
            r == self.spec_bits_per_pixel(),
    {
        match self {
            PixelFormat::Mono8 | PixelFormat::BayerGR8 | PixelFormat::BayerRG8 | PixelFormat::BayerGB8 | PixelFormat::BayerBG8 => 8,
            PixelFormat::Mono10 | PixelFormat::Mono12 | PixelFormat::Mono14 | PixelFormat::Mono16 | PixelFormat::BayerGR10 | PixelFormat::BayerRG10 | PixelFormat::BayerGB10 | PixelFormat::BayerBG10 | PixelFormat::BayerGR12 | PixelFormat::BayerRG12 | PixelFormat::BayerGB12 | PixelFormat::BayerBG12 | PixelFormat::BayerGR16 | PixelFormat::BayerRG16 | PixelFormat::BayerGB16 | PixelFormat::BayerBG16 | PixelFormat::Yuv422 | PixelFormat::YCbCr422_8_CbYCrY => 16,
            PixelFormat::Mono10p | PixelFormat::BayerGR10p | PixelFormat::BayerRG10p | PixelFormat::BayerGB10p | PixelFormat::BayerBG10p => 10,
            PixelFormat::Mono12Packed | PixelFormat::Mono12p | PixelFormat::BayerGR12Packed | PixelFormat::BayerRG12Packed | PixelFormat::BayerGB12Packed | PixelFormat::BayerBG12Packed | PixelFormat::BayerGR12p | PixelFormat::BayerRG12p | PixelFormat::BayerGB12p | PixelFormat::BayerBG12p | PixelFormat::Yuv411 | PixelFormat::YCbCr411_8_CbYYCrYY => 12,
            PixelFormat::Rgb8 | PixelFormat::Bgr8 | PixelFormat::Yuv444 | PixelFormat::YCbCr8_CbYCr => 24,
            PixelFormat::Rgb10 | PixelFormat::Bgr10 | PixelFormat::Rgb12 | PixelFormat::Bgr12 | PixelFormat::Rgb14 | PixelFormat::Bgr14 | PixelFormat::Rgb16 | PixelFormat::Bgr16 => 48,
            PixelFormat::Rgba8 | PixelFormat::Bgra8 => 32,
            PixelFormat::Rgba10 | PixelFormat::Bgra10 | PixelFormat::Rgba12 | PixelFormat::Bgra12 | PixelFormat::Rgba14 | PixelFormat::Bgra14 | PixelFormat::Rgba16 | PixelFormat::Bgra16 => 64,
        }
    }

    /// Whether this is a colour format, as `is_color` returns it.
    pub open spec fn spec_is_color(&self) -> bool {
        match self {
            PixelFormat::Mono8 | PixelFormat::Mono10 | PixelFormat::Mono10p | PixelFormat::Mono12 | PixelFormat::Mono12Packed | PixelFormat::Mono12p | PixelFormat::Mono14 | PixelFormat::Mono16 | PixelFormat::BayerGR8 | PixelFormat::BayerRG8 | PixelFormat::BayerGB8 | PixelFormat::BayerBG8 | PixelFormat::BayerGR10 | PixelFormat::BayerRG10 | PixelFormat::BayerGB10 | PixelFormat::BayerBG10 | PixelFormat::BayerGR12 | PixelFormat::BayerRG12 | PixelFormat::BayerGB12 | PixelFormat::BayerBG12 | PixelFormat::BayerGR12Packed | PixelFormat::BayerRG12Packed | PixelFormat::BayerGB12Packed | PixelFormat::BayerBG12Packed | PixelFormat::BayerGR10p | PixelFormat::BayerRG10p | PixelFormat::BayerGB10p | PixelFormat::BayerBG10p | PixelFormat::BayerGR12p | PixelFormat::BayerRG12p | PixelFormat::BayerGB12p | PixelFormat::BayerBG12p | PixelFormat::BayerGR16 | PixelFormat::BayerRG16 | PixelFormat::BayerGB16 | PixelFormat::BayerBG16 => false,
            PixelFormat::Rgb8 | PixelFormat::Bgr8 | PixelFormat::Rgb10 | PixelFormat::Bgr10 | PixelFormat::Rgb12 | PixelFormat::Bgr12 | PixelFormat::Rgb14 | PixelFormat::Bgr14 | PixelFormat::Rgb16 | PixelFormat::Bgr16 | PixelFormat::Rgba8 | PixelFormat::Bgra8 | PixelFormat::Rgba10 | PixelFormat::Bgra10 | PixelFormat::Rgba12 | PixelFormat::Bgra12 | PixelFormat::Rgba14 | PixelFormat::Bgra14 | PixelFormat::Rgba16 | PixelFormat::Bgra16 | PixelFormat::Yuv411 | PixelFormat::Yuv422 | PixelFormat::Yuv444 | PixelFormat::YCbCr411_8_CbYYCrYY | PixelFormat::YCbCr422_8_CbYCrY | PixelFormat::YCbCr8_CbYCr => true,
        }
    }

    /// Whether this format belongs to the driver's colour class; mono and
    /// Bayer formats do not.
    pub fn is_color(&self) -> (r: bool)
        ensures
            r == self.spec_is_color(),
    {
        match self {
            PixelFormat::Mono8 | PixelFormat::Mono10 | PixelFormat::Mono10p | PixelFormat::Mono12 | PixelFormat::Mono12Packed | PixelFormat::Mono12p | PixelFormat::Mono14 | PixelFormat::Mono16 | PixelFormat::BayerGR8 | PixelFormat::BayerRG8 | PixelFormat::BayerGB8 | PixelFormat::BayerBG8 | PixelFormat::BayerGR10 | PixelFormat::BayerRG10 | PixelFormat::BayerGB10 | PixelFormat::BayerBG10 | PixelFormat::BayerGR12 | PixelFormat::BayerRG12 | PixelFormat::BayerGB12 | PixelFormat::BayerBG12 | PixelFormat::BayerGR12Packed | PixelFormat::BayerRG12Packed | PixelFormat::BayerGB12Packed | PixelFormat::BayerBG12Packed | PixelFormat::BayerGR10p | PixelFormat::BayerRG10p | PixelFormat::BayerGB10p | PixelFormat::BayerBG10p | PixelFormat::BayerGR12p | PixelFormat::BayerRG12p | PixelFormat::BayerGB12p | PixelFormat::BayerBG12p | PixelFormat::BayerGR16 | PixelFormat::BayerRG16 | PixelFormat::BayerGB16 | PixelFormat::BayerBG16 => false,
            PixelFormat::Rgb8 | PixelFormat::Bgr8 | PixelFormat::Rgb10 | PixelFormat::Bgr10 | PixelFormat::Rgb12 | PixelFormat::Bgr12 | PixelFormat::Rgb14 | PixelFormat::Bgr14 | PixelFormat::Rgb16 | PixelFormat::Bgr16 | PixelFormat::Rgba8 | PixelFormat::Bgra8 | PixelFormat::Rgba10 | PixelFormat::Bgra10 | PixelFormat::Rgba12 | PixelFormat::Bgra12 | PixelFormat::Rgba14 | PixelFormat::Bgra14 | PixelFormat::Rgba16 | PixelFormat::Bgra16 | PixelFormat::Yuv411 | PixelFormat::Yuv422 | PixelFormat::Yuv444 | PixelFormat::YCbCr411_8_CbYYCrYY | PixelFormat::YCbCr422_8_CbYCrY | PixelFormat::YCbCr8_CbYCr => true,
        }
    }

    /// The number of channels per pixel, as `num_channels` returns it.
    pub open spec fn spec_num_channels(&self) -> usize {
        match self {
            PixelFormat::Mono8 | PixelFormat::Mono10 | PixelFormat::Mono10p | PixelFormat::Mono12 | PixelFormat::Mono12Packed | PixelFormat::Mono12p | PixelFormat::Mono14 | PixelFormat::Mono16 | PixelFormat::BayerGR8 | PixelFormat::BayerRG8 | PixelFormat::BayerGB8 | PixelFormat::BayerBG8 | PixelFormat::BayerGR10 | PixelFormat::BayerRG10 | PixelFormat::BayerGB10 | PixelFormat::BayerBG10 | PixelFormat::BayerGR12 | PixelFormat::BayerRG12 | PixelFormat::BayerGB12 | PixelFormat::BayerBG12 | PixelFormat::BayerGR12Packed | PixelFormat::BayerRG12Packed | PixelFormat::BayerGB12Packed | PixelFormat::BayerBG12Packed | PixelFormat::BayerGR10p | PixelFormat::BayerRG10p | PixelFormat::BayerGB10p | PixelFormat::BayerBG10p | PixelFormat::BayerGR12p | PixelFormat::BayerRG12p | PixelFormat::BayerGB12p | PixelFormat::BayerBG12p | PixelFormat::BayerGR16 | PixelFormat::BayerRG16 | PixelFormat::BayerGB16 | PixelFormat::BayerBG16 => 1,
            PixelFormat::Rgb8 | PixelFormat::Bgr8 | PixelFormat::Rgb10 | PixelFormat::Bgr10 | PixelFormat::Rgb12 | PixelFormat::Bgr12 | PixelFormat::Rgb14 | PixelFormat::Bgr14 | PixelFormat::Rgb16 | PixelFormat::Bgr16 | PixelFormat::Yuv411 | PixelFormat::Yuv422 | PixelFormat::Yuv444 | PixelFormat::YCbCr411_8_CbYYCrYY | PixelFormat::YCbCr422_8_CbYCrY | PixelFormat::YCbCr8_CbYCr => 3,
            PixelFormat::Rgba8 | PixelFormat::Bgra8 | PixelFormat::Rgba10 | PixelFormat::Bgra10 | PixelFormat::Rgba12 | PixelFormat::Bgra12 | PixelFormat::Rgba14 | PixelFormat::Bgra14 | PixelFormat::Rgba16 | PixelFormat::Bgra16 => 4,
        }
    }

    /// The number of channels per pixel: RGB and YUV formats carry three,
    /// RGBA formats four, mono and Bayer formats one.
    pub fn num_channels(&self) -> (r: usize)
        ensures
            r == self.spec_num_channels(),
    {
        match self {
            PixelFormat::Mono8 | PixelFormat::Mono10 | PixelFormat::Mono10p | PixelFormat::Mono12 | PixelFormat::Mono12Packed | PixelFormat::Mono12p | PixelFormat::Mono14 | PixelFormat::Mono16 | PixelFormat::BayerGR8 | PixelFormat::BayerRG8 | PixelFormat::BayerGB8 | PixelFormat::BayerBG8 | PixelFormat::BayerGR10 | PixelFormat::BayerRG10 | PixelFormat::BayerGB10 | PixelFormat::BayerBG10 | PixelFormat::BayerGR12 | PixelFormat::BayerRG12 | PixelFormat::BayerGB12 | PixelFormat::BayerBG12 | PixelFormat::BayerGR12Packed | PixelFormat::BayerRG12Packed | PixelFormat::BayerGB12Packed | PixelFormat::BayerBG12Packed | PixelFormat::BayerGR10p | PixelFormat::BayerRG10p | PixelFormat::BayerGB10p | PixelFormat::BayerBG10p | PixelFormat::BayerGR12p | PixelFormat::BayerRG12p | PixelFormat::BayerGB12p | PixelFormat::BayerBG12p | PixelFormat::BayerGR16 | PixelFormat::BayerRG16 | PixelFormat::BayerGB16 | PixelFormat::BayerBG16 => 1,
            PixelFormat::Rgb8 | PixelFormat::Bgr8 | PixelFormat::Rgb10 | PixelFormat::Bgr10 | PixelFormat::Rgb12 | PixelFormat::Bgr12 | PixelFormat::Rgb14 | PixelFormat::Bgr14 | PixelFormat::Rgb16 | PixelFormat::Bgr16 | PixelFormat::Yuv411 | PixelFormat::Yuv422 | PixelFormat::Yuv444 | PixelFormat::YCbCr411_8_CbYYCrYY | PixelFormat::YCbCr422_8_CbYCrY | PixelFormat::YCbCr8_CbYCr => 3,
            PixelFormat::Rgba8 | PixelFormat::Bgra8 | PixelFormat::Rgba10 | PixelFormat::Bgra10 | PixelFormat::Rgba12 | PixelFormat::Bgra12 | PixelFormat::Rgba14 | PixelFormat::Bgra14 | PixelFormat::Rgba16 | PixelFormat::Bgra16 => 4,
        }
    }

    /// The number of bits per channel, as `bits_per_channel` returns it.
    pub open spec fn spec_bits_per_channel(&self) -> usize {
        match self {
            PixelFormat::Mono8 | PixelFormat::BayerGR8 | PixelFormat::BayerRG8 | PixelFormat::BayerGB8 | PixelFormat::BayerBG8 | PixelFormat::Rgb8 | PixelFormat::Bgr8 | PixelFormat::Rgba8 | PixelFormat::Bgra8 | PixelFormat::Yuv411 | PixelFormat::Yuv422 | PixelFormat::Yuv444 | PixelFormat::YCbCr411_8_CbYYCrYY | PixelFormat::YCbCr422_8_CbYCrY | PixelFormat::YCbCr8_CbYCr => 8,
            PixelFormat::Mono10 | PixelFormat::Mono10p | PixelFormat::BayerGR10 | PixelFormat::BayerRG10 | PixelFormat::BayerGB10 | PixelFormat::BayerBG10 | PixelFormat::BayerGR10p | PixelFormat::BayerRG10p | PixelFormat::BayerGB10p | PixelFormat::BayerBG10p | PixelFormat::Rgb10 | PixelFormat::Bgr10 | PixelFormat::Rgba10 | PixelFormat::Bgra10 => 10,
            PixelFormat::Mono12 | PixelFormat::Mono12Packed | PixelFormat::Mono12p | PixelFormat::BayerGR12 | PixelFormat::BayerRG12 | PixelFormat::BayerGB12 | PixelFormat::BayerBG12 | PixelFormat::BayerGR12Packed | PixelFormat::BayerRG12Packed | PixelFormat::BayerGB12Packed | PixelFormat::BayerBG12Packed | PixelFormat::BayerGR12p | PixelFormat::BayerRG12p | PixelFormat::BayerGB12p | PixelFormat::BayerBG12p | PixelFormat::Rgb12 | PixelFormat::Bgr12 | PixelFormat::Rgba12 | PixelFormat::Bgra12 => 12,
            PixelFormat::Mono14 | PixelFormat::Rgb14 | PixelFormat::Bgr14 | PixelFormat::Rgba14 | PixelFormat::Bgra14 => 14,
            PixelFormat::Mono16 | PixelFormat::BayerGR16 | PixelFormat::BayerRG16 | PixelFormat::BayerGB16 | PixelFormat::BayerBG16 | PixelFormat::Rgb16 | PixelFormat::Bgr16 | PixelFormat::Rgba16 | PixelFormat::Bgra16 => 16,
        }
    }

    /// The number of significant bits each channel carries.
    pub fn bits_per_channel(&self) -> (r: usize)
        ensures
            r == self.spec_bits_per_channel(),
    {
        match self {
            PixelFormat::Mono8 | PixelFormat::BayerGR8 | PixelFormat::BayerRG8 | PixelFormat::BayerGB8 | PixelFormat::BayerBG8 | PixelFormat::Rgb8 | PixelFormat::Bgr8 | PixelFormat::Rgba8 | PixelFormat::Bgra8 | PixelFormat::Yuv411 | PixelFormat::Yuv422 | PixelFormat::Yuv444 | PixelFormat::YCbCr411_8_CbYYCrYY | PixelFormat::YCbCr422_8_CbYCrY | PixelFormat::YCbCr8_CbYCr => 8,
            PixelFormat::Mono10 | PixelFormat::Mono10p | PixelFormat::BayerGR10 | PixelFormat::BayerRG10 | PixelFormat::BayerGB10 | PixelFormat::BayerBG10 | PixelFormat::BayerGR10p | PixelFormat::BayerRG10p | PixelFormat::BayerGB10p | PixelFormat::BayerBG10p | PixelFormat::Rgb10 | PixelFormat::Bgr10 | PixelFormat::Rgba10 | PixelFormat::Bgra10 => 10,
            PixelFormat::Mono12 | PixelFormat::Mono12Packed | PixelFormat::Mono12p | PixelFormat::BayerGR12 | PixelFormat::BayerRG12 | PixelFormat::BayerGB12 | PixelFormat::BayerBG12 | PixelFormat::BayerGR12Packed | PixelFormat::BayerRG12Packed | PixelFormat::BayerGB12Packed | PixelFormat::BayerBG12Packed | PixelFormat::BayerGR12p | PixelFormat::BayerRG12p | PixelFormat::BayerGB12p | PixelFormat::BayerBG12p | PixelFormat::Rgb12 | PixelFormat::Bgr12 | PixelFormat::Rgba12 | PixelFormat::Bgra12 => 12,
            PixelFormat::Mono14 | PixelFormat::Rgb14 | PixelFormat::Bgr14 | PixelFormat::Rgba14 | PixelFormat::Bgra14 => 14,
            PixelFormat::Mono16 | PixelFormat::BayerGR16 | PixelFormat::BayerRG16 | PixelFormat::BayerGB16 | PixelFormat::BayerBG16 | PixelFormat::Rgb16 | PixelFormat::Bgr16 | PixelFormat::Rgba16 | PixelFormat::Bgra16 => 16,
        }
    }

    /// Whether the raw buffer stores each sample as two little-endian bytes.
    pub open spec fn spec_two_byte_samples(&self) -> bool {
        match self {
            PixelFormat::Mono8 | PixelFormat::Mono10p | PixelFormat::Mono12Packed | PixelFormat::Mono12p | PixelFormat::BayerGR8 | PixelFormat::BayerRG8 | PixelFormat::BayerGB8 | PixelFormat::BayerBG8 | PixelFormat::BayerGR12Packed | PixelFormat::BayerRG12Packed | PixelFormat::BayerGB12Packed | PixelFormat::BayerBG12Packed | PixelFormat::BayerGR10p | PixelFormat::BayerRG10p | PixelFormat::BayerGB10p | PixelFormat::BayerBG10p | PixelFormat::BayerGR12p | PixelFormat::BayerRG12p | PixelFormat::BayerGB12p | PixelFormat::BayerBG12p | PixelFormat::Rgb8 | PixelFormat::Bgr8 | PixelFormat::Rgba8 | PixelFormat::Bgra8 | PixelFormat::Yuv411 | PixelFormat::Yuv422 | PixelFormat::Yuv444 | PixelFormat::YCbCr411_8_CbYYCrYY | PixelFormat::YCbCr422_8_CbYCrY | PixelFormat::YCbCr8_CbYCr => false,
            PixelFormat::Mono10 | PixelFormat::Mono12 | PixelFormat::Mono14 | PixelFormat::Mono16 | PixelFormat::BayerGR10 | PixelFormat::BayerRG10 | PixelFormat::BayerGB10 | PixelFormat::BayerBG10 | PixelFormat::BayerGR12 | PixelFormat::BayerRG12 | PixelFormat::BayerGB12 | PixelFormat::BayerBG12 | PixelFormat::BayerGR16 | PixelFormat::BayerRG16 | PixelFormat::BayerGB16 | PixelFormat::BayerBG16 | PixelFormat::Rgb10 | PixelFormat::Bgr10 | PixelFormat::Rgb12 | PixelFormat::Bgr12 | PixelFormat::Rgb14 | PixelFormat::Bgr14 | PixelFormat::Rgb16 | PixelFormat::Bgr16 | PixelFormat::Rgba10 | PixelFormat::Bgra10 | PixelFormat::Rgba12 | PixelFormat::Bgra12 | PixelFormat::Rgba14 | PixelFormat::Bgra14 | PixelFormat::Rgba16 | PixelFormat::Bgra16 => true,
        }
    }

    /// Whether the raw buffer packs samples at sub-byte bit offsets.
    pub open spec fn spec_packed_samples(&self) -> bool {
        match self {
            PixelFormat::Mono8 | PixelFormat::Mono10 | PixelFormat::Mono12 | PixelFormat::Mono12Packed | PixelFormat::Mono12p | PixelFormat::Mono14 | PixelFormat::Mono16 | PixelFormat::BayerGR8 | PixelFormat::BayerRG8 | PixelFormat::BayerGB8 | PixelFormat::BayerBG8 | PixelFormat::BayerGR10 | PixelFormat::BayerRG10 | PixelFormat::BayerGB10 | PixelFormat::BayerBG10 | PixelFormat::BayerGR12 | PixelFormat::BayerRG12 | PixelFormat::BayerGB12 | PixelFormat::BayerBG12 | PixelFormat::BayerGR16 | PixelFormat::BayerRG16 | PixelFormat::BayerGB16 | PixelFormat::BayerBG16 | PixelFormat::Rgb8 | PixelFormat::Bgr8 | PixelFormat::Rgb10 | PixelFormat::Bgr10 | PixelFormat::Rgb12 | PixelFormat::Bgr12 | PixelFormat::Rgb14 | PixelFormat::Bgr14 | PixelFormat::Rgb16 | PixelFormat::Bgr16 | PixelFormat::Rgba8 | PixelFormat::Bgra8 | PixelFormat::Rgba10 | PixelFormat::Bgra10 | PixelFormat::Rgba12 | PixelFormat::Bgra12 | PixelFormat::Rgba14 | PixelFormat::Bgra14 | PixelFormat::Rgba16 | PixelFormat::Bgra16 | PixelFormat::Yuv411 | PixelFormat::Yuv422 | PixelFormat::Yuv444 | PixelFormat::YCbCr411_8_CbYYCrYY | PixelFormat::YCbCr422_8_CbYCrY | PixelFormat::YCbCr8_CbYCr => false,
            PixelFormat::Mono10p | PixelFormat::BayerGR12Packed | PixelFormat::BayerRG12Packed | PixelFormat::BayerGB12Packed | PixelFormat::BayerBG12Packed | PixelFormat::BayerGR10p | PixelFormat::BayerRG10p | PixelFormat::BayerGB10p | PixelFormat::BayerBG10p | PixelFormat::BayerGR12p | PixelFormat::BayerRG12p | PixelFormat::BayerGB12p | PixelFormat::BayerBG12p => true,
        }
    }

    /// Whether `unpack_to_u16` can unpack this format.
    pub open spec fn spec_unpackable(&self) -> bool {
        self.spec_two_byte_samples() || self.spec_packed_samples()
    }
}

impl Default for PixelFormat {
    /// The default format is 8-bit mono.
    fn default() -> (r: Self)
        ensures
            r == PixelFormat::Mono8,
    {
        PixelFormat::Mono8
    }
}

/// The value of two little-endian bytes.
pub open spec fn spec_le16(lo: u8, hi: u8) -> int {
    lo + 0x100 * hi
}

/// Two to the power `e`, for bit offsets inside a byte.
pub open spec fn spec_pow2_small(e: int) -> int {
    if e == 0 {
        1
    } else if e == 1 {
        2
    } else if e == 2 {
        4
    } else if e == 3 {
        8
    } else if e == 4 {
        16
    } else if e == 5 {
        32
    } else if e == 6 {
        64
    } else {
        128
    }
}

/// The `i`th sample of a buffer that packs `cb`-bit samples back to back:
/// the 16-bit little-endian word read at the byte the sample starts in,
/// shifted down by the sample's bit offset within that byte.
pub open spec fn spec_packed_sample(data: Seq<u8>, i: int, cb: int) -> int {
    let start_bit = i * cb;
    spec_le16(data[start_bit / 8], data[start_bit / 8 + 1]) / spec_pow2_small(start_bit % 8)
}

impl PixelFormat {
    /// Unpacks a raw frame buffer into one `u16` per sample.
    ///
    /// Formats that store each sample as two little-endian bytes yield one
    /// sample per byte pair; formats that pack samples at sub-byte offsets
    /// yield one sample per `bits_per_channel` bits, each read as the
    /// little-endian word at its starting byte shifted down by the sample's
    /// bit offset. Every other format (fewer than 8 or more than 16 bits per
    /// sample) yields `None`.
    pub fn unpack_to_u16(&self, raw: &[u8]) -> (r: Option<Vec<u16>>)
        requires
            raw@.len() * 8 <= usize::MAX,
        ensures
            r is Some <==> self.spec_unpackable(),
            self.spec_two_byte_samples() ==> {
                &&& (r->Some_0)@.len() == raw@.len() / 2
                &&& forall|j: int|
                    0 <= j < (r->Some_0)@.len() ==> (r->Some_0)@[j] == spec_le16(
                        raw@[2 * j],
                        raw@[2 * j + 1],
                    )
            },
            self.spec_packed_samples() ==> {
                &&& (r->Some_0)@.len() == raw@.len() as int * 8 / (self.spec_bits_per_channel() as int)
                &&& forall|j: int|
                    0 <= j < (r->Some_0)@.len() ==> (r->Some_0)@[j] == spec_packed_sample(
                        raw@,
                        j,
                        self.spec_bits_per_channel() as int,
                    )
            },
    {
        match self {
            PixelFormat::Mono10
            | PixelFormat::Mono12
            | PixelFormat::Mono14
            | PixelFormat::Mono16
            | PixelFormat::Rgb10
            | PixelFormat::Bgr10
            | PixelFormat::Rgba10
            | PixelFormat::Bgra10
            | PixelFormat::Rgb12
            | PixelFormat::Bgr12
            | PixelFormat::Rgba12
            | PixelFormat::Bgra12
            | PixelFormat::Rgb14
            | PixelFormat::Bgr14
            | PixelFormat::Rgba14
            | PixelFormat::Bgra14
            | PixelFormat::Rgb16
            | PixelFormat::Bgr16
            | PixelFormat::Rgba16
            | PixelFormat::Bgra16
            | PixelFormat::BayerGR10
            | PixelFormat::BayerRG10
            | PixelFormat::BayerGB10
            | PixelFormat::BayerBG10
            | PixelFormat::BayerGR12
            | PixelFormat::BayerRG12
            | PixelFormat::BayerGB12
            | PixelFormat::BayerBG12
            | PixelFormat::BayerGR16
            | PixelFormat::BayerRG16
            | PixelFormat::BayerGB16
            | PixelFormat::BayerBG16 => {
                let n = raw.len() / 2;
                let mut out: Vec<u16> = Vec::new();
                let mut i: usize = 0;
                while i < n
                    invariant
                        raw@.len() <= usize::MAX,
                        n == raw@.len() / 2,
                        i <= n,
                        out@.len() == i,
                        forall|j: int|
                            0 <= j < i ==> out@[j] == spec_le16(raw@[2 * j], raw@[2 * j + 1]),
                    decreases n - i,
                {
                    proof {
                        assert(2 * i + 1 < raw@.len());
                    }
                    let lo = raw[2 * i];
                    let hi = raw[2 * i + 1];
                    out.push(lo as u16 + 0x100 * (hi as u16));
                    i = i + 1;
                }
                Some(out)
            },
            PixelFormat::Mono10p
            | PixelFormat::BayerGR10p
            | PixelFormat::BayerRG10p
            | PixelFormat::BayerGB10p
            | PixelFormat::BayerBG10p
            | PixelFormat::BayerGR12p
            | PixelFormat::BayerRG12p
            | PixelFormat::BayerGB12p
            | PixelFormat::BayerBG12p
            | PixelFormat::BayerGR12Packed
            | PixelFormat::BayerRG12Packed
            | PixelFormat::BayerGB12Packed
            | PixelFormat::BayerBG12Packed => {
                let cb = self.bits_per_channel();
                let n = (raw.len() * 8) / cb;
                let mut out: Vec<u16> = Vec::new();
                let mut i: usize = 0;
                while i < n
                    invariant
                        cb == self.spec_bits_per_channel(),
                        cb == 10 || cb == 12,
                        raw@.len() * 8 <= usize::MAX,
                        n == raw@.len() as int * 8 / (cb as int),
                        i <= n,
                        out@.len() == i,
                        forall|j: int| 0 <= j < i ==> out@[j] == spec_packed_sample(raw@, j, cb as int),
                    decreases n - i,
                {
                    proof {
                        lemma_packed_index_in_bounds(raw@.len() as int, cb as int, n as int, i as int);
                    }
                    let start_bit = i * cb;
                    let start_byte = start_bit / 8;
                    let rem = start_bit % 8;
                    let first = raw[start_byte];
                    let next = raw[start_byte + 1];
                    let word = first as u16 + 0x100 * (next as u16);
                    let divisor: u16 = if rem == 0 {
                        1
                    } else if rem == 1 {
                        2
                    } else if rem == 2 {
                        4
                    } else if rem == 3 {
                        8
                    } else if rem == 4 {
                        16
                    } else if rem == 5 {
                        32
                    } else if rem == 6 {
                        64
                    } else {
                        128
                    };
                    out.push(word / divisor);
                    i = i + 1;
                }
                Some(out)
            },
            _ => None,
        }
    }
}

/// For a packed buffer of `len` bytes holding `n` samples of `cb` bits, the
/// `i`th sample's starting byte and the byte after it both lie inside the
/// buffer.
proof fn lemma_packed_index_in_bounds(len: int, cb: int, n: int, i: int)
    requires
        cb == 10 || cb == 12,
        n == len * 8 / cb,
        0 <= i < n,
    ensures
        i * cb <= len * 8 - cb,
        i * cb / 8 + 1 < len,
        0 <= i * cb % 8 < 8,
{
    assert(n * cb <= len * 8) by (nonlinear_arith)
        requires
            cb == 10 || cb == 12,
            n == len * 8 / cb,
    ;
    assert(i * cb <= n * cb - cb) by (nonlinear_arith)
        requires
            0 <= i < n,
            cb == 10 || cb == 12,
    ;
    assert(i * cb / 8 + 1 < len) by (nonlinear_arith)
        requires
            i * cb <= len * 8 - cb,
            0 <= i * cb,
            cb == 10 || cb == 12,
    ;
}

impl PixelFormat {
    /// Converting a format to its driver code and back yields the format
    /// itself: the driver codes are distinct.
    pub proof fn lemma_code_roundtrip(f: PixelFormat)
        ensures
            spec_format_of_code(f.spec_code() as int) == Some(f),
    {
        match f {
        PixelFormat::Mono8 => {},
        PixelFormat::Mono10 => {},
        PixelFormat::Mono10p => {},
        PixelFormat::Mono12 => {},
        PixelFormat::Mono12Packed => {},
        PixelFormat::Mono12p => {},
        PixelFormat::Mono14 => {},
        PixelFormat::Mono16 => {},
        PixelFormat::BayerGR8 => {},
        PixelFormat::BayerRG8 => {},
        PixelFormat::BayerGB8 => {},
        PixelFormat::BayerBG8 => {},
        PixelFormat::BayerGR10 => {},
        PixelFormat::BayerRG10 => {},
        PixelFormat::BayerGB10 => {},
        PixelFormat::BayerBG10 => {},
        PixelFormat::BayerGR12 => {},
        PixelFormat::BayerRG12 => {},
        PixelFormat::BayerGB12 => {},
        PixelFormat::BayerBG12 => {},
        PixelFormat::BayerGR12Packed => {},
        PixelFormat::BayerRG12Packed => {},
        PixelFormat::BayerGB12Packed => {},
        PixelFormat::BayerBG12Packed => {},
        PixelFormat::BayerGR10p => {},
        PixelFormat::BayerRG10p => {},
        PixelFormat::BayerGB10p => {},
        PixelFormat::BayerBG10p => {},
        PixelFormat::BayerGR12p => {},
        PixelFormat::BayerRG12p => {},
        PixelFormat::BayerGB12p => {},
        PixelFormat::BayerBG12p => {},
        PixelFormat::BayerGR16 => {},
        PixelFormat::BayerRG16 => {},
        PixelFormat::BayerGB16 => {},
        PixelFormat::BayerBG16 => {},
        PixelFormat::Rgb8 => {},
        PixelFormat::Bgr8 => {},
        PixelFormat::Rgb10 => {},
        PixelFormat::Bgr10 => {},
        PixelFormat::Rgb12 => {},
        PixelFormat::Bgr12 => {},
        PixelFormat::Rgb14 => {},
        PixelFormat::Bgr14 => {},
        PixelFormat::Rgb16 => {},
        PixelFormat::Bgr16 => {},
        PixelFormat::Rgba8 => {},
        PixelFormat::Bgra8 => {},
        PixelFormat::Rgba10 => {},
        PixelFormat::Bgra10 => {},
        PixelFormat::Rgba12 => {},
        PixelFormat::Bgra12 => {},
        PixelFormat::Rgba14 => {},
        PixelFormat::Bgra14 => {},
        PixelFormat::Rgba16 => {},
        PixelFormat::Bgra16 => {},
        PixelFormat::Yuv411 => {},
        PixelFormat::Yuv422 => {},
        PixelFormat::Yuv444 => {},
        PixelFormat::YCbCr411_8_CbYYCrYY => {},
        PixelFormat::YCbCr422_8_CbYCrY => {},
        PixelFormat::YCbCr8_CbYCr => {},
        }
    }
}

} // verus!
