//! Register encoding for the camera module: the register and value each
//! setting writes, and the bytes that carry a register access on the bus.

use vstd::prelude::*;

verus! {

/// Bus address of the camera module.
pub const CAMERA_ADDR: u8 = 0x1F;

/// First register of the identification block.
pub const ID_BASE: u16 = 0x0000;

/// First register of the sensor block.
pub const SENSOR_BASE: u16 = 0x0100;

pub const SENSOR_ID_HIGH: u16 = ID_BASE + 0x00;
pub const SENSOR_ID_LOW: u16 = ID_BASE + 0x01;
pub const CAMERA_RST_REG: u16 = SENSOR_BASE + 0x02;
pub const PIXEL_FMT_REG: u16 = SENSOR_BASE + 0x20;
pub const RESOLUTION_REG: u16 = SENSOR_BASE + 0x21;
pub const BRIGHTNESS_REG: u16 = SENSOR_BASE + 0x22;
pub const CONTRAST_REG: u16 = SENSOR_BASE + 0x23;
pub const SATURATION_REG: u16 = SENSOR_BASE + 0x24;
pub const IMAGE_QUALITY_REG: u16 = SENSOR_BASE + 0x2A;
pub const IMAGE_FLIP_REG: u16 = SENSOR_BASE + 0x2B;
pub const IMAGE_MIRROR_REG: u16 = SENSOR_BASE + 0x2C;

/// Largest brightness level the camera takes.
pub const MAX_BRIGHTNESS: u8 = 8;

/// Largest contrast level the camera takes.
pub const MAX_CONTRAST: u8 = 6;

/// Largest saturation level the camera takes.
pub const MAX_SATURATION: u8 = 6;

/// Output pixel formats.
#[derive(Clone, Copy, Debug, PartialEq, Eq, Structural)]
pub enum PixelFormat {
    Jpeg,
    Rgb565,
    Yuv422,
}

/// Output resolutions.
#[derive(Clone, Copy, Debug, PartialEq, Eq, Structural)]
pub enum Resolution {
    /// 320 x 240
    Qvga,
    /// 640 x 480
    Vga,
    /// 1280 x 720
    Hd,
    /// 1600 x 1200
    Uxga,
    /// 1920 x 1080
    Fhd,
    /// 2592 x 1944
    Max,
    /// 96 x 96
    M96x96,
    /// 128 x 128
    Vga128x128,
    /// 320 x 320
    Vga320x320,
}

/// One register write.
#[derive(Clone, Copy, Debug, PartialEq, Eq, Structural)]
pub struct RegisterWrite {
    pub reg: u16,
    pub value: u8,
}

/// The code of a pixel format in the format register.
pub open spec fn pixel_format_code(f: PixelFormat) -> u8 {
    match f {
        PixelFormat::Jpeg => 1,
        PixelFormat::Rgb565 => 2,
        PixelFormat::Yuv422 => 3,
    }
}

/// The code of a resolution in the resolution register: 1 to 9 in the order
/// the variants are declared.
pub open spec fn resolution_code(r: Resolution) -> u8 {
    match r {
        Resolution::Qvga => 1,
        Resolution::Vga => 2,
        Resolution::Hd => 3,
        Resolution::Uxga => 4,
        Resolution::Fhd => 5,
        Resolution::Max => 6,
        Resolution::M96x96 => 7,
        Resolution::Vga128x128 => 8,
        Resolution::Vga320x320 => 9,
    }
}

/// `v`, limited to `max`.
pub open spec fn at_most(v: u8, max: u8) -> u8 {
    if v > max {
        max
    } else {
        v
    }
}

/// The register address as it goes on the bus: high byte first.
pub open spec fn reg_bytes(reg: u16) -> Seq<u8> {
    seq![(reg / 256) as u8, (reg % 256) as u8]
}

fn limit(v: u8, max: u8) -> (r: u8)
    ensures
        r == at_most(v, max),
{
    if v > max {
        max
    } else {
        v
    }
}

fn flag(enable: bool) -> (r: u8)
    ensures
        r == (if enable { 1u8 } else { 0u8 }),
{
    if enable {
        1
    } else {
        0
    }
}

impl RegisterWrite {
    /// The bytes of the write on the bus: the register, high byte first,
    /// then the value.
    pub fn bytes(&self) -> (r: [u8; 3])
        ensures
            r@ == reg_bytes(self.reg).push(self.value),
    {
        let r = [(self.reg / 256) as u8, (self.reg % 256) as u8, self.value];
        assert(r@ =~= reg_bytes(self.reg).push(self.value));
        r
    }
}

/// The bytes that address a register for a read: high byte first.
pub fn read_address(reg: u16) -> (r: [u8; 2])
    ensures
        r@ == reg_bytes(reg),
{
    let r = [(reg / 256) as u8, (reg % 256) as u8];
    assert(r@ =~= reg_bytes(reg));
    r
}

/// The camera module on the bus. Its methods give the register accesses that
/// carry each setting.
pub struct Py260 {
    /// The camera's bus address.
    pub address: u8,
}

impl Py260 {
    /// The camera at its fixed bus address.
    pub fn new() -> (r: Py260)
        ensures
            r.address == CAMERA_ADDR,
    {
        Py260 { address: CAMERA_ADDR }
    }

    /// The writes that reset the camera: the reset register cleared, then set.
    pub fn reset(&self) -> (r: Vec<RegisterWrite>)
        ensures
            r@ == seq![
                RegisterWrite { reg: CAMERA_RST_REG, value: 0 },
                RegisterWrite { reg: CAMERA_RST_REG, value: 1 },
            ],
    {
        let mut r: Vec<RegisterWrite> = Vec::new();
        r.push(RegisterWrite { reg: CAMERA_RST_REG, value: 0 });
        r.push(RegisterWrite { reg: CAMERA_RST_REG, value: 1 });
        assert(r@ =~= seq![
            RegisterWrite { reg: CAMERA_RST_REG, value: 0 },
            RegisterWrite { reg: CAMERA_RST_REG, value: 1 },
        ]);
        r
    }

    /// The write that selects a pixel format.
    pub fn set_pixel_format(&self, f: PixelFormat) -> (r: RegisterWrite)
        ensures
            r == (RegisterWrite { reg: PIXEL_FMT_REG, value: pixel_format_code(f) }),
    {
        let value: u8 = match f {
            PixelFormat::Jpeg => 1,
            PixelFormat::Rgb565 => 2,
            PixelFormat::Yuv422 => 3,
        };
        RegisterWrite { reg: PIXEL_FMT_REG, value }
    }

    /// The write that selects a resolution.
    pub fn set_resolution(&self, res: Resolution) -> (r: RegisterWrite)
        ensures
            r == (RegisterWrite { reg: RESOLUTION_REG, value: resolution_code(res) }),
    {
        let value: u8 = match res {
            Resolution::Qvga => 1,
            Resolution::Vga => 2,
            Resolution::Hd => 3,
            Resolution::Uxga => 4,
            Resolution::Fhd => 5,
            Resolution::Max => 6,
            Resolution::M96x96 => 7,
            Resolution::Vga128x128 => 8,
            Resolution::Vga320x320 => 9,
        };
        RegisterWrite { reg: RESOLUTION_REG, value }
    }

    /// The write that sets the image quality.
    pub fn set_quality(&self, quality: u8) -> (r: RegisterWrite)
        ensures
            r == (RegisterWrite { reg: IMAGE_QUALITY_REG, value: quality }),
    {
        RegisterWrite { reg: IMAGE_QUALITY_REG, value: quality }
    }

    /// The write that turns horizontal mirroring on or off.
    pub fn set_hmirror(&self, enable: bool) -> (r: RegisterWrite)
        ensures
            r == (RegisterWrite { reg: IMAGE_MIRROR_REG, value: if enable { 1u8 } else { 0u8 } }),
    {
        RegisterWrite { reg: IMAGE_MIRROR_REG, value: flag(enable) }
    }

    /// The write that turns vertical flipping on or off.
    pub fn set_vflip(&self, enable: bool) -> (r: RegisterWrite)
        ensures
            r == (RegisterWrite { reg: IMAGE_FLIP_REG, value: if enable { 1u8 } else { 0u8 } }),
    {
        RegisterWrite { reg: IMAGE_FLIP_REG, value: flag(enable) }
    }

    /// The write that sets the brightness, limited to `MAX_BRIGHTNESS`.
    pub fn set_brightness(&self, brightness: u8) -> (r: RegisterWrite)
        ensures
            r == (RegisterWrite { reg: BRIGHTNESS_REG, value: at_most(brightness, MAX_BRIGHTNESS) }),
    {
        RegisterWrite { reg: BRIGHTNESS_REG, value: limit(brightness, MAX_BRIGHTNESS) }
    }

    /// The write that sets the contrast, limited to `MAX_CONTRAST`.
    pub fn set_contrast(&self, contrast: u8) -> (r: RegisterWrite)
        ensures
            r == (RegisterWrite { reg: CONTRAST_REG, value: at_most(contrast, MAX_CONTRAST) }),
    {
        RegisterWrite { reg: CONTRAST_REG, value: limit(contrast, MAX_CONTRAST) }
    }

    /// The write that sets the saturation, limited to `MAX_SATURATION`.
    pub fn set_saturation(&self, saturation: u8) -> (r: RegisterWrite)
        ensures
            r == (RegisterWrite { reg: SATURATION_REG, value: at_most(saturation, MAX_SATURATION) }),
    {
        RegisterWrite { reg: SATURATION_REG, value: limit(saturation, MAX_SATURATION) }
    }

    /// The registers that hold the sensor id, high byte first.
    pub fn sensor_id_registers(&self) -> (r: [u16; 2])
        ensures
            r@ == seq![SENSOR_ID_HIGH, SENSOR_ID_LOW],
    {
        let r = [SENSOR_ID_HIGH, SENSOR_ID_LOW];
        assert(r@ =~= seq![SENSOR_ID_HIGH, SENSOR_ID_LOW]);
        r
    }

    /// The sensor id from the two bytes read from its registers.
    pub fn read_sensor_id(&self, high: u8, low: u8) -> (r: u16)
        ensures
            r == high as u16 * 256 + low as u16,
    {
        high as u16 * 256 + low as u16
    }
}

} // verus!
