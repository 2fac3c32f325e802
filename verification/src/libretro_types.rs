use vstd::prelude::*;

verus! {

pub const RETRO_ENVIRONMENT_SET_PIXEL_FORMAT: u32 = 10;

pub const RETRO_ENVIRONMENT_GET_LOG_INTERFACE: u32 = 27;

pub const RETRO_ENVIRONMENT_SET_CONTROLLER_INFO: u32 = 35;

pub const RETRO_DEVICE_TYPE_SHIFT: u32 = 8;

pub const RETRO_DEVICE_MASK: u32 = 255;

/// The pixel formats that a frontend can be asked for.
#[derive(Copy, Clone, Debug, PartialEq, Eq, Structural)]
pub enum RetroPixelFormat {
    RetroPixelFormat0RGB1555,
    RetroPixelFormatXRGB8888,
    RetroPixelFormatRGB565,
    RetroPixelFormatUnknown,
}

impl RetroPixelFormat {
    pub open spec fn spec_code(self) -> i32 {
        match self {
            RetroPixelFormat::RetroPixelFormat0RGB1555 => 0,
            RetroPixelFormat::RetroPixelFormatXRGB8888 => 1,
            RetroPixelFormat::RetroPixelFormatRGB565 => 2,
            RetroPixelFormat::RetroPixelFormatUnknown => 0x7FFF_FFFF,
        }
    }

    /// The number that stands for the format at the interface.
    pub fn code(self) -> (r: i32)
        ensures
            r == self.spec_code(),
    {
        match self {
            RetroPixelFormat::RetroPixelFormat0RGB1555 => 0,
            RetroPixelFormat::RetroPixelFormatXRGB8888 => 1,
            RetroPixelFormat::RetroPixelFormatRGB565 => 2,
            RetroPixelFormat::RetroPixelFormatUnknown => 0x7FFF_FFFF,
        }
    }
}

/// The levels of the log interface of a frontend.
#[derive(Copy, Clone, Debug, PartialEq, Eq, Structural)]
pub enum RetroLogLevel {
    Debug,
    Info,
    Warn,
    Error,
    Dummy,
}

impl RetroLogLevel {
    pub open spec fn spec_code(self) -> u32 {
        match self {
            RetroLogLevel::Debug => 0,
            RetroLogLevel::Info => 1,
            RetroLogLevel::Warn => 2,
            RetroLogLevel::Error => 3,
            RetroLogLevel::Dummy => 0xFFFF_FFFF,
        }
    }

    /// The number that stands for the level at the interface.
    pub fn code(self) -> (r: u32)
        ensures
            r == self.spec_code(),
    {
        match self {
            RetroLogLevel::Debug => 0,
            RetroLogLevel::Info => 1,
            RetroLogLevel::Warn => 2,
            RetroLogLevel::Error => 3,
            RetroLogLevel::Dummy => 0xFFFF_FFFF,
        }
    }
}

#[derive(Copy, Clone, Debug, PartialEq, Eq, Structural)]
pub enum RetroRegion {
    Ntsc,
    Pal,
}

impl RetroRegion {
    pub open spec fn spec_code(self) -> u32 {
        match self {
            RetroRegion::Ntsc => 0,
            RetroRegion::Pal => 1,
        }
    }

    /// The number that stands for the region at the interface.
    pub fn code(self) -> (r: u32)
        ensures
            r == self.spec_code(),
    {
        match self {
            RetroRegion::Ntsc => 0,
            RetroRegion::Pal => 1,
        }
    }
}

/// The kinds of input device of a frontend.
#[derive(Copy, Clone, Debug, PartialEq, Eq, Structural)]
pub enum RetroDevice {
    NoDevice,
    Joypad,
}

impl RetroDevice {
    pub open spec fn spec_code(self) -> u32 {
        match self {
            RetroDevice::NoDevice => 0,
            RetroDevice::Joypad => 1,
        }
    }

    /// The number that stands for the device at the interface.
    pub fn code(self) -> (r: u32)
        ensures
            r == self.spec_code(),
    {
        match self {
            RetroDevice::NoDevice => 0,
            RetroDevice::Joypad => 1,
        }
    }
}

/// The buttons of the joypad of a frontend.
#[derive(Copy, Clone, Debug, PartialEq, Eq, Structural)]
pub enum JoypadInput {
    B,
    Y,
    Select,
    Start,
    Up,
    Down,
    Left,
    Right,
    A,
    X,
    L,
    R,
    L2,
    R2,
    L3,
    R3,
}

impl JoypadInput {
    pub open spec fn spec_code(self) -> u32 {
        match self {
            JoypadInput::B => 0,
            JoypadInput::Y => 1,
            JoypadInput::Select => 2,
            JoypadInput::Start => 3,
            JoypadInput::Up => 4,
            JoypadInput::Down => 5,
            JoypadInput::Left => 6,
            JoypadInput::Right => 7,
            JoypadInput::A => 8,
            JoypadInput::X => 9,
            JoypadInput::L => 10,
            JoypadInput::R => 11,
            JoypadInput::L2 => 12,
            JoypadInput::R2 => 13,
            JoypadInput::L3 => 14,
            JoypadInput::R3 => 15,
        }
    }

    /// The number that stands for the button at the interface.
    pub fn code(self) -> (r: u32)
        ensures
            r == self.spec_code(),
    {
        match self {
            JoypadInput::B => 0,
            JoypadInput::Y => 1,
            JoypadInput::Select => 2,
            JoypadInput::Start => 3,
            JoypadInput::Up => 4,
            JoypadInput::Down => 5,
            JoypadInput::Left => 6,
            JoypadInput::Right => 7,
            JoypadInput::A => 8,
            JoypadInput::X => 9,
            JoypadInput::L => 10,
            JoypadInput::R => 11,
            JoypadInput::L2 => 12,
            JoypadInput::R2 => 13,
            JoypadInput::L3 => 14,
            JoypadInput::R3 => 15,
        }
    }
}

/// The number of a subclass of a device: the subclass counted from one in
/// the bits above the lowest eight, the device in the lowest eight.
pub fn retro_device_subclass(base: RetroDevice, id: u32) -> (r: u32)
    requires
        id < u32::MAX,
    ensures
        r == (((id + 1) as u32) << 8) | base.spec_code(),
{
    ((id + 1) << RETRO_DEVICE_TYPE_SHIFT) | base.code()
}

} // verus!
