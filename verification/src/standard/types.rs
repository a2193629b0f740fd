//! Wrappers over the types of the `d3d9types.h` surface.
//!
//! Each type stands for one enumeration, flag word or parameter structure of
//! the native API.  What the native side sees is always a plain number; the
//! `code` functions state exactly which number each value marshals to.

use vstd::prelude::*;

verus! {

/// Represents an adapter (graphics card, integrated graphics, etc).
#[derive(Clone, Copy, Debug)]
pub struct Adapter(u32);

impl Adapter {
    /// The adapter ordinal handed to the native API.
    pub closed spec fn code_spec(self) -> u32 {
        self.0
    }

    /// The adapter ordinal handed to the native API.
    pub fn code(self) -> (r: u32)
        ensures
            r == self.code_spec(),
    {
        self.0
    }
}

impl Default for Adapter {
    /// The default adapter, ordinal zero: the primary display adapter.
    fn default() -> (r: Adapter)
        ensures
            r.code_spec() == 0,
    {
        Adapter(0)
    }
}

impl From<Adapter> for u32 {
    fn from(v: Adapter) -> (r: u32)
        ensures
            r == v.code_spec(),
    {
        v.code()
    }
}

impl vstd::std_specs::convert::FromSpecImpl<Adapter> for u32 {
    open spec fn obeys_from_spec() -> bool {
        true
    }

    open spec fn from_spec(v: Adapter) -> u32 {
        v.code_spec()
    }
}

/// Represents a color in Direct3D9, packed as one 32-bit word.
pub struct Color(pub u32);

impl Color {
    /// The packed color word handed to the native API.
    pub open spec fn code_spec(self) -> u32 {
        self.0
    }

    /// The packed color word handed to the native API.
    pub fn code(self) -> (r: u32)
        ensures
            r == self.code_spec(),
    {
        self.0
    }
}

impl From<Color> for u32 {
    fn from(v: Color) -> (r: u32)
        ensures
            r == v.code_spec(),
    {
        v.code()
    }
}

impl vstd::std_specs::convert::FromSpecImpl<Color> for u32 {
    open spec fn obeys_from_spec() -> bool {
        true
    }

    open spec fn from_spec(v: Color) -> u32 {
        v.code_spec()
    }
}

/// Represents a general purpose resource in Direct3D 9.
#[derive(Clone, Copy, Debug)]
pub struct Handle(pub u32);

impl From<Handle> for u32 {
    fn from(v: Handle) -> (r: u32)
        ensures
            r == v.0,
    {
        v.0
    }
}

impl vstd::std_specs::convert::FromSpecImpl<Handle> for u32 {
    open spec fn obeys_from_spec() -> bool {
        true
    }

    open spec fn from_spec(v: Handle) -> u32 {
        v.0
    }
}

/// Represents the type of multi-sampling for buffers/surfaces.
#[derive(Clone, Copy, Debug, PartialEq, Eq, Structural)]
pub enum MultiSampleType {
    /// No multi-sampling.
    Disabled,
    /// Multi-sampling whose quality is chosen through the quality level
    /// alone.
    NonMaskable,
    /// Multi-sampling with the given number of samples per pixel.
    Samples(u32),
}

impl MultiSampleType {
    /// The numeric multi-sample level handed to the native API.
    pub open spec fn code_spec(self) -> u32 {
        match self {
            MultiSampleType::Disabled => 0,
            MultiSampleType::NonMaskable => 1,
            MultiSampleType::Samples(n) => n,
        }
    }

    /// The numeric multi-sample level handed to the native API.
    pub fn code(self) -> (r: u32)
        ensures
            r == self.code_spec(),
    {
        match self {
            MultiSampleType::Disabled => 0,
            MultiSampleType::NonMaskable => 1,
            MultiSampleType::Samples(n) => n,
        }
    }
}

impl From<MultiSampleType> for u32 {
    fn from(v: MultiSampleType) -> (r: u32)
        ensures
            r == v.code_spec(),
    {
        v.code()
    }
}

impl vstd::std_specs::convert::FromSpecImpl<MultiSampleType> for u32 {
    open spec fn obeys_from_spec() -> bool {
        true
    }

    open spec fn from_spec(v: MultiSampleType) -> u32 {
        v.code_spec()
    }
}

/// Represents a memory pool location.
#[derive(Clone, Copy, Debug)]
pub enum Pool {
    Default,
    Managed,
}

impl Pool {
    /// The numeric pool code handed to the native API.
    pub open spec fn code_spec(self) -> u32 {
        match self {
            Pool::Default => 0,
            Pool::Managed => 1,
        }
    }

    /// The numeric pool code handed to the native API.
    pub fn code(self) -> (r: u32)
        ensures
            r == self.code_spec(),
    {
        match self {
            Pool::Default => 0,
            Pool::Managed => 1,
        }
    }
}

/// Represents the type of device.
#[derive(Clone, Copy, Debug)]
pub enum DeviceType {
    Hal,
    NullRef,
    Ref,
    Sw,
}

impl DeviceType {
    /// The numeric device-type code handed to the native API.
    pub open spec fn code_spec(self) -> u32 {
        match self {
            DeviceType::Hal => 1,
            DeviceType::Ref => 2,
            DeviceType::Sw => 3,
            DeviceType::NullRef => 4,
        }
    }

    /// The numeric device-type code handed to the native API.
    pub fn code(self) -> (r: u32)
        ensures
            r == self.code_spec(),
    {
        match self {
            DeviceType::Hal => 1,
            DeviceType::Ref => 2,
            DeviceType::Sw => 3,
            DeviceType::NullRef => 4,
        }
    }
}

/// Represents the type of Direct3D resource.
#[derive(Clone, Copy, Debug)]
pub enum ResourceType {
    Surface,
    Volume,
    Texture,
    VolumeTexture,
    CubeTexture,
    VertexBuffer,
    IndexBuffer,
}

impl ResourceType {
    /// The numeric resource-type code handed to the native API.
    pub open spec fn code_spec(self) -> u32 {
        match self {
            ResourceType::Surface => 1,
            ResourceType::Volume => 2,
            ResourceType::Texture => 3,
            ResourceType::VolumeTexture => 4,
            ResourceType::CubeTexture => 5,
            ResourceType::VertexBuffer => 6,
            ResourceType::IndexBuffer => 7,
        }
    }

    /// The numeric resource-type code handed to the native API.
    pub fn code(self) -> (r: u32)
        ensures
            r == self.code_spec(),
    {
        match self {
            ResourceType::Surface => 1,
            ResourceType::Volume => 2,
            ResourceType::Texture => 3,
            ResourceType::VolumeTexture => 4,
            ResourceType::CubeTexture => 5,
            ResourceType::VertexBuffer => 6,
            ResourceType::IndexBuffer => 7,
        }
    }
}

/// Represents the swap-effect mode of a device.
#[derive(Clone, Copy, Debug, PartialEq, Eq, Structural)]
pub enum SwapEffect {
    Discard,
    Flip,
    Copy,
    Overlay,
}

impl SwapEffect {
    /// The numeric swap-effect code handed to the native API.
    pub open spec fn code_spec(self) -> u32 {
        match self {
            SwapEffect::Discard => 1,
            SwapEffect::Flip => 2,
            SwapEffect::Copy => 3,
            SwapEffect::Overlay => 4,
        }
    }

    /// The numeric swap-effect code handed to the native API.
    pub fn code(self) -> (r: u32)
        ensures
            r == self.code_spec(),
    {
        match self {
            SwapEffect::Discard => 1,
            SwapEffect::Flip => 2,
            SwapEffect::Copy => 3,
            SwapEffect::Overlay => 4,
        }
    }
}

/// Represents the type of primitive to render.
#[derive(Clone, Copy, Debug)]
pub enum PrimitiveType {
    PointList,
    LineList,
    LineStripe,
    TriangleList,
    TriangleStrip,
    TriangleFan,
}

impl PrimitiveType {
    /// The numeric primitive-type code handed to the native API.
    pub open spec fn code_spec(self) -> u32 {
        match self {
            PrimitiveType::PointList => 1,
            PrimitiveType::LineList => 2,
            PrimitiveType::LineStripe => 3,
            PrimitiveType::TriangleList => 4,
            PrimitiveType::TriangleStrip => 5,
            PrimitiveType::TriangleFan => 6,
        }
    }

    /// The numeric primitive-type code handed to the native API.
    pub fn code(self) -> (r: u32)
        ensures
            r == self.code_spec(),
    {
        match self {
            PrimitiveType::PointList => 1,
            PrimitiveType::LineList => 2,
            PrimitiveType::LineStripe => 3,
            PrimitiveType::TriangleList => 4,
            PrimitiveType::TriangleStrip => 5,
            PrimitiveType::TriangleFan => 6,
        }
    }
}

/// Represents the type of a query.
#[derive(Copy, Clone)]
pub enum QueryType {
    VertexCache,
    ResourceManager,
    VertexStats,
    Event,
    Occlusion,
    Timestamp,
    TimestampDisjoint,
    TimestampRefQ,
    PipelineTimings,
    InterfaceTimings,
    VertexTimings,
    PixelTimings,
    BandwidthTimings,
    CacheUtilization,
    MemoryPressure,
}

impl QueryType {
    /// The numeric query-type code handed to the native API.
    pub open spec fn code_spec(self) -> u32 {
        match self {
            QueryType::VertexCache => 4,
            QueryType::ResourceManager => 5,
            QueryType::VertexStats => 6,
            QueryType::Event => 8,
            QueryType::Occlusion => 9,
            QueryType::Timestamp => 10,
            QueryType::TimestampDisjoint => 11,
            QueryType::TimestampRefQ => 12,
            QueryType::PipelineTimings => 13,
            QueryType::InterfaceTimings => 14,
            QueryType::VertexTimings => 15,
            QueryType::PixelTimings => 16,
            QueryType::BandwidthTimings => 17,
            QueryType::CacheUtilization => 18,
            QueryType::MemoryPressure => 19,
        }
    }

    /// The numeric query-type code handed to the native API.
    pub fn code(self) -> (r: u32)
        ensures
            r == self.code_spec(),
    {
        match self {
            QueryType::VertexCache => 4,
            QueryType::ResourceManager => 5,
            QueryType::VertexStats => 6,
            QueryType::Event => 8,
            QueryType::Occlusion => 9,
            QueryType::Timestamp => 10,
            QueryType::TimestampDisjoint => 11,
            QueryType::TimestampRefQ => 12,
            QueryType::PipelineTimings => 13,
            QueryType::InterfaceTimings => 14,
            QueryType::VertexTimings => 15,
            QueryType::PixelTimings => 16,
            QueryType::BandwidthTimings => 17,
            QueryType::CacheUtilization => 18,
            QueryType::MemoryPressure => 19,
        }
    }
}

/// Represents the type of a state block.
#[derive(Copy, Clone)]
pub enum StateBlockType {
    All,
    Pixel,
    Vertex,
}

impl StateBlockType {
    /// The numeric state-block-type code handed to the native API.
    pub open spec fn code_spec(self) -> u32 {
        match self {
            StateBlockType::All => 1,
            StateBlockType::Pixel => 2,
            StateBlockType::Vertex => 3,
        }
    }

    /// The numeric state-block-type code handed to the native API.
    pub fn code(self) -> (r: u32)
        ensures
            r == self.code_spec(),
    {
        match self {
            StateBlockType::All => 1,
            StateBlockType::Pixel => 2,
            StateBlockType::Vertex => 3,
        }
    }
}


/// Represents a buffer/surface format.
#[derive(Clone, Copy, Debug, PartialEq, Eq, Structural)]
pub enum Format {
    Unknown,
    R8G8B8,
    A8R8G8B8,
    X8R8G8B8,
    R5G6B5,
    X1R5G5B5,
    A1R5G5B5,
    A4R4G4B4,
    R3G3B2,
    A8,
    A8R3G3B2,
    X4R4G4B4,
    A2B10G10R10,
    A8B8G8R8,
    X8B8G8R8,
    G16R16,
    A2R10G10B10,
    A8P8,
    P8,
    L8,
    A8L8,
    A4L4,
    V8U8,
    L6V5U5,
    X8L8V8U8,
    Q8W8V8U8,
    V16U16,
    A2W10V10U10,
    UYVY,
    R8g8B8g8,
    YUY2,
    G8r8G8b8,
    DXT1,
    DXT2,
    DXT3,
    DXT4,
    DXT5,
    D16Lockable,
    D32,
    D15S1,
    D24S8,
    D24X8,
    D24X4S4,
    D16,
    D32fLockable,
    D24FS8,
    D32Lockable,
    S8Lockable,
    L16,
    VertexData,
    Index16,
    Index32,
    Q16W16V16U16,
    R16F,
    G16R16F,
    A16B16G16R16,
    R32F,
    G32R32F,
    CxV8U8,
    A1,
    BinaryBuffer,
}

impl Format {
    /// The numeric format code handed to the native API.  Four-character
    /// formats carry their four ASCII bytes packed little-endian.
    pub open spec fn code_spec(self) -> u32 {
        match self {
            Format::Unknown => 0,
            Format::R8G8B8 => 20,
            Format::A8R8G8B8 => 21,
            Format::X8R8G8B8 => 22,
            Format::R5G6B5 => 23,
            Format::X1R5G5B5 => 24,
            Format::A1R5G5B5 => 25,
            Format::A4R4G4B4 => 26,
            Format::R3G3B2 => 27,
            Format::A8 => 28,
            Format::A8R3G3B2 => 29,
            Format::X4R4G4B4 => 30,
            Format::A2B10G10R10 => 31,
            Format::A8B8G8R8 => 32,
            Format::X8B8G8R8 => 33,
            Format::G16R16 => 34,
            Format::A2R10G10B10 => 35,
            Format::A8P8 => 40,
            Format::P8 => 41,
            Format::L8 => 50,
            Format::A8L8 => 51,
            Format::A4L4 => 52,
            Format::V8U8 => 60,
            Format::L6V5U5 => 61,
            Format::X8L8V8U8 => 62,
            Format::Q8W8V8U8 => 63,
            Format::V16U16 => 64,
            Format::A2W10V10U10 => 67,
            Format::UYVY => 0x59565955,
            Format::R8g8B8g8 => 0x47424752,
            Format::YUY2 => 0x32595559,
            Format::G8r8G8b8 => 0x42475247,
            Format::DXT1 => 0x31545844,
            Format::DXT2 => 0x32545844,
            Format::DXT3 => 0x33545844,
            Format::DXT4 => 0x34545844,
            Format::DXT5 => 0x35545844,
            Format::D16Lockable => 70,
            Format::D32 => 71,
            Format::D15S1 => 73,
            Format::D24S8 => 75,
            Format::D24X8 => 77,
            Format::D24X4S4 => 79,
            Format::D16 => 80,
            Format::D32fLockable => 82,
            Format::D24FS8 => 83,
            Format::D32Lockable => 84,
            Format::S8Lockable => 85,
            Format::L16 => 81,
            Format::VertexData => 100,
            Format::Index16 => 101,
            Format::Index32 => 102,
            Format::Q16W16V16U16 => 110,
            Format::R16F => 111,
            Format::G16R16F => 112,
            Format::A16B16G16R16 => 36,
            Format::R32F => 114,
            Format::G32R32F => 115,
            Format::CxV8U8 => 117,
            Format::A1 => 118,
            Format::BinaryBuffer => 199,
        }
    }

    /// The numeric format code handed to the native API.
    pub fn code(self) -> (r: u32)
        ensures
            r == self.code_spec(),
    {
        match self {
            Format::Unknown => 0,
            Format::R8G8B8 => 20,
            Format::A8R8G8B8 => 21,
            Format::X8R8G8B8 => 22,
            Format::R5G6B5 => 23,
            Format::X1R5G5B5 => 24,
            Format::A1R5G5B5 => 25,
            Format::A4R4G4B4 => 26,
            Format::R3G3B2 => 27,
            Format::A8 => 28,
            Format::A8R3G3B2 => 29,
            Format::X4R4G4B4 => 30,
            Format::A2B10G10R10 => 31,
            Format::A8B8G8R8 => 32,
            Format::X8B8G8R8 => 33,
            Format::G16R16 => 34,
            Format::A2R10G10B10 => 35,
            Format::A8P8 => 40,
            Format::P8 => 41,
            Format::L8 => 50,
            Format::A8L8 => 51,
            Format::A4L4 => 52,
            Format::V8U8 => 60,
            Format::L6V5U5 => 61,
            Format::X8L8V8U8 => 62,
            Format::Q8W8V8U8 => 63,
            Format::V16U16 => 64,
            Format::A2W10V10U10 => 67,
            Format::UYVY => 0x59565955,
            Format::R8g8B8g8 => 0x47424752,
            Format::YUY2 => 0x32595559,
            Format::G8r8G8b8 => 0x42475247,
            Format::DXT1 => 0x31545844,
            Format::DXT2 => 0x32545844,
            Format::DXT3 => 0x33545844,
            Format::DXT4 => 0x34545844,
            Format::DXT5 => 0x35545844,
            Format::D16Lockable => 70,
            Format::D32 => 71,
            Format::D15S1 => 73,
            Format::D24S8 => 75,
            Format::D24X8 => 77,
            Format::D24X4S4 => 79,
            Format::D16 => 80,
            Format::D32fLockable => 82,
            Format::D24FS8 => 83,
            Format::D32Lockable => 84,
            Format::S8Lockable => 85,
            Format::L16 => 81,
            Format::VertexData => 100,
            Format::Index16 => 101,
            Format::Index32 => 102,
            Format::Q16W16V16U16 => 110,
            Format::R16F => 111,
            Format::G16R16F => 112,
            Format::A16B16G16R16 => 36,
            Format::R32F => 114,
            Format::G32R32F => 115,
            Format::CxV8U8 => 117,
            Format::A1 => 118,
            Format::BinaryBuffer => 199,
        }
    }

    /// Whether a number is the code of some format.
    pub open spec fn is_code(code: u32) -> bool {
        exists|f: Format| (#[trigger] f.code_spec()) == code
    }

    /// The format a native code stands for, if any: the inverse of
    /// [`Format::code`].  A number that is no format's code yields `None`:
    /// an unknown code is rejected rather than reinterpreted.
    pub fn from_code(code: u32) -> (r: Option<Format>)
        ensures
            r matches Some(f) ==> f.code_spec() == code,
            r is Some <==> Format::is_code(code),
    {
        let r = match code {
            0 => Some(Format::Unknown),
            20 => Some(Format::R8G8B8),
            21 => Some(Format::A8R8G8B8),
            22 => Some(Format::X8R8G8B8),
            23 => Some(Format::R5G6B5),
            24 => Some(Format::X1R5G5B5),
            25 => Some(Format::A1R5G5B5),
            26 => Some(Format::A4R4G4B4),
            27 => Some(Format::R3G3B2),
            28 => Some(Format::A8),
            29 => Some(Format::A8R3G3B2),
            30 => Some(Format::X4R4G4B4),
            31 => Some(Format::A2B10G10R10),
            32 => Some(Format::A8B8G8R8),
            33 => Some(Format::X8B8G8R8),
            34 => Some(Format::G16R16),
            35 => Some(Format::A2R10G10B10),
            40 => Some(Format::A8P8),
            41 => Some(Format::P8),
            50 => Some(Format::L8),
            51 => Some(Format::A8L8),
            52 => Some(Format::A4L4),
            60 => Some(Format::V8U8),
            61 => Some(Format::L6V5U5),
            62 => Some(Format::X8L8V8U8),
            63 => Some(Format::Q8W8V8U8),
            64 => Some(Format::V16U16),
            67 => Some(Format::A2W10V10U10),
            0x59565955 => Some(Format::UYVY),
            0x47424752 => Some(Format::R8g8B8g8),
            0x32595559 => Some(Format::YUY2),
            0x42475247 => Some(Format::G8r8G8b8),
            0x31545844 => Some(Format::DXT1),
            0x32545844 => Some(Format::DXT2),
            0x33545844 => Some(Format::DXT3),
            0x34545844 => Some(Format::DXT4),
            0x35545844 => Some(Format::DXT5),
            70 => Some(Format::D16Lockable),
            71 => Some(Format::D32),
            73 => Some(Format::D15S1),
            75 => Some(Format::D24S8),
            77 => Some(Format::D24X8),
            79 => Some(Format::D24X4S4),
            80 => Some(Format::D16),
            82 => Some(Format::D32fLockable),
            83 => Some(Format::D24FS8),
            84 => Some(Format::D32Lockable),
            85 => Some(Format::S8Lockable),
            81 => Some(Format::L16),
            100 => Some(Format::VertexData),
            101 => Some(Format::Index16),
            102 => Some(Format::Index32),
            110 => Some(Format::Q16W16V16U16),
            111 => Some(Format::R16F),
            112 => Some(Format::G16R16F),
            36 => Some(Format::A16B16G16R16),
            114 => Some(Format::R32F),
            115 => Some(Format::G32R32F),
            117 => Some(Format::CxV8U8),
            118 => Some(Format::A1),
            199 => Some(Format::BinaryBuffer),
            _ => None,
        };
        proof {
            match r {
                Some(f) => {
                    assert(f.code_spec() == code);
                },
                None => {
                    assert(forall|f: Format| (#[trigger] f.code_spec()) != code);
                },
            }
        }
        r
    }
}

/// Law: no two formats share a code, so a code determines its format.
pub proof fn lemma_format_code_injective(a: Format, b: Format)
    requires
        a.code_spec() == b.code_spec(),
    ensures
        a == b,
{
}

/// Flags for creating a device: the behavior the device is asked for.
pub struct BehaviorFlags(pub u32);

impl BehaviorFlags {
    /// Whether the `fpu_preserve` flag (bit 1) is set.
    pub open spec fn fpu_preserve_spec(self) -> bool {
        self.0 & 0x2u32 == 0x2u32
    }

    /// Whether the `fpu_preserve` flag is set.
    pub fn fpu_preserve(&self) -> (r: bool)
        ensures
            r == self.fpu_preserve_spec(),
    {
        self.0 & 0x2u32 == 0x2u32
    }

    /// Sets or clears the `fpu_preserve` flag.
    pub fn set_fpu_preserve(&mut self, value: bool)
        ensures
            final(self).0 == if value { old(self).0 | 0x2u32 } else { old(self).0 & !0x2u32 },
    {
        if value {
            self.0 = self.0 | 0x2u32;
        } else {
            self.0 = self.0 & !0x2u32;
        }
    }

    /// Whether the `multithreaded` flag (bit 2) is set.
    pub open spec fn multithreaded_spec(self) -> bool {
        self.0 & 0x4u32 == 0x4u32
    }

    /// Whether the `multithreaded` flag is set.
    pub fn multithreaded(&self) -> (r: bool)
        ensures
            r == self.multithreaded_spec(),
    {
        self.0 & 0x4u32 == 0x4u32
    }

    /// Sets or clears the `multithreaded` flag.
    pub fn set_multithreaded(&mut self, value: bool)
        ensures
            final(self).0 == if value { old(self).0 | 0x4u32 } else { old(self).0 & !0x4u32 },
    {
        if value {
            self.0 = self.0 | 0x4u32;
        } else {
            self.0 = self.0 & !0x4u32;
        }
    }

    /// Whether the `pure_device` flag (bit 4) is set.
    pub open spec fn pure_device_spec(self) -> bool {
        self.0 & 0x10u32 == 0x10u32
    }

    /// Whether the `pure_device` flag is set.
    pub fn pure_device(&self) -> (r: bool)
        ensures
            r == self.pure_device_spec(),
    {
        self.0 & 0x10u32 == 0x10u32
    }

    /// Sets or clears the `pure_device` flag.
    pub fn set_pure_device(&mut self, value: bool)
        ensures
            final(self).0 == if value { old(self).0 | 0x10u32 } else { old(self).0 & !0x10u32 },
    {
        if value {
            self.0 = self.0 | 0x10u32;
        } else {
            self.0 = self.0 & !0x10u32;
        }
    }

    /// Whether the `software_vertex_processing` flag (bit 5) is set.
    pub open spec fn software_vertex_processing_spec(self) -> bool {
        self.0 & 0x20u32 == 0x20u32
    }

    /// Whether the `software_vertex_processing` flag is set.
    pub fn software_vertex_processing(&self) -> (r: bool)
        ensures
            r == self.software_vertex_processing_spec(),
    {
        self.0 & 0x20u32 == 0x20u32
    }

    /// Sets or clears the `software_vertex_processing` flag.
    pub fn set_software_vertex_processing(&mut self, value: bool)
        ensures
            final(self).0 == if value { old(self).0 | 0x20u32 } else { old(self).0 & !0x20u32 },
    {
        if value {
            self.0 = self.0 | 0x20u32;
        } else {
            self.0 = self.0 & !0x20u32;
        }
    }

    /// Whether the `hardware_vertex_processing` flag (bit 6) is set.
    pub open spec fn hardware_vertex_processing_spec(self) -> bool {
        self.0 & 0x40u32 == 0x40u32
    }

    /// Whether the `hardware_vertex_processing` flag is set.
    pub fn hardware_vertex_processing(&self) -> (r: bool)
        ensures
            r == self.hardware_vertex_processing_spec(),
    {
        self.0 & 0x40u32 == 0x40u32
    }

    /// Sets or clears the `hardware_vertex_processing` flag.
    pub fn set_hardware_vertex_processing(&mut self, value: bool)
        ensures
            final(self).0 == if value { old(self).0 | 0x40u32 } else { old(self).0 & !0x40u32 },
    {
        if value {
            self.0 = self.0 | 0x40u32;
        } else {
            self.0 = self.0 & !0x40u32;
        }
    }

    /// Whether the `mixed_vertex_processing` flag (bit 7) is set.
    pub open spec fn mixed_vertex_processing_spec(self) -> bool {
        self.0 & 0x80u32 == 0x80u32
    }

    /// Whether the `mixed_vertex_processing` flag is set.
    pub fn mixed_vertex_processing(&self) -> (r: bool)
        ensures
            r == self.mixed_vertex_processing_spec(),
    {
        self.0 & 0x80u32 == 0x80u32
    }

    /// Sets or clears the `mixed_vertex_processing` flag.
    pub fn set_mixed_vertex_processing(&mut self, value: bool)
        ensures
            final(self).0 == if value { old(self).0 | 0x80u32 } else { old(self).0 & !0x80u32 },
    {
        if value {
            self.0 = self.0 | 0x80u32;
        } else {
            self.0 = self.0 & !0x80u32;
        }
    }

    /// Whether the `disable_driver_management` flag (bit 8) is set.
    pub open spec fn disable_driver_management_spec(self) -> bool {
        self.0 & 0x100u32 == 0x100u32
    }

    /// Whether the `disable_driver_management` flag is set.
    pub fn disable_driver_management(&self) -> (r: bool)
        ensures
            r == self.disable_driver_management_spec(),
    {
        self.0 & 0x100u32 == 0x100u32
    }

    /// Sets or clears the `disable_driver_management` flag.
    pub fn set_disable_driver_management(&mut self, value: bool)
        ensures
            final(self).0 == if value { old(self).0 | 0x100u32 } else { old(self).0 & !0x100u32 },
    {
        if value {
            self.0 = self.0 | 0x100u32;
        } else {
            self.0 = self.0 & !0x100u32;
        }
    }

    /// Whether the `adapter_group_device` flag (bit 9) is set.
    pub open spec fn adapter_group_device_spec(self) -> bool {
        self.0 & 0x200u32 == 0x200u32
    }

    /// Whether the `adapter_group_device` flag is set.
    pub fn adapter_group_device(&self) -> (r: bool)
        ensures
            r == self.adapter_group_device_spec(),
    {
        self.0 & 0x200u32 == 0x200u32
    }

    /// Sets or clears the `adapter_group_device` flag.
    pub fn set_adapter_group_device(&mut self, value: bool)
        ensures
            final(self).0 == if value { old(self).0 | 0x200u32 } else { old(self).0 & !0x200u32 },
    {
        if value {
            self.0 = self.0 | 0x200u32;
        } else {
            self.0 = self.0 & !0x200u32;
        }
    }

    /// Whether the `disable_driver_management_ex` flag (bit 10) is set.
    pub open spec fn disable_driver_management_ex_spec(self) -> bool {
        self.0 & 0x400u32 == 0x400u32
    }

    /// Whether the `disable_driver_management_ex` flag is set.
    pub fn disable_driver_management_ex(&self) -> (r: bool)
        ensures
            r == self.disable_driver_management_ex_spec(),
    {
        self.0 & 0x400u32 == 0x400u32
    }

    /// Sets or clears the `disable_driver_management_ex` flag.
    pub fn set_disable_driver_management_ex(&mut self, value: bool)
        ensures
            final(self).0 == if value { old(self).0 | 0x400u32 } else { old(self).0 & !0x400u32 },
    {
        if value {
            self.0 = self.0 | 0x400u32;
        } else {
            self.0 = self.0 & !0x400u32;
        }
    }

    /// Whether the `no_window_changes` flag (bit 11) is set.
    pub open spec fn no_window_changes_spec(self) -> bool {
        self.0 & 0x800u32 == 0x800u32
    }

    /// Whether the `no_window_changes` flag is set.
    pub fn no_window_changes(&self) -> (r: bool)
        ensures
            r == self.no_window_changes_spec(),
    {
        self.0 & 0x800u32 == 0x800u32
    }

    /// Sets or clears the `no_window_changes` flag.
    pub fn set_no_window_changes(&mut self, value: bool)
        ensures
            final(self).0 == if value { old(self).0 | 0x800u32 } else { old(self).0 & !0x800u32 },
    {
        if value {
            self.0 = self.0 | 0x800u32;
        } else {
            self.0 = self.0 & !0x800u32;
        }
    }

}

impl Default for BehaviorFlags {
    /// The empty flag word: no flag set.
    fn default() -> (r: BehaviorFlags)
        ensures
            r.0 == 0,
    {
        BehaviorFlags(0)
    }
}

impl From<BehaviorFlags> for u32 {
    fn from(v: BehaviorFlags) -> (r: u32)
        ensures
            r == v.0,
    {
        v.0
    }
}

impl vstd::std_specs::convert::FromSpecImpl<BehaviorFlags> for u32 {
    open spec fn obeys_from_spec() -> bool {
        true
    }

    open spec fn from_spec(v: BehaviorFlags) -> u32 {
        v.0
    }
}

/// Flags for a clear call: which buffers of the viewport to clear.
pub struct Clear(pub u32);

impl Clear {
    /// Whether the `target` flag (bit 0) is set.
    pub open spec fn target_spec(self) -> bool {
        self.0 & 0x1u32 == 0x1u32
    }

    /// Whether the `target` flag is set.
    pub fn target(&self) -> (r: bool)
        ensures
            r == self.target_spec(),
    {
        self.0 & 0x1u32 == 0x1u32
    }

    /// Sets or clears the `target` flag.
    pub fn set_target(&mut self, value: bool)
        ensures
            final(self).0 == if value { old(self).0 | 0x1u32 } else { old(self).0 & !0x1u32 },
    {
        if value {
            self.0 = self.0 | 0x1u32;
        } else {
            self.0 = self.0 & !0x1u32;
        }
    }

    /// Whether the `zbuffer` flag (bit 1) is set.
    pub open spec fn zbuffer_spec(self) -> bool {
        self.0 & 0x2u32 == 0x2u32
    }

    /// Whether the `zbuffer` flag is set.
    pub fn zbuffer(&self) -> (r: bool)
        ensures
            r == self.zbuffer_spec(),
    {
        self.0 & 0x2u32 == 0x2u32
    }

    /// Sets or clears the `zbuffer` flag.
    pub fn set_zbuffer(&mut self, value: bool)
        ensures
            final(self).0 == if value { old(self).0 | 0x2u32 } else { old(self).0 & !0x2u32 },
    {
        if value {
            self.0 = self.0 | 0x2u32;
        } else {
            self.0 = self.0 & !0x2u32;
        }
    }

    /// Whether the `stencil` flag (bit 2) is set.
    pub open spec fn stencil_spec(self) -> bool {
        self.0 & 0x4u32 == 0x4u32
    }

    /// Whether the `stencil` flag is set.
    pub fn stencil(&self) -> (r: bool)
        ensures
            r == self.stencil_spec(),
    {
        self.0 & 0x4u32 == 0x4u32
    }

    /// Sets or clears the `stencil` flag.
    pub fn set_stencil(&mut self, value: bool)
        ensures
            final(self).0 == if value { old(self).0 | 0x4u32 } else { old(self).0 & !0x4u32 },
    {
        if value {
            self.0 = self.0 | 0x4u32;
        } else {
            self.0 = self.0 & !0x4u32;
        }
    }

}

impl Default for Clear {
    /// The empty flag word: no flag set.
    fn default() -> (r: Clear)
        ensures
            r.0 == 0,
    {
        Clear(0)
    }
}

impl From<Clear> for u32 {
    fn from(v: Clear) -> (r: u32)
        ensures
            r == v.0,
    {
        v.0
    }
}

impl vstd::std_specs::convert::FromSpecImpl<Clear> for u32 {
    open spec fn obeys_from_spec() -> bool {
        true
    }

    open spec fn from_spec(v: Clear) -> u32 {
        v.0
    }
}

/// Taking the union with a mask sets every bit of the mask.
proof fn lemma_or_sets_mask(x: u32, m: u32)
    ensures
        (x | m) & m == m,
{
    assert((x | m) & m == m) by (bit_vector);
}

impl Clear {
    /// Returns the flags with the render target selected.
    pub fn with_target(self) -> (r: Clear)
        ensures
            r.0 == self.0 | 0x1u32,
            r.target_spec(),
    {
        let ghost orig: u32 = self.0;
        let mut flags = self;
        flags.set_target(true);
        proof {
            lemma_or_sets_mask(orig, 0x1u32);
        }
        flags
    }

    /// Returns the flags with the depth buffer selected.
    pub fn with_zbuffer(self) -> (r: Clear)
        ensures
            r.0 == self.0 | 0x2u32,
            r.zbuffer_spec(),
    {
        let ghost orig: u32 = self.0;
        let mut flags = self;
        flags.set_zbuffer(true);
        proof {
            lemma_or_sets_mask(orig, 0x2u32);
        }
        flags
    }

    /// Returns the flags with the stencil buffer selected.
    pub fn with_stencil(self) -> (r: Clear)
        ensures
            r.0 == self.0 | 0x4u32,
            r.stencil_spec(),
    {
        let ghost orig: u32 = self.0;
        let mut flags = self;
        flags.set_stencil(true);
        proof {
            lemma_or_sets_mask(orig, 0x4u32);
        }
        flags
    }
}

/// Represents the usage type for a buffer resource.
pub struct Usage(pub u32);

impl Usage {
    /// Whether the `render_target` flag (bit 0) is set.
    pub open spec fn render_target_spec(self) -> bool {
        self.0 & 0x1u32 == 0x1u32
    }

    /// Whether the `render_target` flag is set.
    pub fn render_target(&self) -> (r: bool)
        ensures
            r == self.render_target_spec(),
    {
        self.0 & 0x1u32 == 0x1u32
    }

    /// Sets or clears the `render_target` flag.
    pub fn set_render_target(&mut self, value: bool)
        ensures
            final(self).0 == if value { old(self).0 | 0x1u32 } else { old(self).0 & !0x1u32 },
    {
        if value {
            self.0 = self.0 | 0x1u32;
        } else {
            self.0 = self.0 & !0x1u32;
        }
    }

    /// Whether the `depth_stencil` flag (bit 1) is set.
    pub open spec fn depth_stencil_spec(self) -> bool {
        self.0 & 0x2u32 == 0x2u32
    }

    /// Whether the `depth_stencil` flag is set.
    pub fn depth_stencil(&self) -> (r: bool)
        ensures
            r == self.depth_stencil_spec(),
    {
        self.0 & 0x2u32 == 0x2u32
    }

    /// Sets or clears the `depth_stencil` flag.
    pub fn set_depth_stencil(&mut self, value: bool)
        ensures
            final(self).0 == if value { old(self).0 | 0x2u32 } else { old(self).0 & !0x2u32 },
    {
        if value {
            self.0 = self.0 | 0x2u32;
        } else {
            self.0 = self.0 & !0x2u32;
        }
    }

    /// Whether the `dynamic` flag (bit 9) is set.
    pub open spec fn dynamic_spec(self) -> bool {
        self.0 & 0x200u32 == 0x200u32
    }

    /// Whether the `dynamic` flag is set.
    pub fn dynamic(&self) -> (r: bool)
        ensures
            r == self.dynamic_spec(),
    {
        self.0 & 0x200u32 == 0x200u32
    }

    /// Sets or clears the `dynamic` flag.
    pub fn set_dynamic(&mut self, value: bool)
        ensures
            final(self).0 == if value { old(self).0 | 0x200u32 } else { old(self).0 & !0x200u32 },
    {
        if value {
            self.0 = self.0 | 0x200u32;
        } else {
            self.0 = self.0 & !0x200u32;
        }
    }

    /// Whether the `non_secure` flag (bit 23) is set.
    pub open spec fn non_secure_spec(self) -> bool {
        self.0 & 0x800000u32 == 0x800000u32
    }

    /// Whether the `non_secure` flag is set.
    pub fn non_secure(&self) -> (r: bool)
        ensures
            r == self.non_secure_spec(),
    {
        self.0 & 0x800000u32 == 0x800000u32
    }

    /// Sets or clears the `non_secure` flag.
    pub fn set_non_secure(&mut self, value: bool)
        ensures
            final(self).0 == if value { old(self).0 | 0x800000u32 } else { old(self).0 & !0x800000u32 },
    {
        if value {
            self.0 = self.0 | 0x800000u32;
        } else {
            self.0 = self.0 & !0x800000u32;
        }
    }

    /// Whether the `auto_genmipmap` flag (bit 10) is set.
    pub open spec fn auto_genmipmap_spec(self) -> bool {
        self.0 & 0x400u32 == 0x400u32
    }

    /// Whether the `auto_genmipmap` flag is set.
    pub fn auto_genmipmap(&self) -> (r: bool)
        ensures
            r == self.auto_genmipmap_spec(),
    {
        self.0 & 0x400u32 == 0x400u32
    }

    /// Sets or clears the `auto_genmipmap` flag.
    pub fn set_auto_genmipmap(&mut self, value: bool)
        ensures
            final(self).0 == if value { old(self).0 | 0x400u32 } else { old(self).0 & !0x400u32 },
    {
        if value {
            self.0 = self.0 | 0x400u32;
        } else {
            self.0 = self.0 & !0x400u32;
        }
    }

    /// Whether the `dmap` flag (bit 14) is set.
    pub open spec fn dmap_spec(self) -> bool {
        self.0 & 0x4000u32 == 0x4000u32
    }

    /// Whether the `dmap` flag is set.
    pub fn dmap(&self) -> (r: bool)
        ensures
            r == self.dmap_spec(),
    {
        self.0 & 0x4000u32 == 0x4000u32
    }

    /// Sets or clears the `dmap` flag.
    pub fn set_dmap(&mut self, value: bool)
        ensures
            final(self).0 == if value { old(self).0 | 0x4000u32 } else { old(self).0 & !0x4000u32 },
    {
        if value {
            self.0 = self.0 | 0x4000u32;
        } else {
            self.0 = self.0 & !0x4000u32;
        }
    }

    /// Whether the `query_legacy_bumpmap` flag (bit 15) is set.
    pub open spec fn query_legacy_bumpmap_spec(self) -> bool {
        self.0 & 0x8000u32 == 0x8000u32
    }

    /// Whether the `query_legacy_bumpmap` flag is set.
    pub fn query_legacy_bumpmap(&self) -> (r: bool)
        ensures
            r == self.query_legacy_bumpmap_spec(),
    {
        self.0 & 0x8000u32 == 0x8000u32
    }

    /// Sets or clears the `query_legacy_bumpmap` flag.
    pub fn set_query_legacy_bumpmap(&mut self, value: bool)
        ensures
            final(self).0 == if value { old(self).0 | 0x8000u32 } else { old(self).0 & !0x8000u32 },
    {
        if value {
            self.0 = self.0 | 0x8000u32;
        } else {
            self.0 = self.0 & !0x8000u32;
        }
    }

    /// Whether the `query_srgbread` flag (bit 16) is set.
    pub open spec fn query_srgbread_spec(self) -> bool {
        self.0 & 0x10000u32 == 0x10000u32
    }

    /// Whether the `query_srgbread` flag is set.
    pub fn query_srgbread(&self) -> (r: bool)
        ensures
            r == self.query_srgbread_spec(),
    {
        self.0 & 0x10000u32 == 0x10000u32
    }

    /// Sets or clears the `query_srgbread` flag.
    pub fn set_query_srgbread(&mut self, value: bool)
        ensures
            final(self).0 == if value { old(self).0 | 0x10000u32 } else { old(self).0 & !0x10000u32 },
    {
        if value {
            self.0 = self.0 | 0x10000u32;
        } else {
            self.0 = self.0 & !0x10000u32;
        }
    }

    /// Whether the `query_filter` flag (bit 17) is set.
    pub open spec fn query_filter_spec(self) -> bool {
        self.0 & 0x20000u32 == 0x20000u32
    }

    /// Whether the `query_filter` flag is set.
    pub fn query_filter(&self) -> (r: bool)
        ensures
            r == self.query_filter_spec(),
    {
        self.0 & 0x20000u32 == 0x20000u32
    }

    /// Sets or clears the `query_filter` flag.
    pub fn set_query_filter(&mut self, value: bool)
        ensures
            final(self).0 == if value { old(self).0 | 0x20000u32 } else { old(self).0 & !0x20000u32 },
    {
        if value {
            self.0 = self.0 | 0x20000u32;
        } else {
            self.0 = self.0 & !0x20000u32;
        }
    }

    /// Whether the `query_srgbwrite` flag (bit 18) is set.
    pub open spec fn query_srgbwrite_spec(self) -> bool {
        self.0 & 0x40000u32 == 0x40000u32
    }

    /// Whether the `query_srgbwrite` flag is set.
    pub fn query_srgbwrite(&self) -> (r: bool)
        ensures
            r == self.query_srgbwrite_spec(),
    {
        self.0 & 0x40000u32 == 0x40000u32
    }

    /// Sets or clears the `query_srgbwrite` flag.
    pub fn set_query_srgbwrite(&mut self, value: bool)
        ensures
            final(self).0 == if value { old(self).0 | 0x40000u32 } else { old(self).0 & !0x40000u32 },
    {
        if value {
            self.0 = self.0 | 0x40000u32;
        } else {
            self.0 = self.0 & !0x40000u32;
        }
    }

    /// Whether the `query_post_pixel_shader_blending` flag (bit 19) is set.
    pub open spec fn query_post_pixel_shader_blending_spec(self) -> bool {
        self.0 & 0x80000u32 == 0x80000u32
    }

    /// Whether the `query_post_pixel_shader_blending` flag is set.
    pub fn query_post_pixel_shader_blending(&self) -> (r: bool)
        ensures
            r == self.query_post_pixel_shader_blending_spec(),
    {
        self.0 & 0x80000u32 == 0x80000u32
    }

    /// Sets or clears the `query_post_pixel_shader_blending` flag.
    pub fn set_query_post_pixel_shader_blending(&mut self, value: bool)
        ensures
            final(self).0 == if value { old(self).0 | 0x80000u32 } else { old(self).0 & !0x80000u32 },
    {
        if value {
            self.0 = self.0 | 0x80000u32;
        } else {
            self.0 = self.0 & !0x80000u32;
        }
    }

    /// Whether the `query_vertex_texture` flag (bit 20) is set.
    pub open spec fn query_vertex_texture_spec(self) -> bool {
        self.0 & 0x100000u32 == 0x100000u32
    }

    /// Whether the `query_vertex_texture` flag is set.
    pub fn query_vertex_texture(&self) -> (r: bool)
        ensures
            r == self.query_vertex_texture_spec(),
    {
        self.0 & 0x100000u32 == 0x100000u32
    }

    /// Sets or clears the `query_vertex_texture` flag.
    pub fn set_query_vertex_texture(&mut self, value: bool)
        ensures
            final(self).0 == if value { old(self).0 | 0x100000u32 } else { old(self).0 & !0x100000u32 },
    {
        if value {
            self.0 = self.0 | 0x100000u32;
        } else {
            self.0 = self.0 & !0x100000u32;
        }
    }

    /// Whether the `query_wrap_and_mip` flag (bit 21) is set.
    pub open spec fn query_wrap_and_mip_spec(self) -> bool {
        self.0 & 0x200000u32 == 0x200000u32
    }

    /// Whether the `query_wrap_and_mip` flag is set.
    pub fn query_wrap_and_mip(&self) -> (r: bool)
        ensures
            r == self.query_wrap_and_mip_spec(),
    {
        self.0 & 0x200000u32 == 0x200000u32
    }

    /// Sets or clears the `query_wrap_and_mip` flag.
    pub fn set_query_wrap_and_mip(&mut self, value: bool)
        ensures
            final(self).0 == if value { old(self).0 | 0x200000u32 } else { old(self).0 & !0x200000u32 },
    {
        if value {
            self.0 = self.0 | 0x200000u32;
        } else {
            self.0 = self.0 & !0x200000u32;
        }
    }

    /// Whether the `write_only` flag (bit 3) is set.
    pub open spec fn write_only_spec(self) -> bool {
        self.0 & 0x8u32 == 0x8u32
    }

    /// Whether the `write_only` flag is set.
    pub fn write_only(&self) -> (r: bool)
        ensures
            r == self.write_only_spec(),
    {
        self.0 & 0x8u32 == 0x8u32
    }

    /// Sets or clears the `write_only` flag.
    pub fn set_write_only(&mut self, value: bool)
        ensures
            final(self).0 == if value { old(self).0 | 0x8u32 } else { old(self).0 & !0x8u32 },
    {
        if value {
            self.0 = self.0 | 0x8u32;
        } else {
            self.0 = self.0 & !0x8u32;
        }
    }

    /// Whether the `software_processing` flag (bit 4) is set.
    pub open spec fn software_processing_spec(self) -> bool {
        self.0 & 0x10u32 == 0x10u32
    }

    /// Whether the `software_processing` flag is set.
    pub fn software_processing(&self) -> (r: bool)
        ensures
            r == self.software_processing_spec(),
    {
        self.0 & 0x10u32 == 0x10u32
    }

    /// Sets or clears the `software_processing` flag.
    pub fn set_software_processing(&mut self, value: bool)
        ensures
            final(self).0 == if value { old(self).0 | 0x10u32 } else { old(self).0 & !0x10u32 },
    {
        if value {
            self.0 = self.0 | 0x10u32;
        } else {
            self.0 = self.0 & !0x10u32;
        }
    }

    /// Whether the `do_not_clip` flag (bit 5) is set.
    pub open spec fn do_not_clip_spec(self) -> bool {
        self.0 & 0x20u32 == 0x20u32
    }

    /// Whether the `do_not_clip` flag is set.
    pub fn do_not_clip(&self) -> (r: bool)
        ensures
            r == self.do_not_clip_spec(),
    {
        self.0 & 0x20u32 == 0x20u32
    }

    /// Sets or clears the `do_not_clip` flag.
    pub fn set_do_not_clip(&mut self, value: bool)
        ensures
            final(self).0 == if value { old(self).0 | 0x20u32 } else { old(self).0 & !0x20u32 },
    {
        if value {
            self.0 = self.0 | 0x20u32;
        } else {
            self.0 = self.0 & !0x20u32;
        }
    }

    /// Whether the `points` flag (bit 6) is set.
    pub open spec fn points_spec(self) -> bool {
        self.0 & 0x40u32 == 0x40u32
    }

    /// Whether the `points` flag is set.
    pub fn points(&self) -> (r: bool)
        ensures
            r == self.points_spec(),
    {
        self.0 & 0x40u32 == 0x40u32
    }

    /// Sets or clears the `points` flag.
    pub fn set_points(&mut self, value: bool)
        ensures
            final(self).0 == if value { old(self).0 | 0x40u32 } else { old(self).0 & !0x40u32 },
    {
        if value {
            self.0 = self.0 | 0x40u32;
        } else {
            self.0 = self.0 & !0x40u32;
        }
    }

    /// Whether the `rt_patches` flag (bit 7) is set.
    pub open spec fn rt_patches_spec(self) -> bool {
        self.0 & 0x80u32 == 0x80u32
    }

    /// Whether the `rt_patches` flag is set.
    pub fn rt_patches(&self) -> (r: bool)
        ensures
            r == self.rt_patches_spec(),
    {
        self.0 & 0x80u32 == 0x80u32
    }

    /// Sets or clears the `rt_patches` flag.
    pub fn set_rt_patches(&mut self, value: bool)
        ensures
            final(self).0 == if value { old(self).0 | 0x80u32 } else { old(self).0 & !0x80u32 },
    {
        if value {
            self.0 = self.0 | 0x80u32;
        } else {
            self.0 = self.0 & !0x80u32;
        }
    }

    /// Whether the `n_patches` flag (bit 8) is set.
    pub open spec fn n_patches_spec(self) -> bool {
        self.0 & 0x100u32 == 0x100u32
    }

    /// Whether the `n_patches` flag is set.
    pub fn n_patches(&self) -> (r: bool)
        ensures
            r == self.n_patches_spec(),
    {
        self.0 & 0x100u32 == 0x100u32
    }

    /// Sets or clears the `n_patches` flag.
    pub fn set_n_patches(&mut self, value: bool)
        ensures
            final(self).0 == if value { old(self).0 | 0x100u32 } else { old(self).0 & !0x100u32 },
    {
        if value {
            self.0 = self.0 | 0x100u32;
        } else {
            self.0 = self.0 & !0x100u32;
        }
    }

    /// Whether the `text_api` flag (bit 28) is set.
    pub open spec fn text_api_spec(self) -> bool {
        self.0 & 0x10000000u32 == 0x10000000u32
    }

    /// Whether the `text_api` flag is set.
    pub fn text_api(&self) -> (r: bool)
        ensures
            r == self.text_api_spec(),
    {
        self.0 & 0x10000000u32 == 0x10000000u32
    }

    /// Sets or clears the `text_api` flag.
    pub fn set_text_api(&mut self, value: bool)
        ensures
            final(self).0 == if value { old(self).0 | 0x10000000u32 } else { old(self).0 & !0x10000000u32 },
    {
        if value {
            self.0 = self.0 | 0x10000000u32;
        } else {
            self.0 = self.0 & !0x10000000u32;
        }
    }

    /// Whether the `restricted_content` flag (bit 11) is set.
    pub open spec fn restricted_content_spec(self) -> bool {
        self.0 & 0x800u32 == 0x800u32
    }

    /// Whether the `restricted_content` flag is set.
    pub fn restricted_content(&self) -> (r: bool)
        ensures
            r == self.restricted_content_spec(),
    {
        self.0 & 0x800u32 == 0x800u32
    }

    /// Sets or clears the `restricted_content` flag.
    pub fn set_restricted_content(&mut self, value: bool)
        ensures
            final(self).0 == if value { old(self).0 | 0x800u32 } else { old(self).0 & !0x800u32 },
    {
        if value {
            self.0 = self.0 | 0x800u32;
        } else {
            self.0 = self.0 & !0x800u32;
        }
    }

    /// Whether the `restrict_shared_resource` flag (bit 13) is set.
    pub open spec fn restrict_shared_resource_spec(self) -> bool {
        self.0 & 0x2000u32 == 0x2000u32
    }

    /// Whether the `restrict_shared_resource` flag is set.
    pub fn restrict_shared_resource(&self) -> (r: bool)
        ensures
            r == self.restrict_shared_resource_spec(),
    {
        self.0 & 0x2000u32 == 0x2000u32
    }

    /// Sets or clears the `restrict_shared_resource` flag.
    pub fn set_restrict_shared_resource(&mut self, value: bool)
        ensures
            final(self).0 == if value { old(self).0 | 0x2000u32 } else { old(self).0 & !0x2000u32 },
    {
        if value {
            self.0 = self.0 | 0x2000u32;
        } else {
            self.0 = self.0 & !0x2000u32;
        }
    }

    /// Whether the `restrict_shared_resource_driver` flag (bit 12) is set.
    pub open spec fn restrict_shared_resource_driver_spec(self) -> bool {
        self.0 & 0x1000u32 == 0x1000u32
    }

    /// Whether the `restrict_shared_resource_driver` flag is set.
    pub fn restrict_shared_resource_driver(&self) -> (r: bool)
        ensures
            r == self.restrict_shared_resource_driver_spec(),
    {
        self.0 & 0x1000u32 == 0x1000u32
    }

    /// Sets or clears the `restrict_shared_resource_driver` flag.
    pub fn set_restrict_shared_resource_driver(&mut self, value: bool)
        ensures
            final(self).0 == if value { old(self).0 | 0x1000u32 } else { old(self).0 & !0x1000u32 },
    {
        if value {
            self.0 = self.0 | 0x1000u32;
        } else {
            self.0 = self.0 & !0x1000u32;
        }
    }

}

impl Default for Usage {
    /// The empty flag word: no flag set.
    fn default() -> (r: Usage)
        ensures
            r.0 == 0,
    {
        Usage(0)
    }
}

impl From<Usage> for u32 {
    fn from(v: Usage) -> (r: u32)
        ensures
            r == v.0,
    {
        v.0
    }
}

impl vstd::std_specs::convert::FromSpecImpl<Usage> for u32 {
    open spec fn obeys_from_spec() -> bool {
        true
    }

    open spec fn from_spec(v: Usage) -> u32 {
        v.0
    }
}

/// Represents the fixed vertex function pipeline configuration.  An entry that names several bits is the union of those flags.
pub struct FVF(pub u32);

impl FVF {
    /// Whether the `xyz` flag (bit 1) is set.
    pub open spec fn xyz_spec(self) -> bool {
        self.0 & 0x2u32 == 0x2u32
    }

    /// Whether the `xyz` flag is set.
    pub fn xyz(&self) -> (r: bool)
        ensures
            r == self.xyz_spec(),
    {
        self.0 & 0x2u32 == 0x2u32
    }

    /// Sets or clears the `xyz` flag.
    pub fn set_xyz(&mut self, value: bool)
        ensures
            final(self).0 == if value { old(self).0 | 0x2u32 } else { old(self).0 & !0x2u32 },
    {
        if value {
            self.0 = self.0 | 0x2u32;
        } else {
            self.0 = self.0 & !0x2u32;
        }
    }

    /// Whether the `xyzrhw` flag (bit 2) is set.
    pub open spec fn xyzrhw_spec(self) -> bool {
        self.0 & 0x4u32 == 0x4u32
    }

    /// Whether the `xyzrhw` flag is set.
    pub fn xyzrhw(&self) -> (r: bool)
        ensures
            r == self.xyzrhw_spec(),
    {
        self.0 & 0x4u32 == 0x4u32
    }

    /// Sets or clears the `xyzrhw` flag.
    pub fn set_xyzrhw(&mut self, value: bool)
        ensures
            final(self).0 == if value { old(self).0 | 0x4u32 } else { old(self).0 & !0x4u32 },
    {
        if value {
            self.0 = self.0 | 0x4u32;
        } else {
            self.0 = self.0 & !0x4u32;
        }
    }

    /// Whether the `xyzb1` flag (bits 1, 2) is set.
    pub open spec fn xyzb1_spec(self) -> bool {
        self.0 & 0x6u32 == 0x6u32
    }

    /// Whether the `xyzb1` flag is set.
    pub fn xyzb1(&self) -> (r: bool)
        ensures
            r == self.xyzb1_spec(),
    {
        self.0 & 0x6u32 == 0x6u32
    }

    /// Sets or clears the `xyzb1` flag.
    pub fn set_xyzb1(&mut self, value: bool)
        ensures
            final(self).0 == if value { old(self).0 | 0x6u32 } else { old(self).0 & !0x6u32 },
    {
        if value {
            self.0 = self.0 | 0x6u32;
        } else {
            self.0 = self.0 & !0x6u32;
        }
    }

    /// Whether the `xyzb2` flag (bit 3) is set.
    pub open spec fn xyzb2_spec(self) -> bool {
        self.0 & 0x8u32 == 0x8u32
    }

    /// Whether the `xyzb2` flag is set.
    pub fn xyzb2(&self) -> (r: bool)
        ensures
            r == self.xyzb2_spec(),
    {
        self.0 & 0x8u32 == 0x8u32
    }

    /// Sets or clears the `xyzb2` flag.
    pub fn set_xyzb2(&mut self, value: bool)
        ensures
            final(self).0 == if value { old(self).0 | 0x8u32 } else { old(self).0 & !0x8u32 },
    {
        if value {
            self.0 = self.0 | 0x8u32;
        } else {
            self.0 = self.0 & !0x8u32;
        }
    }

    /// Whether the `xyzb3` flag (bits 1, 3) is set.
    pub open spec fn xyzb3_spec(self) -> bool {
        self.0 & 0xau32 == 0xau32
    }

    /// Whether the `xyzb3` flag is set.
    pub fn xyzb3(&self) -> (r: bool)
        ensures
            r == self.xyzb3_spec(),
    {
        self.0 & 0xau32 == 0xau32
    }

    /// Sets or clears the `xyzb3` flag.
    pub fn set_xyzb3(&mut self, value: bool)
        ensures
            final(self).0 == if value { old(self).0 | 0xau32 } else { old(self).0 & !0xau32 },
    {
        if value {
            self.0 = self.0 | 0xau32;
        } else {
            self.0 = self.0 & !0xau32;
        }
    }

    /// Whether the `xyzb4` flag (bits 2, 3) is set.
    pub open spec fn xyzb4_spec(self) -> bool {
        self.0 & 0xcu32 == 0xcu32
    }

    /// Whether the `xyzb4` flag is set.
    pub fn xyzb4(&self) -> (r: bool)
        ensures
            r == self.xyzb4_spec(),
    {
        self.0 & 0xcu32 == 0xcu32
    }

    /// Sets or clears the `xyzb4` flag.
    pub fn set_xyzb4(&mut self, value: bool)
        ensures
            final(self).0 == if value { old(self).0 | 0xcu32 } else { old(self).0 & !0xcu32 },
    {
        if value {
            self.0 = self.0 | 0xcu32;
        } else {
            self.0 = self.0 & !0xcu32;
        }
    }

    /// Whether the `xyzb5` flag (bits 1, 2, 3) is set.
    pub open spec fn xyzb5_spec(self) -> bool {
        self.0 & 0xeu32 == 0xeu32
    }

    /// Whether the `xyzb5` flag is set.
    pub fn xyzb5(&self) -> (r: bool)
        ensures
            r == self.xyzb5_spec(),
    {
        self.0 & 0xeu32 == 0xeu32
    }

    /// Sets or clears the `xyzb5` flag.
    pub fn set_xyzb5(&mut self, value: bool)
        ensures
            final(self).0 == if value { old(self).0 | 0xeu32 } else { old(self).0 & !0xeu32 },
    {
        if value {
            self.0 = self.0 | 0xeu32;
        } else {
            self.0 = self.0 & !0xeu32;
        }
    }

    /// Whether the `xyzw` flag (bits 1, 14) is set.
    pub open spec fn xyzw_spec(self) -> bool {
        self.0 & 0x4002u32 == 0x4002u32
    }

    /// Whether the `xyzw` flag is set.
    pub fn xyzw(&self) -> (r: bool)
        ensures
            r == self.xyzw_spec(),
    {
        self.0 & 0x4002u32 == 0x4002u32
    }

    /// Sets or clears the `xyzw` flag.
    pub fn set_xyzw(&mut self, value: bool)
        ensures
            final(self).0 == if value { old(self).0 | 0x4002u32 } else { old(self).0 & !0x4002u32 },
    {
        if value {
            self.0 = self.0 | 0x4002u32;
        } else {
            self.0 = self.0 & !0x4002u32;
        }
    }

    /// Whether the `normal` flag (bit 4) is set.
    pub open spec fn normal_spec(self) -> bool {
        self.0 & 0x10u32 == 0x10u32
    }

    /// Whether the `normal` flag is set.
    pub fn normal(&self) -> (r: bool)
        ensures
            r == self.normal_spec(),
    {
        self.0 & 0x10u32 == 0x10u32
    }

    /// Sets or clears the `normal` flag.
    pub fn set_normal(&mut self, value: bool)
        ensures
            final(self).0 == if value { old(self).0 | 0x10u32 } else { old(self).0 & !0x10u32 },
    {
        if value {
            self.0 = self.0 | 0x10u32;
        } else {
            self.0 = self.0 & !0x10u32;
        }
    }

    /// Whether the `psize` flag (bit 5) is set.
    pub open spec fn psize_spec(self) -> bool {
        self.0 & 0x20u32 == 0x20u32
    }

    /// Whether the `psize` flag is set.
    pub fn psize(&self) -> (r: bool)
        ensures
            r == self.psize_spec(),
    {
        self.0 & 0x20u32 == 0x20u32
    }

    /// Sets or clears the `psize` flag.
    pub fn set_psize(&mut self, value: bool)
        ensures
            final(self).0 == if value { old(self).0 | 0x20u32 } else { old(self).0 & !0x20u32 },
    {
        if value {
            self.0 = self.0 | 0x20u32;
        } else {
            self.0 = self.0 & !0x20u32;
        }
    }

    /// Whether the `diffuse` flag (bit 6) is set.
    pub open spec fn diffuse_spec(self) -> bool {
        self.0 & 0x40u32 == 0x40u32
    }

    /// Whether the `diffuse` flag is set.
    pub fn diffuse(&self) -> (r: bool)
        ensures
            r == self.diffuse_spec(),
    {
        self.0 & 0x40u32 == 0x40u32
    }

    /// Sets or clears the `diffuse` flag.
    pub fn set_diffuse(&mut self, value: bool)
        ensures
            final(self).0 == if value { old(self).0 | 0x40u32 } else { old(self).0 & !0x40u32 },
    {
        if value {
            self.0 = self.0 | 0x40u32;
        } else {
            self.0 = self.0 & !0x40u32;
        }
    }

    /// Whether the `specular` flag (bit 7) is set.
    pub open spec fn specular_spec(self) -> bool {
        self.0 & 0x80u32 == 0x80u32
    }

    /// Whether the `specular` flag is set.
    pub fn specular(&self) -> (r: bool)
        ensures
            r == self.specular_spec(),
    {
        self.0 & 0x80u32 == 0x80u32
    }

    /// Sets or clears the `specular` flag.
    pub fn set_specular(&mut self, value: bool)
        ensures
            final(self).0 == if value { old(self).0 | 0x80u32 } else { old(self).0 & !0x80u32 },
    {
        if value {
            self.0 = self.0 | 0x80u32;
        } else {
            self.0 = self.0 & !0x80u32;
        }
    }

    /// Whether the `tex1` flag (bit 8) is set.
    pub open spec fn tex1_spec(self) -> bool {
        self.0 & 0x100u32 == 0x100u32
    }

    /// Whether the `tex1` flag is set.
    pub fn tex1(&self) -> (r: bool)
        ensures
            r == self.tex1_spec(),
    {
        self.0 & 0x100u32 == 0x100u32
    }

    /// Sets or clears the `tex1` flag.
    pub fn set_tex1(&mut self, value: bool)
        ensures
            final(self).0 == if value { old(self).0 | 0x100u32 } else { old(self).0 & !0x100u32 },
    {
        if value {
            self.0 = self.0 | 0x100u32;
        } else {
            self.0 = self.0 & !0x100u32;
        }
    }

    /// Whether the `tex2` flag (bit 9) is set.
    pub open spec fn tex2_spec(self) -> bool {
        self.0 & 0x200u32 == 0x200u32
    }

    /// Whether the `tex2` flag is set.
    pub fn tex2(&self) -> (r: bool)
        ensures
            r == self.tex2_spec(),
    {
        self.0 & 0x200u32 == 0x200u32
    }

    /// Sets or clears the `tex2` flag.
    pub fn set_tex2(&mut self, value: bool)
        ensures
            final(self).0 == if value { old(self).0 | 0x200u32 } else { old(self).0 & !0x200u32 },
    {
        if value {
            self.0 = self.0 | 0x200u32;
        } else {
            self.0 = self.0 & !0x200u32;
        }
    }

    /// Whether the `tex3` flag (bits 8, 9) is set.
    pub open spec fn tex3_spec(self) -> bool {
        self.0 & 0x300u32 == 0x300u32
    }

    /// Whether the `tex3` flag is set.
    pub fn tex3(&self) -> (r: bool)
        ensures
            r == self.tex3_spec(),
    {
        self.0 & 0x300u32 == 0x300u32
    }

    /// Sets or clears the `tex3` flag.
    pub fn set_tex3(&mut self, value: bool)
        ensures
            final(self).0 == if value { old(self).0 | 0x300u32 } else { old(self).0 & !0x300u32 },
    {
        if value {
            self.0 = self.0 | 0x300u32;
        } else {
            self.0 = self.0 & !0x300u32;
        }
    }

    /// Whether the `tex4` flag (bit 10) is set.
    pub open spec fn tex4_spec(self) -> bool {
        self.0 & 0x400u32 == 0x400u32
    }

    /// Whether the `tex4` flag is set.
    pub fn tex4(&self) -> (r: bool)
        ensures
            r == self.tex4_spec(),
    {
        self.0 & 0x400u32 == 0x400u32
    }

    /// Sets or clears the `tex4` flag.
    pub fn set_tex4(&mut self, value: bool)
        ensures
            final(self).0 == if value { old(self).0 | 0x400u32 } else { old(self).0 & !0x400u32 },
    {
        if value {
            self.0 = self.0 | 0x400u32;
        } else {
            self.0 = self.0 & !0x400u32;
        }
    }

    /// Whether the `tex5` flag (bits 8, 10) is set.
    pub open spec fn tex5_spec(self) -> bool {
        self.0 & 0x500u32 == 0x500u32
    }

    /// Whether the `tex5` flag is set.
    pub fn tex5(&self) -> (r: bool)
        ensures
            r == self.tex5_spec(),
    {
        self.0 & 0x500u32 == 0x500u32
    }

    /// Sets or clears the `tex5` flag.
    pub fn set_tex5(&mut self, value: bool)
        ensures
            final(self).0 == if value { old(self).0 | 0x500u32 } else { old(self).0 & !0x500u32 },
    {
        if value {
            self.0 = self.0 | 0x500u32;
        } else {
            self.0 = self.0 & !0x500u32;
        }
    }

    /// Whether the `tex6` flag (bits 9, 10) is set.
    pub open spec fn tex6_spec(self) -> bool {
        self.0 & 0x600u32 == 0x600u32
    }

    /// Whether the `tex6` flag is set.
    pub fn tex6(&self) -> (r: bool)
        ensures
            r == self.tex6_spec(),
    {
        self.0 & 0x600u32 == 0x600u32
    }

    /// Sets or clears the `tex6` flag.
    pub fn set_tex6(&mut self, value: bool)
        ensures
            final(self).0 == if value { old(self).0 | 0x600u32 } else { old(self).0 & !0x600u32 },
    {
        if value {
            self.0 = self.0 | 0x600u32;
        } else {
            self.0 = self.0 & !0x600u32;
        }
    }

    /// Whether the `tex7` flag (bits 8, 9, 10) is set.
    pub open spec fn tex7_spec(self) -> bool {
        self.0 & 0x700u32 == 0x700u32
    }

    /// Whether the `tex7` flag is set.
    pub fn tex7(&self) -> (r: bool)
        ensures
            r == self.tex7_spec(),
    {
        self.0 & 0x700u32 == 0x700u32
    }

    /// Sets or clears the `tex7` flag.
    pub fn set_tex7(&mut self, value: bool)
        ensures
            final(self).0 == if value { old(self).0 | 0x700u32 } else { old(self).0 & !0x700u32 },
    {
        if value {
            self.0 = self.0 | 0x700u32;
        } else {
            self.0 = self.0 & !0x700u32;
        }
    }

    /// Whether the `tex8` flag (bit 11) is set.
    pub open spec fn tex8_spec(self) -> bool {
        self.0 & 0x800u32 == 0x800u32
    }

    /// Whether the `tex8` flag is set.
    pub fn tex8(&self) -> (r: bool)
        ensures
            r == self.tex8_spec(),
    {
        self.0 & 0x800u32 == 0x800u32
    }

    /// Sets or clears the `tex8` flag.
    pub fn set_tex8(&mut self, value: bool)
        ensures
            final(self).0 == if value { old(self).0 | 0x800u32 } else { old(self).0 & !0x800u32 },
    {
        if value {
            self.0 = self.0 | 0x800u32;
        } else {
            self.0 = self.0 & !0x800u32;
        }
    }

}

/// Represents the type of a [`VertexElement`].
#[derive(Clone, Copy, Debug, PartialEq, Eq, Structural)]
pub enum DeclType {
    Float1,
    Float2,
    Float3,
    Float4,
    Color,
    UByte4,
    Short2,
    Short4,
    UByte4N,
    Short2N,
    Short4N,
    UShort2N,
    UShort4N,
    UDec3,
    Dec3N,
    Float16By2,
    Float16By4,
}

impl DeclType {
    /// The numeric element-type code handed to the native API.
    pub open spec fn code_spec(self) -> u8 {
        match self {
            DeclType::Float1 => 0,
            DeclType::Float2 => 1,
            DeclType::Float3 => 2,
            DeclType::Float4 => 3,
            DeclType::Color => 4,
            DeclType::UByte4 => 5,
            DeclType::Short2 => 6,
            DeclType::Short4 => 7,
            DeclType::UByte4N => 8,
            DeclType::Short2N => 9,
            DeclType::Short4N => 10,
            DeclType::UShort2N => 11,
            DeclType::UShort4N => 12,
            DeclType::UDec3 => 13,
            DeclType::Dec3N => 14,
            DeclType::Float16By2 => 15,
            DeclType::Float16By4 => 16,
        }
    }

    /// The numeric element-type code handed to the native API.
    pub fn code(self) -> (r: u8)
        ensures
            r == self.code_spec(),
    {
        match self {
            DeclType::Float1 => 0,
            DeclType::Float2 => 1,
            DeclType::Float3 => 2,
            DeclType::Float4 => 3,
            DeclType::Color => 4,
            DeclType::UByte4 => 5,
            DeclType::Short2 => 6,
            DeclType::Short4 => 7,
            DeclType::UByte4N => 8,
            DeclType::Short2N => 9,
            DeclType::Short4N => 10,
            DeclType::UShort2N => 11,
            DeclType::UShort4N => 12,
            DeclType::UDec3 => 13,
            DeclType::Dec3N => 14,
            DeclType::Float16By2 => 15,
            DeclType::Float16By4 => 16,
        }
    }
}

/// Represents the method type of a [`VertexElement`].
#[derive(Clone, Copy, Debug, PartialEq, Eq, Structural)]
pub enum DeclMethod {
    Default,
    PartialU,
    PartialV,
    CrossUV,
    UV,
    LookUp,
    LookUpPreSampled,
}

impl DeclMethod {
    /// The numeric tessellation-method code handed to the native API.
    pub open spec fn code_spec(self) -> u8 {
        match self {
            DeclMethod::Default => 0,
            DeclMethod::PartialU => 1,
            DeclMethod::PartialV => 2,
            DeclMethod::CrossUV => 3,
            DeclMethod::UV => 4,
            DeclMethod::LookUp => 5,
            DeclMethod::LookUpPreSampled => 6,
        }
    }

    /// The numeric tessellation-method code handed to the native API.
    pub fn code(self) -> (r: u8)
        ensures
            r == self.code_spec(),
    {
        match self {
            DeclMethod::Default => 0,
            DeclMethod::PartialU => 1,
            DeclMethod::PartialV => 2,
            DeclMethod::CrossUV => 3,
            DeclMethod::UV => 4,
            DeclMethod::LookUp => 5,
            DeclMethod::LookUpPreSampled => 6,
        }
    }
}

/// Represents the usage/semantic type of a [`VertexElement`].
#[derive(Clone, Copy, Debug, PartialEq, Eq, Structural)]
pub enum DeclUsage {
    Position,
    BlendWeight,
    BlendIndices,
    Normal,
    PSize,
    TexCoord,
    Tangent,
    BiNormal,
    TessFactor,
    PositionT,
    Color,
    Fog,
    Depth,
    Sample,
}

impl DeclUsage {
    /// The numeric usage code handed to the native API.
    pub open spec fn code_spec(self) -> u8 {
        match self {
            DeclUsage::Position => 0,
            DeclUsage::BlendWeight => 1,
            DeclUsage::BlendIndices => 2,
            DeclUsage::Normal => 3,
            DeclUsage::PSize => 4,
            DeclUsage::TexCoord => 5,
            DeclUsage::Tangent => 6,
            DeclUsage::BiNormal => 7,
            DeclUsage::TessFactor => 8,
            DeclUsage::PositionT => 9,
            DeclUsage::Color => 10,
            DeclUsage::Fog => 11,
            DeclUsage::Depth => 12,
            DeclUsage::Sample => 13,
        }
    }

    /// The numeric usage code handed to the native API.
    pub fn code(self) -> (r: u8)
        ensures
            r == self.code_spec(),
    {
        match self {
            DeclUsage::Position => 0,
            DeclUsage::BlendWeight => 1,
            DeclUsage::BlendIndices => 2,
            DeclUsage::Normal => 3,
            DeclUsage::PSize => 4,
            DeclUsage::TexCoord => 5,
            DeclUsage::Tangent => 6,
            DeclUsage::BiNormal => 7,
            DeclUsage::TessFactor => 8,
            DeclUsage::PositionT => 9,
            DeclUsage::Color => 10,
            DeclUsage::Fog => 11,
            DeclUsage::Depth => 12,
            DeclUsage::Sample => 13,
        }
    }
}

/// Represents the layout and size of a vertex within the pipeline.
#[derive(Clone, Copy, Debug)]
pub struct VertexElement {
    pub stream: u16,
    pub offset: u16,
    pub kind: DeclType,
    pub method: DeclMethod,
    pub usage: DeclUsage,
    pub usage_index: u8,
}

/// One vertex element in the raw shape the native API reads: every
/// enumeration replaced by its numeric code.
#[derive(Clone, Copy, Debug, PartialEq, Eq, Structural)]
pub struct RawVertexElement {
    pub stream: u16,
    pub offset: u16,
    pub kind: u8,
    pub method: u8,
    pub usage: u8,
    pub usage_index: u8,
}

impl RawVertexElement {
    /// The end marker that closes every element array handed to the native
    /// API: stream 0xFF and the unused element type, 17.
    pub open spec fn end_marker_spec() -> RawVertexElement {
        RawVertexElement { stream: 0xFF, offset: 0, kind: 17, method: 0, usage: 0, usage_index: 0 }
    }

    /// The end marker that closes every element array.
    pub fn end_marker() -> (r: RawVertexElement)
        ensures
            r == RawVertexElement::end_marker_spec(),
    {
        RawVertexElement { stream: 0xFF, offset: 0, kind: 17, method: 0, usage: 0, usage_index: 0 }
    }
}

impl VertexElement {
    /// The element in the raw shape the native API reads.
    pub open spec fn raw_spec(self) -> RawVertexElement {
        RawVertexElement {
            stream: self.stream,
            offset: self.offset,
            kind: self.kind.code_spec(),
            method: self.method.code_spec(),
            usage: self.usage.code_spec(),
            usage_index: self.usage_index,
        }
    }

    /// Marshals the element into the raw shape the native API reads.
    pub fn to_raw(self) -> (r: RawVertexElement)
        ensures
            r == self.raw_spec(),
    {
        RawVertexElement {
            stream: self.stream,
            offset: self.offset,
            kind: self.kind.code(),
            method: self.method.code(),
            usage: self.usage.code(),
            usage_index: self.usage_index,
        }
    }
}

/// Represents the display mode of a monitor.
#[derive(Debug, Clone, Copy, PartialEq, Eq, Structural)]
pub struct DisplayMode {
    pub width: u32,
    pub height: u32,
    pub refresh_rate: u32,
    pub format: Format,
}

/// A display mode in the raw shape the native API fills and reads: the
/// format carried as its numeric code.
#[derive(Debug, Clone, Copy, PartialEq, Eq, Structural)]
pub struct RawDisplayMode {
    pub width: u32,
    pub height: u32,
    pub refresh_rate: u32,
    pub format: u32,
}

impl DisplayMode {
    /// The mode in the raw shape the native API reads.
    pub open spec fn raw_spec(self) -> RawDisplayMode {
        RawDisplayMode {
            width: self.width,
            height: self.height,
            refresh_rate: self.refresh_rate,
            format: self.format.code_spec(),
        }
    }

    /// Marshals the mode into the raw shape the native API reads.
    pub fn to_raw(self) -> (r: RawDisplayMode)
        ensures
            r == self.raw_spec(),
    {
        RawDisplayMode {
            width: self.width,
            height: self.height,
            refresh_rate: self.refresh_rate,
            format: self.format.code(),
        }
    }

    /// Reads back a mode the native API filled.  The answer is `None`
    /// exactly when the reported format code is no known format: an
    /// unknown code is rejected rather than reinterpreted.
    pub fn from_raw(raw: &RawDisplayMode) -> (r: Option<DisplayMode>)
        ensures
            r matches Some(m) ==> m.raw_spec() == *raw,
            r is Some <==> Format::is_code(raw.format),
    {
        match Format::from_code(raw.format) {
            Some(format) => Some(DisplayMode {
                width: raw.width,
                height: raw.height,
                refresh_rate: raw.refresh_rate,
                format,
            }),
            None => None,
        }
    }
}

impl Default for DisplayMode {
    /// An empty mode: zero size and rate, unknown format.
    fn default() -> (r: DisplayMode)
        ensures
            r == (DisplayMode { width: 0, height: 0, refresh_rate: 0, format: Format::Unknown }),
    {
        DisplayMode { width: 0, height: 0, refresh_rate: 0, format: Format::Unknown }
    }
}

/// Represents the "presentation parameters" for a swap chain.  The device
/// window is carried as a plain window-handle value; zero stands for no
/// window.
#[derive(Clone, Debug)]
pub struct PresentationParameters {
    pub back_buffer_width: u32,
    pub back_buffer_height: u32,
    pub back_buffer_format: Format,
    pub back_buffer_count: u32,
    pub multi_sample_type: MultiSampleType,
    pub multi_sample_quality: u32,
    pub swap_effect: SwapEffect,
    pub device_window: u64,
    pub windowed: bool,
    pub enable_auto_depth_stencil: bool,
    pub auto_depth_stencil_format: Format,
    pub flags: u32,
    pub refresh_rate: u32,
    pub presentation_interval: u32,
}

/// Presentation parameters in the raw shape the native API reads and may
/// write back: every enumeration as its numeric code, booleans widened as
/// the ABI has them.
#[derive(Clone, Copy, Debug, PartialEq, Eq, Structural)]
pub struct RawPresentationParameters {
    pub back_buffer_width: u32,
    pub back_buffer_height: u32,
    pub back_buffer_format: u32,
    pub back_buffer_count: u32,
    pub multi_sample_type: u32,
    pub multi_sample_quality: u32,
    pub swap_effect: u32,
    pub device_window: u64,
    pub windowed: i32,
    pub enable_auto_depth_stencil: i32,
    pub auto_depth_stencil_format: u32,
    pub flags: u32,
    pub refresh_rate: u32,
    pub presentation_interval: u32,
}

impl PresentationParameters {
    /// The parameters in the raw shape the native API reads.
    pub open spec fn raw_spec(self) -> RawPresentationParameters {
        RawPresentationParameters {
            back_buffer_width: self.back_buffer_width,
            back_buffer_height: self.back_buffer_height,
            back_buffer_format: self.back_buffer_format.code_spec(),
            back_buffer_count: self.back_buffer_count,
            multi_sample_type: self.multi_sample_type.code_spec(),
            multi_sample_quality: self.multi_sample_quality,
            swap_effect: self.swap_effect.code_spec(),
            device_window: self.device_window,
            windowed: if self.windowed { 1 } else { 0 },
            enable_auto_depth_stencil: if self.enable_auto_depth_stencil { 1 } else { 0 },
            auto_depth_stencil_format: self.auto_depth_stencil_format.code_spec(),
            flags: self.flags,
            refresh_rate: self.refresh_rate,
            presentation_interval: self.presentation_interval,
        }
    }

    /// Marshals the parameters into the raw shape the native API reads.
    pub fn to_raw(&self) -> (r: RawPresentationParameters)
        ensures
            r == self.raw_spec(),
    {
        RawPresentationParameters {
            back_buffer_width: self.back_buffer_width,
            back_buffer_height: self.back_buffer_height,
            back_buffer_format: self.back_buffer_format.code(),
            back_buffer_count: self.back_buffer_count,
            multi_sample_type: self.multi_sample_type.code(),
            multi_sample_quality: self.multi_sample_quality,
            swap_effect: self.swap_effect.code(),
            device_window: self.device_window,
            windowed: if self.windowed { 1 } else { 0 },
            enable_auto_depth_stencil: if self.enable_auto_depth_stencil { 1 } else { 0 },
            auto_depth_stencil_format: self.auto_depth_stencil_format.code(),
            flags: self.flags,
            refresh_rate: self.refresh_rate,
            presentation_interval: self.presentation_interval,
        }
    }

    /// Takes over the properties a device or swap-chain creation call may
    /// have written back: the back buffer's width, height, count and
    /// format.  The format is taken over only when the reported code names
    /// a known format, and the answer says whether it did; every other
    /// field keeps its value.
    pub fn apply_returned(&mut self, raw: &RawPresentationParameters) -> (ok: bool)
        ensures
            ok <==> Format::is_code(raw.back_buffer_format),
            final(self).back_buffer_width == raw.back_buffer_width,
            final(self).back_buffer_height == raw.back_buffer_height,
            final(self).back_buffer_count == raw.back_buffer_count,
            ok ==> final(self).back_buffer_format.code_spec() == raw.back_buffer_format,
            !ok ==> final(self).back_buffer_format == old(self).back_buffer_format,
            final(self).multi_sample_type == old(self).multi_sample_type,
            final(self).multi_sample_quality == old(self).multi_sample_quality,
            final(self).swap_effect == old(self).swap_effect,
            final(self).device_window == old(self).device_window,
            final(self).windowed == old(self).windowed,
            final(self).enable_auto_depth_stencil == old(self).enable_auto_depth_stencil,
            final(self).auto_depth_stencil_format == old(self).auto_depth_stencil_format,
            final(self).flags == old(self).flags,
            final(self).refresh_rate == old(self).refresh_rate,
            final(self).presentation_interval == old(self).presentation_interval,
    {
        self.back_buffer_width = raw.back_buffer_width;
        self.back_buffer_height = raw.back_buffer_height;
        self.back_buffer_count = raw.back_buffer_count;
        match Format::from_code(raw.back_buffer_format) {
            Some(format) => {
                self.back_buffer_format = format;
                true
            },
            None => false,
        }
    }
}

impl Default for PresentationParameters {
    /// Empty parameters: zero sizes and counts, unknown formats, discard
    /// swap effect, no multi-sampling, no window.
    fn default() -> (r: PresentationParameters)
        ensures
            r.back_buffer_width == 0,
            r.back_buffer_height == 0,
            r.back_buffer_format == Format::Unknown,
            r.back_buffer_count == 0,
            r.multi_sample_type == MultiSampleType::Disabled,
            r.multi_sample_quality == 0,
            r.swap_effect == SwapEffect::Discard,
            r.device_window == 0,
            r.windowed == false,
            r.enable_auto_depth_stencil == false,
            r.auto_depth_stencil_format == Format::Unknown,
            r.flags == 0,
            r.refresh_rate == 0,
            r.presentation_interval == 0,
    {
        PresentationParameters {
            back_buffer_width: 0,
            back_buffer_height: 0,
            back_buffer_format: Format::Unknown,
            back_buffer_count: 0,
            multi_sample_type: MultiSampleType::Disabled,
            multi_sample_quality: 0,
            swap_effect: SwapEffect::Discard,
            device_window: 0,
            windowed: false,
            enable_auto_depth_stencil: false,
            auto_depth_stencil_format: Format::Unknown,
            flags: 0,
            refresh_rate: 0,
            presentation_interval: 0,
        }
    }
}

/// A globally unique identifier, as the native API lays it out.
#[derive(Clone, Copy, Debug, PartialEq, Eq)]
pub struct Guid {
    pub data1: u32,
    pub data2: u16,
    pub data3: u16,
    pub data4: [u8; 8],
}

/// Whether `p` is the longest prefix of `bytes` that holds no nul byte:
/// what a C string embedded in a fixed buffer spells.
pub open spec fn is_nul_free_prefix(bytes: Seq<u8>, p: Seq<u8>) -> bool {
    &&& p.len() <= bytes.len()
    &&& (forall|i: int| 0 <= i < p.len() ==> p[i] == bytes[i] && bytes[i] != 0)
    &&& (p.len() < bytes.len() ==> bytes[p.len() as int] == 0)
}

/// The bytes of a C string embedded in a fixed buffer: everything before
/// the first nul, or the whole buffer when no nul is there.
pub fn nul_terminated_prefix(bytes: &[u8]) -> (r: Vec<u8>)
    ensures
        is_nul_free_prefix(bytes@, r@),
{
    let mut r: Vec<u8> = Vec::new();
    let mut i: usize = 0;
    while i < bytes.len()
        invariant
            i <= bytes@.len(),
            r@ =~= bytes@.take(i as int),
            forall|j: int| 0 <= j < i ==> bytes@[j] != 0,
        decreases bytes@.len() - i,
    {
        if bytes[i] == 0 {
            return r;
        }
        r.push(bytes[i]);
        i += 1;
    }
    r
}

/// Represents the identifier structure for an [`Adapter`].  The driver,
/// description and device name are kept as the bytes the native side
/// reported, without their nul terminators.
#[derive(Clone, Debug)]
pub struct AdapterIdentifier {
    pub driver: Vec<u8>,
    pub description: Vec<u8>,
    pub device_name: Vec<u8>,
    pub driver_version: i64,
    pub vendor_id: u32,
    pub device_id: u32,
    pub sub_sys_id: u32,
    pub revision: u32,
    pub device_identifier: Guid,
    pub whql_level: u32,
}

/// An adapter identifier as the native API fills it: the three name fields
/// are fixed buffers each holding a nul-terminated C string.
#[derive(Clone, Debug)]
pub struct RawAdapterIdentifier {
    pub driver: Vec<u8>,
    pub description: Vec<u8>,
    pub device_name: Vec<u8>,
    pub driver_version: i64,
    pub vendor_id: u32,
    pub device_id: u32,
    pub sub_sys_id: u32,
    pub revision: u32,
    pub device_identifier: Guid,
    pub whql_level: u32,
}

impl AdapterIdentifier {
    /// Reads back an identifier the native API filled: each name buffer is
    /// cut at its first nul, every other field is taken over as it is.
    pub fn from_raw(raw: &RawAdapterIdentifier) -> (r: AdapterIdentifier)
        ensures
            is_nul_free_prefix(raw.driver@, r.driver@),
            is_nul_free_prefix(raw.description@, r.description@),
            is_nul_free_prefix(raw.device_name@, r.device_name@),
            r.driver_version == raw.driver_version,
            r.vendor_id == raw.vendor_id,
            r.device_id == raw.device_id,
            r.sub_sys_id == raw.sub_sys_id,
            r.revision == raw.revision,
            r.device_identifier == raw.device_identifier,
            r.whql_level == raw.whql_level,
    {
        AdapterIdentifier {
            driver: nul_terminated_prefix(raw.driver.as_slice()),
            description: nul_terminated_prefix(raw.description.as_slice()),
            device_name: nul_terminated_prefix(raw.device_name.as_slice()),
            driver_version: raw.driver_version,
            vendor_id: raw.vendor_id,
            device_id: raw.device_id,
            sub_sys_id: raw.sub_sys_id,
            revision: raw.revision,
            device_identifier: raw.device_identifier,
            whql_level: raw.whql_level,
        }
    }
}

} // verus!
