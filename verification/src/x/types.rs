//! Wrappers over the types of the D3DX shader surface.
//!
//! These model the descriptor structures and enumerations of the shader
//! utility interface.  Strings the native side hands out or takes in are
//! carried as plain bytes; handles are carried as plain values.

use vstd::prelude::*;

verus! {

/// An opaque constant handle of the shader utility interface; zero stands
/// for the null handle.
pub type Handle = u64;

/// A preprocessor definition handed to the shader compiler: a name and the
/// text it stands for, both later marshaled as C strings.
#[derive(Clone, Debug)]
pub struct Macro {
    pub name: Vec<u8>,
    pub definition: Vec<u8>,
}

impl Macro {
    /// Whether the definition can be marshaled as a pair of C strings:
    /// neither side holds a nul byte.
    pub open spec fn is_marshalable(&self) -> bool {
        &&& (forall|i: int| 0 <= i < self.name@.len() ==> self.name@[i] != 0)
        &&& (forall|i: int| 0 <= i < self.definition@.len() ==> self.definition@[i] != 0)
    }
}


/// Represents the class of a shader constant.
#[derive(Clone, Copy, Debug, PartialEq, Eq, Structural)]
pub enum ParameterClass {
    Scalar,
    Vector,
    MatrixRows,
    MatrixColumns,
    Object,
    Struct,
}

impl ParameterClass {
    /// The numeric parameter-class code of the native API.
    pub open spec fn code_spec(self) -> u32 {
        match self {
            ParameterClass::Scalar => 0,
            ParameterClass::Vector => 1,
            ParameterClass::MatrixRows => 2,
            ParameterClass::MatrixColumns => 3,
            ParameterClass::Object => 4,
            ParameterClass::Struct => 5,
        }
    }

    /// The numeric parameter-class code of the native API.
    pub fn code(self) -> (r: u32)
        ensures
            r == self.code_spec(),
    {
        match self {
            ParameterClass::Scalar => 0,
            ParameterClass::Vector => 1,
            ParameterClass::MatrixRows => 2,
            ParameterClass::MatrixColumns => 3,
            ParameterClass::Object => 4,
            ParameterClass::Struct => 5,
        }
    }

    /// Whether a number is the code of some value of this enumeration.
    pub open spec fn is_code(code: u32) -> bool {
        exists|v: ParameterClass| (#[trigger] v.code_spec()) == code
    }

    /// The value a native code stands for, if any: the inverse of
    /// [`ParameterClass::code`].
    pub fn from_code(code: u32) -> (r: Option<ParameterClass>)
        ensures
            r matches Some(v) ==> v.code_spec() == code,
            r is Some <==> ParameterClass::is_code(code),
    {
        let r = match code {
            0 => Some(ParameterClass::Scalar),
            1 => Some(ParameterClass::Vector),
            2 => Some(ParameterClass::MatrixRows),
            3 => Some(ParameterClass::MatrixColumns),
            4 => Some(ParameterClass::Object),
            5 => Some(ParameterClass::Struct),
            _ => None,
        };
        proof {
            match r {
                Some(v) => {
                    assert(v.code_spec() == code);
                },
                None => {
                    assert(forall|v: ParameterClass| (#[trigger] v.code_spec()) != code);
                },
            }
        }
        r
    }
}

/// Represents the type of a shader constant.
#[derive(Clone, Copy, Debug, PartialEq, Eq, Structural)]
pub enum ParameterType {
    Void,
    Bool,
    Int,
    Float,
    String,
    Texture,
    Texture1D,
    Texture2D,
    Texture3D,
    TextureCube,
    Sampler,
    Sampler1D,
    Sampler2D,
    Sampler3D,
    SamplerCube,
    PixelShader,
    VertexShader,
    PixelFragment,
    VertexFragment,
    Unsupported,
}

impl ParameterType {
    /// The numeric parameter-type code of the native API.
    pub open spec fn code_spec(self) -> u32 {
        match self {
            ParameterType::Void => 0,
            ParameterType::Bool => 1,
            ParameterType::Int => 2,
            ParameterType::Float => 3,
            ParameterType::String => 4,
            ParameterType::Texture => 5,
            ParameterType::Texture1D => 6,
            ParameterType::Texture2D => 7,
            ParameterType::Texture3D => 8,
            ParameterType::TextureCube => 9,
            ParameterType::Sampler => 10,
            ParameterType::Sampler1D => 11,
            ParameterType::Sampler2D => 12,
            ParameterType::Sampler3D => 13,
            ParameterType::SamplerCube => 14,
            ParameterType::PixelShader => 15,
            ParameterType::VertexShader => 16,
            ParameterType::PixelFragment => 17,
            ParameterType::VertexFragment => 18,
            ParameterType::Unsupported => 19,
        }
    }

    /// The numeric parameter-type code of the native API.
    pub fn code(self) -> (r: u32)
        ensures
            r == self.code_spec(),
    {
        match self {
            ParameterType::Void => 0,
            ParameterType::Bool => 1,
            ParameterType::Int => 2,
            ParameterType::Float => 3,
            ParameterType::String => 4,
            ParameterType::Texture => 5,
            ParameterType::Texture1D => 6,
            ParameterType::Texture2D => 7,
            ParameterType::Texture3D => 8,
            ParameterType::TextureCube => 9,
            ParameterType::Sampler => 10,
            ParameterType::Sampler1D => 11,
            ParameterType::Sampler2D => 12,
            ParameterType::Sampler3D => 13,
            ParameterType::SamplerCube => 14,
            ParameterType::PixelShader => 15,
            ParameterType::VertexShader => 16,
            ParameterType::PixelFragment => 17,
            ParameterType::VertexFragment => 18,
            ParameterType::Unsupported => 19,
        }
    }

    /// Whether a number is the code of some value of this enumeration.
    pub open spec fn is_code(code: u32) -> bool {
        exists|v: ParameterType| (#[trigger] v.code_spec()) == code
    }

    /// The value a native code stands for, if any: the inverse of
    /// [`ParameterType::code`].
    pub fn from_code(code: u32) -> (r: Option<ParameterType>)
        ensures
            r matches Some(v) ==> v.code_spec() == code,
            r is Some <==> ParameterType::is_code(code),
    {
        let r = match code {
            0 => Some(ParameterType::Void),
            1 => Some(ParameterType::Bool),
            2 => Some(ParameterType::Int),
            3 => Some(ParameterType::Float),
            4 => Some(ParameterType::String),
            5 => Some(ParameterType::Texture),
            6 => Some(ParameterType::Texture1D),
            7 => Some(ParameterType::Texture2D),
            8 => Some(ParameterType::Texture3D),
            9 => Some(ParameterType::TextureCube),
            10 => Some(ParameterType::Sampler),
            11 => Some(ParameterType::Sampler1D),
            12 => Some(ParameterType::Sampler2D),
            13 => Some(ParameterType::Sampler3D),
            14 => Some(ParameterType::SamplerCube),
            15 => Some(ParameterType::PixelShader),
            16 => Some(ParameterType::VertexShader),
            17 => Some(ParameterType::PixelFragment),
            18 => Some(ParameterType::VertexFragment),
            19 => Some(ParameterType::Unsupported),
            _ => None,
        };
        proof {
            match r {
                Some(v) => {
                    assert(v.code_spec() == code);
                },
                None => {
                    assert(forall|v: ParameterType| (#[trigger] v.code_spec()) != code);
                },
            }
        }
        r
    }
}

/// Represents the register set a shader constant lives in.
#[derive(Clone, Copy, Debug, PartialEq, Eq, Structural)]
pub enum RegisterSet {
    Bool,
    Int4,
    Float4,
    Sampler,
}

impl RegisterSet {
    /// The numeric register-set code of the native API.
    pub open spec fn code_spec(self) -> u32 {
        match self {
            RegisterSet::Bool => 0,
            RegisterSet::Int4 => 1,
            RegisterSet::Float4 => 2,
            RegisterSet::Sampler => 3,
        }
    }

    /// The numeric register-set code of the native API.
    pub fn code(self) -> (r: u32)
        ensures
            r == self.code_spec(),
    {
        match self {
            RegisterSet::Bool => 0,
            RegisterSet::Int4 => 1,
            RegisterSet::Float4 => 2,
            RegisterSet::Sampler => 3,
        }
    }

    /// Whether a number is the code of some value of this enumeration.
    pub open spec fn is_code(code: u32) -> bool {
        exists|v: RegisterSet| (#[trigger] v.code_spec()) == code
    }

    /// The value a native code stands for, if any: the inverse of
    /// [`RegisterSet::code`].
    pub fn from_code(code: u32) -> (r: Option<RegisterSet>)
        ensures
            r matches Some(v) ==> v.code_spec() == code,
            r is Some <==> RegisterSet::is_code(code),
    {
        let r = match code {
            0 => Some(RegisterSet::Bool),
            1 => Some(RegisterSet::Int4),
            2 => Some(RegisterSet::Float4),
            3 => Some(RegisterSet::Sampler),
            _ => None,
        };
        proof {
            match r {
                Some(v) => {
                    assert(v.code_spec() == code);
                },
                None => {
                    assert(forall|v: RegisterSet| (#[trigger] v.code_spec()) != code);
                },
            }
        }
        r
    }
}

/// The description of a shader constant table.  The creator string is
/// carried as the bytes the native side reported.
#[derive(Clone, Debug)]
pub struct ConstantTableDesc {
    pub creator: Vec<u8>,
    pub version: u32,
    pub constants: u32,
}

/// The description of one shader constant.  The name is carried as the
/// bytes the native side reported; the default-value pointer as a plain
/// value, zero when there is none.
#[derive(Clone, Debug)]
pub struct ConstantDesc {
    pub name: Vec<u8>,
    pub register_set: RegisterSet,
    pub register_index: u32,
    pub register_count: u32,
    pub class: ParameterClass,
    pub kind: ParameterType,
    pub rows: u32,
    pub columns: u32,
    pub elements: u32,
    pub struct_members: u32,
    pub bytes: u32,
    pub default_value: u64,
}

/// A constant description as the native API fills it: the three
/// enumerations carried as their numeric codes.
#[derive(Clone, Debug)]
pub struct RawConstantDesc {
    pub name: Vec<u8>,
    pub register_set: u32,
    pub register_index: u32,
    pub register_count: u32,
    pub class: u32,
    pub kind: u32,
    pub rows: u32,
    pub columns: u32,
    pub elements: u32,
    pub struct_members: u32,
    pub bytes: u32,
    pub default_value: u64,
}

impl ConstantDesc {
    /// The description in the raw shape the native API reads.
    pub fn to_raw(self) -> (r: RawConstantDesc)
        ensures
            r.name@ == self.name@,
            r.register_set == self.register_set.code_spec(),
            r.register_index == self.register_index,
            r.register_count == self.register_count,
            r.class == self.class.code_spec(),
            r.kind == self.kind.code_spec(),
            r.rows == self.rows,
            r.columns == self.columns,
            r.elements == self.elements,
            r.struct_members == self.struct_members,
            r.bytes == self.bytes,
            r.default_value == self.default_value,
    {
        RawConstantDesc {
            name: self.name,
            register_set: self.register_set.code(),
            register_index: self.register_index,
            register_count: self.register_count,
            class: self.class.code(),
            kind: self.kind.code(),
            rows: self.rows,
            columns: self.columns,
            elements: self.elements,
            struct_members: self.struct_members,
            bytes: self.bytes,
            default_value: self.default_value,
        }
    }

    /// Reads back a description the native API filled.  The answer is
    /// `None` exactly when one of the three enumeration codes names no
    /// known value: an unknown code is rejected rather than
    /// reinterpreted.
    pub fn from_raw(raw: RawConstantDesc) -> (r: Option<ConstantDesc>)
        ensures
            r matches Some(d) ==> {
                &&& d.name@ == raw.name@
                &&& d.register_set.code_spec() == raw.register_set
                &&& d.register_index == raw.register_index
                &&& d.register_count == raw.register_count
                &&& d.class.code_spec() == raw.class
                &&& d.kind.code_spec() == raw.kind
                &&& d.rows == raw.rows
                &&& d.columns == raw.columns
                &&& d.elements == raw.elements
                &&& d.struct_members == raw.struct_members
                &&& d.bytes == raw.bytes
                &&& d.default_value == raw.default_value
            },
            r is Some <==> RegisterSet::is_code(raw.register_set) && ParameterClass::is_code(
                raw.class,
            ) && ParameterType::is_code(raw.kind),
    {
        let register_set = RegisterSet::from_code(raw.register_set);
        let class = ParameterClass::from_code(raw.class);
        let kind = ParameterType::from_code(raw.kind);
        match (register_set, class, kind) {
            (Some(register_set), Some(class), Some(kind)) => Some(ConstantDesc {
                name: raw.name,
                register_set,
                register_index: raw.register_index,
                register_count: raw.register_count,
                class,
                kind,
                rows: raw.rows,
                columns: raw.columns,
                elements: raw.elements,
                struct_members: raw.struct_members,
                bytes: raw.bytes,
                default_value: raw.default_value,
            }),
            _ => None,
        }
    }
}

} // verus!
