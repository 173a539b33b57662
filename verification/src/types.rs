//! The plain data types of a GGUF file.
use vstd::prelude::*;

use crate::error::Error;
use crate::layout::TensorView;

verus! {

/// Byte order of the GGUF file.
#[derive(Debug, Clone, Copy, PartialEq, Eq, Structural)]
pub enum ByteOrder {
    LE,
    BE,
}

impl Default for ByteOrder {
    /// Little-endian, the byte order of nearly every GGUF file.
    fn default() -> (r: Self)
        ensures
            r == ByteOrder::LE,
    {
        ByteOrder::LE
    }
}

/// Metadata value type in GGUF files: the tag stored in front of each
/// metadata value, telling how to read the bytes that follow.
#[derive(Debug, Clone, Copy, PartialEq, Eq, Structural)]
pub enum MetadataValueType {
    Uint8,
    Int8,
    Uint16,
    Int16,
    Uint32,
    Int32,
    Float32,
    Bool,
    String,
    Array,
    Uint64,
    Int64,
    Float64,
}

impl MetadataValueType {
    /// The tag that stands for this type in a file.
    pub open spec fn code(self) -> u32 {
        match self {
            MetadataValueType::Uint8 => 0,
            MetadataValueType::Int8 => 1,
            MetadataValueType::Uint16 => 2,
            MetadataValueType::Int16 => 3,
            MetadataValueType::Uint32 => 4,
            MetadataValueType::Int32 => 5,
            MetadataValueType::Float32 => 6,
            MetadataValueType::Bool => 7,
            MetadataValueType::String => 8,
            MetadataValueType::Array => 9,
            MetadataValueType::Uint64 => 10,
            MetadataValueType::Int64 => 11,
            MetadataValueType::Float64 => 12,
        }
    }

    /// The type that the tag `value` stands for, if any.
    pub open spec fn from_code(value: u32) -> Option<MetadataValueType> {
        if value == 0 {
            Some(MetadataValueType::Uint8)
        } else if value == 1 {
            Some(MetadataValueType::Int8)
        } else if value == 2 {
            Some(MetadataValueType::Uint16)
        } else if value == 3 {
            Some(MetadataValueType::Int16)
        } else if value == 4 {
            Some(MetadataValueType::Uint32)
        } else if value == 5 {
            Some(MetadataValueType::Int32)
        } else if value == 6 {
            Some(MetadataValueType::Float32)
        } else if value == 7 {
            Some(MetadataValueType::Bool)
        } else if value == 8 {
            Some(MetadataValueType::String)
        } else if value == 9 {
            Some(MetadataValueType::Array)
        } else if value == 10 {
            Some(MetadataValueType::Uint64)
        } else if value == 11 {
            Some(MetadataValueType::Int64)
        } else if value == 12 {
            Some(MetadataValueType::Float64)
        } else {
            None
        }
    }

    /// The type that the tag `value` stands for; an error for a tag that
    /// stands for none.
    pub fn try_from(value: u32) -> (r: Result<MetadataValueType, Error>)
        ensures
            match MetadataValueType::from_code(value) {
                Some(t) => r == Ok::<MetadataValueType, Error>(t),
                None => r == Err::<MetadataValueType, Error>(Error::InvalidMetaValueType(value)),
            },
    {
        match value {
            0 => Ok(MetadataValueType::Uint8),
            1 => Ok(MetadataValueType::Int8),
            2 => Ok(MetadataValueType::Uint16),
            3 => Ok(MetadataValueType::Int16),
            4 => Ok(MetadataValueType::Uint32),
            5 => Ok(MetadataValueType::Int32),
            6 => Ok(MetadataValueType::Float32),
            7 => Ok(MetadataValueType::Bool),
            8 => Ok(MetadataValueType::String),
            9 => Ok(MetadataValueType::Array),
            10 => Ok(MetadataValueType::Uint64),
            11 => Ok(MetadataValueType::Int64),
            12 => Ok(MetadataValueType::Float64),
            _ => Err(Error::InvalidMetaValueType(value)),
        }
    }
}

/// GGML type of a tensor: the quantization format of its data.
#[derive(Debug, Clone, Copy, PartialEq, Eq, Structural)]
#[allow(non_camel_case_types)]
pub enum GGMLType {
    F32,
    F16,
    Q4_0,
    Q4_1,
    Q4_2,
    Q4_3,
    Q5_0,
    Q5_1,
    Q8_0,
    Q8_1,
    Q2_K,
    Q3_K,
    Q4_K,
    Q5_K,
    Q6_K,
    Q8_K,
    IQ2_XXS,
    IQ2_XS,
    IQ3_XXS,
    IQ1_S,
    IQ4_NL,
    IQ3_S,
    IQ2_S,
    IQ4_XS,
    I8,
    I16,
    I32,
    I64,
    F64,
    IQ1_M,
    BF16,
    Q4_0_4_4,
    Q4_0_4_8,
    Q4_0_8_8,
    TQ1_0,
    TQ2_0,
    IQ4_NL_4_4,
    IQ4_NL_4_8,
    IQ4_NL_8_8,
    MXFP4,
    NVFP4,
    Q1_0,
    Count,
}

impl GGMLType {
    /// The number that stands for this type in a file.
    pub open spec fn code(self) -> u32 {
        match self {
            GGMLType::F32 => 0,
            GGMLType::F16 => 1,
            GGMLType::Q4_0 => 2,
            GGMLType::Q4_1 => 3,
            GGMLType::Q4_2 => 4,
            GGMLType::Q4_3 => 5,
            GGMLType::Q5_0 => 6,
            GGMLType::Q5_1 => 7,
            GGMLType::Q8_0 => 8,
            GGMLType::Q8_1 => 9,
            GGMLType::Q2_K => 10,
            GGMLType::Q3_K => 11,
            GGMLType::Q4_K => 12,
            GGMLType::Q5_K => 13,
            GGMLType::Q6_K => 14,
            GGMLType::Q8_K => 15,
            GGMLType::IQ2_XXS => 16,
            GGMLType::IQ2_XS => 17,
            GGMLType::IQ3_XXS => 18,
            GGMLType::IQ1_S => 19,
            GGMLType::IQ4_NL => 20,
            GGMLType::IQ3_S => 21,
            GGMLType::IQ2_S => 22,
            GGMLType::IQ4_XS => 23,
            GGMLType::I8 => 24,
            GGMLType::I16 => 25,
            GGMLType::I32 => 26,
            GGMLType::I64 => 27,
            GGMLType::F64 => 28,
            GGMLType::IQ1_M => 29,
            GGMLType::BF16 => 30,
            GGMLType::Q4_0_4_4 => 31,
            GGMLType::Q4_0_4_8 => 32,
            GGMLType::Q4_0_8_8 => 33,
            GGMLType::TQ1_0 => 34,
            GGMLType::TQ2_0 => 35,
            GGMLType::IQ4_NL_4_4 => 36,
            GGMLType::IQ4_NL_4_8 => 37,
            GGMLType::IQ4_NL_8_8 => 38,
            GGMLType::MXFP4 => 39,
            GGMLType::NVFP4 => 40,
            GGMLType::Q1_0 => 41,
            GGMLType::Count => 42,
        }
    }

    /// The type that `value` stands for when read from a file, if any; the
    /// two retired formats `Q4_2` and `Q4_3` are not read back.
    pub open spec fn from_code(value: u32) -> Option<GGMLType> {
        if value == 0 {
            Some(GGMLType::F32)
        } else if value == 1 {
            Some(GGMLType::F16)
        } else if value == 2 {
            Some(GGMLType::Q4_0)
        } else if value == 3 {
            Some(GGMLType::Q4_1)
        } else if value == 6 {
            Some(GGMLType::Q5_0)
        } else if value == 7 {
            Some(GGMLType::Q5_1)
        } else if value == 8 {
            Some(GGMLType::Q8_0)
        } else if value == 9 {
            Some(GGMLType::Q8_1)
        } else if value == 10 {
            Some(GGMLType::Q2_K)
        } else if value == 11 {
            Some(GGMLType::Q3_K)
        } else if value == 12 {
            Some(GGMLType::Q4_K)
        } else if value == 13 {
            Some(GGMLType::Q5_K)
        } else if value == 14 {
            Some(GGMLType::Q6_K)
        } else if value == 15 {
            Some(GGMLType::Q8_K)
        } else if value == 16 {
            Some(GGMLType::IQ2_XXS)
        } else if value == 17 {
            Some(GGMLType::IQ2_XS)
        } else if value == 18 {
            Some(GGMLType::IQ3_XXS)
        } else if value == 19 {
            Some(GGMLType::IQ1_S)
        } else if value == 20 {
            Some(GGMLType::IQ4_NL)
        } else if value == 21 {
            Some(GGMLType::IQ3_S)
        } else if value == 22 {
            Some(GGMLType::IQ2_S)
        } else if value == 23 {
            Some(GGMLType::IQ4_XS)
        } else if value == 24 {
            Some(GGMLType::I8)
        } else if value == 25 {
            Some(GGMLType::I16)
        } else if value == 26 {
            Some(GGMLType::I32)
        } else if value == 27 {
            Some(GGMLType::I64)
        } else if value == 28 {
            Some(GGMLType::F64)
        } else if value == 29 {
            Some(GGMLType::IQ1_M)
        } else if value == 30 {
            Some(GGMLType::BF16)
        } else if value == 31 {
            Some(GGMLType::Q4_0_4_4)
        } else if value == 32 {
            Some(GGMLType::Q4_0_4_8)
        } else if value == 33 {
            Some(GGMLType::Q4_0_8_8)
        } else if value == 34 {
            Some(GGMLType::TQ1_0)
        } else if value == 35 {
            Some(GGMLType::TQ2_0)
        } else if value == 36 {
            Some(GGMLType::IQ4_NL_4_4)
        } else if value == 37 {
            Some(GGMLType::IQ4_NL_4_8)
        } else if value == 38 {
            Some(GGMLType::IQ4_NL_8_8)
        } else if value == 39 {
            Some(GGMLType::MXFP4)
        } else if value == 40 {
            Some(GGMLType::NVFP4)
        } else if value == 41 {
            Some(GGMLType::Q1_0)
        } else if value == 42 {
            Some(GGMLType::Count)
        } else {
            None
        }
    }

    /// The type that `value` stands for; an error for a number that stands
    /// for none.
    pub fn try_from(value: u32) -> (r: Result<GGMLType, Error>)
        ensures
            match GGMLType::from_code(value) {
                Some(t) => r == Ok::<GGMLType, Error>(t),
                None => r == Err::<GGMLType, Error>(Error::InvalidGGMLType(value)),
            },
    {
        match value {
            0 => Ok(GGMLType::F32),
            1 => Ok(GGMLType::F16),
            2 => Ok(GGMLType::Q4_0),
            3 => Ok(GGMLType::Q4_1),
            6 => Ok(GGMLType::Q5_0),
            7 => Ok(GGMLType::Q5_1),
            8 => Ok(GGMLType::Q8_0),
            9 => Ok(GGMLType::Q8_1),
            10 => Ok(GGMLType::Q2_K),
            11 => Ok(GGMLType::Q3_K),
            12 => Ok(GGMLType::Q4_K),
            13 => Ok(GGMLType::Q5_K),
            14 => Ok(GGMLType::Q6_K),
            15 => Ok(GGMLType::Q8_K),
            16 => Ok(GGMLType::IQ2_XXS),
            17 => Ok(GGMLType::IQ2_XS),
            18 => Ok(GGMLType::IQ3_XXS),
            19 => Ok(GGMLType::IQ1_S),
            20 => Ok(GGMLType::IQ4_NL),
            21 => Ok(GGMLType::IQ3_S),
            22 => Ok(GGMLType::IQ2_S),
            23 => Ok(GGMLType::IQ4_XS),
            24 => Ok(GGMLType::I8),
            25 => Ok(GGMLType::I16),
            26 => Ok(GGMLType::I32),
            27 => Ok(GGMLType::I64),
            28 => Ok(GGMLType::F64),
            29 => Ok(GGMLType::IQ1_M),
            30 => Ok(GGMLType::BF16),
            31 => Ok(GGMLType::Q4_0_4_4),
            32 => Ok(GGMLType::Q4_0_4_8),
            33 => Ok(GGMLType::Q4_0_8_8),
            34 => Ok(GGMLType::TQ1_0),
            35 => Ok(GGMLType::TQ2_0),
            36 => Ok(GGMLType::IQ4_NL_4_4),
            37 => Ok(GGMLType::IQ4_NL_4_8),
            38 => Ok(GGMLType::IQ4_NL_8_8),
            39 => Ok(GGMLType::MXFP4),
            40 => Ok(GGMLType::NVFP4),
            41 => Ok(GGMLType::Q1_0),
            42 => Ok(GGMLType::Count),
            _ => Err(Error::InvalidGGMLType(value)),
        }
    }

    /// The printed name of this type.
    pub open spec fn name(self) -> Seq<char> {
        match self {
            GGMLType::F32 => "F32"@,
            GGMLType::F16 => "F16"@,
            GGMLType::Q4_0 => "Q4_0"@,
            GGMLType::Q4_1 => "Q4_1"@,
            GGMLType::Q4_2 => "Q4_2 (UNSUPPORTED)"@,
            GGMLType::Q4_3 => "Q4_3 (UNSUPPORTED)"@,
            GGMLType::Q5_0 => "Q5_0"@,
            GGMLType::Q5_1 => "Q5_1"@,
            GGMLType::Q8_0 => "Q8_0"@,
            GGMLType::Q8_1 => "Q8_1"@,
            GGMLType::Q2_K => "Q2_K"@,
            GGMLType::Q3_K => "Q3_K"@,
            GGMLType::Q4_K => "Q4_K"@,
            GGMLType::Q5_K => "Q5_K"@,
            GGMLType::Q6_K => "Q6_K"@,
            GGMLType::Q8_K => "Q8_K"@,
            GGMLType::IQ2_XXS => "IQ2_XXS"@,
            GGMLType::IQ2_XS => "IQ2_XS"@,
            GGMLType::IQ3_XXS => "IQ3_XXS"@,
            GGMLType::IQ1_S => "IQ1_S"@,
            GGMLType::IQ4_NL => "IQ4_NL"@,
            GGMLType::IQ3_S => "IQ3_S"@,
            GGMLType::IQ2_S => "IQ2_S"@,
            GGMLType::IQ4_XS => "IQ4_XS"@,
            GGMLType::I8 => "I8"@,
            GGMLType::I16 => "I16"@,
            GGMLType::I32 => "I32"@,
            GGMLType::I64 => "I64"@,
            GGMLType::F64 => "F64"@,
            GGMLType::IQ1_M => "IQ1_M"@,
            GGMLType::BF16 => "BF16"@,
            GGMLType::Q4_0_4_4 => "Q4_0_4_4 (UNSUPPORTED)"@,
            GGMLType::Q4_0_4_8 => "Q4_0_4_8 (UNSUPPORTED)"@,
            GGMLType::Q4_0_8_8 => "Q4_0_8_8 (UNSUPPORTED)"@,
            GGMLType::TQ1_0 => "TQ1_0"@,
            GGMLType::TQ2_0 => "TQ2_0"@,
            GGMLType::IQ4_NL_4_4 => "IQ4_NL_4_4 (UNSUPPORTED)"@,
            GGMLType::IQ4_NL_4_8 => "IQ4_NL_4_8 (UNSUPPORTED)"@,
            GGMLType::IQ4_NL_8_8 => "IQ4_NL_8_8 (UNSUPPORTED)"@,
            GGMLType::MXFP4 => "MXFP4"@,
            GGMLType::NVFP4 => "NVFP4"@,
            GGMLType::Q1_0 => "Q1_0"@,
            GGMLType::Count => "Count"@,
        }
    }

    /// The printed name of this type, such as `Q4_0` or
    /// `Q4_2 (UNSUPPORTED)` for a format that ggml no longer supports.
    pub fn to_string(&self) -> (r: String)
        ensures
            r@ == self.name(),
    {
        let s: &str = match self {
            GGMLType::F32 => "F32",
            GGMLType::F16 => "F16",
            GGMLType::Q4_0 => "Q4_0",
            GGMLType::Q4_1 => "Q4_1",
            GGMLType::Q4_2 => "Q4_2 (UNSUPPORTED)",
            GGMLType::Q4_3 => "Q4_3 (UNSUPPORTED)",
            GGMLType::Q5_0 => "Q5_0",
            GGMLType::Q5_1 => "Q5_1",
            GGMLType::Q8_0 => "Q8_0",
            GGMLType::Q8_1 => "Q8_1",
            GGMLType::Q2_K => "Q2_K",
            GGMLType::Q3_K => "Q3_K",
            GGMLType::Q4_K => "Q4_K",
            GGMLType::Q5_K => "Q5_K",
            GGMLType::Q6_K => "Q6_K",
            GGMLType::Q8_K => "Q8_K",
            GGMLType::IQ2_XXS => "IQ2_XXS",
            GGMLType::IQ2_XS => "IQ2_XS",
            GGMLType::IQ3_XXS => "IQ3_XXS",
            GGMLType::IQ1_S => "IQ1_S",
            GGMLType::IQ4_NL => "IQ4_NL",
            GGMLType::IQ3_S => "IQ3_S",
            GGMLType::IQ2_S => "IQ2_S",
            GGMLType::IQ4_XS => "IQ4_XS",
            GGMLType::I8 => "I8",
            GGMLType::I16 => "I16",
            GGMLType::I32 => "I32",
            GGMLType::I64 => "I64",
            GGMLType::F64 => "F64",
            GGMLType::IQ1_M => "IQ1_M",
            GGMLType::BF16 => "BF16",
            GGMLType::Q4_0_4_4 => "Q4_0_4_4 (UNSUPPORTED)",
            GGMLType::Q4_0_4_8 => "Q4_0_4_8 (UNSUPPORTED)",
            GGMLType::Q4_0_8_8 => "Q4_0_8_8 (UNSUPPORTED)",
            GGMLType::TQ1_0 => "TQ1_0",
            GGMLType::TQ2_0 => "TQ2_0",
            GGMLType::IQ4_NL_4_4 => "IQ4_NL_4_4 (UNSUPPORTED)",
            GGMLType::IQ4_NL_4_8 => "IQ4_NL_4_8 (UNSUPPORTED)",
            GGMLType::IQ4_NL_8_8 => "IQ4_NL_8_8 (UNSUPPORTED)",
            GGMLType::MXFP4 => "MXFP4",
            GGMLType::NVFP4 => "NVFP4",
            GGMLType::Q1_0 => "Q1_0",
            GGMLType::Count => "Count",
        };
        s.to_owned()
    }
}

/// Tensor in the GGUF file: its name, its GGML type, where its data
/// begins, how many bytes the data takes, and its shape.
#[derive(Debug)]
pub struct Tensor {
    /// Name of the tensor (e.g., "token_embd.weight", "blk.0.attn_q.weight")
    pub name: String,
    /// GGML type identifier (see [`GGMLType`] for interpretation)
    pub kind: u32,
    /// Byte offset in the file where tensor data begins
    pub offset: u64,
    /// Size of tensor data in bytes
    pub size: u64,
    /// Shape dimensions (number of elements in each dimension)
    pub shape: [u64; 4],
}

impl Tensor {
    pub open spec fn view(&self) -> TensorView {
        TensorView {
            name: self.name@,
            kind: self.kind,
            offset: self.offset,
            size: self.size,
            shape: self.shape@,
        }
    }
}

impl Clone for Tensor {
    fn clone(&self) -> (r: Self)
        ensures
            r@ == self@,
    {
        Tensor {
            name: self.name.clone(),
            kind: self.kind,
            offset: self.offset,
            size: self.size,
            shape: self.shape,
        }
    }
}

/// The contents of a sequence of tensors.
pub open spec fn tensors_view(ts: Seq<Tensor>) -> Seq<TensorView> {
    ts.map_values(|t: Tensor| t@)
}

} // verus!
