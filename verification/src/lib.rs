//! Reading GGUF (GGML Universal Format) files: key-value metadata and
//! tensor descriptions of quantized machine-learning models.
use vstd::prelude::*;

pub mod error;
pub mod bytes;
pub mod types;
pub mod value;
pub mod text;
pub mod metadata;
pub mod layout;
pub mod model;
pub mod laws;
pub mod formats;

pub use types::{ByteOrder, GGMLType, MetadataValueType, Tensor};
pub use value::{MetadataTypeError, MetadataValue};
pub use metadata::MetadataMap;
pub use model::{read_gguf_magic_order, GGUFContainer, GGUFModel, Version, V1, V2, V3};
pub use text::{file_type, human_number};

verus! {

/// Magic constant for `ggml` files (unversioned).
pub const FILE_MAGIC_GGML: i32 = 0x67676d6c;
/// Magic constant for `ggml` files (versioned, ggmf).
pub const FILE_MAGIC_GGMF: i32 = 0x67676d66;
/// Magic constant for `ggml` files (versioned, ggjt).
pub const FILE_MAGIC_GGJT: i32 = 0x67676a74;
/// Magic constant for `ggla` files (LoRA adapter).
pub const FILE_MAGIC_GGLA: i32 = 0x67676C61;
/// Magic constant for `gguf` files, little-endian: the bytes `GGUF` read
/// least significant first.
pub const FILE_MAGIC_GGUF_LE: i32 = 0x46554747;
/// Magic constant for `gguf` files, big-endian.
pub const FILE_MAGIC_GGUF_BE: i32 = 0x47475546;

pub const GGUF_VERSION_V1: i32 = 0x00000001;
pub const GGUF_VERSION_V2: i32 = 0x00000002;
pub const GGUF_VERSION_V3: i32 = 0x00000003;

} // verus!
