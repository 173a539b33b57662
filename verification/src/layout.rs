//! The layout of a GGUF file, as specifications of what reading it from a
//! given position yields: the header, the metadata entries and the tensor
//! descriptions, each with the position after it, or the error that stops
//! the reading.
use vstd::prelude::*;
use vstd::utf8::{decode_utf8, valid_utf8};

use crate::bytes::{spec_i32, spec_i64, spec_i8, spec_u16, spec_i16, spec_u32, spec_u64, spec_u8, take_bytes};
use crate::error::Fault;
use crate::types::{ByteOrder, GGMLType, MetadataValueType};
use crate::value::MetaView;

verus! {

/// The text that `String::from_utf8_lossy` makes of `bytes`: their UTF-8
/// decoding, with U+FFFD in place of each invalid sequence.
pub uninterp spec fn utf8_lossy(bytes: Seq<u8>) -> Seq<char>;

/// `String::from_utf8_lossy`, made an owned `String`: the text of `bytes`
/// under the name `utf8_lossy`, which for valid UTF-8 is its decoding.
#[verifier::external_body]
pub(crate) fn lossy_string(bytes: &[u8]) -> (r: String)
    ensures
        r@ == utf8_lossy(bytes@),
        valid_utf8(bytes@) ==> r@ == decode_utf8(bytes@),
{
    String::from_utf8_lossy(bytes).into_owned()
}

/// The version of a file and the counts that its header gives.
#[allow(inconsistent_fields)]
pub enum VersionView {
    V1 { num_tensor: u32, num_kv: u32 },
    V2 { num_tensor: u64, num_kv: u64 },
    V3 { num_tensor: u64, num_kv: u64 },
}

impl VersionView {
    /// Sizes of strings and arrays take eight bytes from version 2 on, four
    /// bytes in version 1.
    pub open spec fn wide(self) -> bool {
        !(self is V1)
    }

    pub open spec fn num_kv(self) -> u64 {
        match self {
            VersionView::V1 { num_kv, .. } => num_kv as u64,
            VersionView::V2 { num_kv, .. } => num_kv,
            VersionView::V3 { num_kv, .. } => num_kv,
        }
    }

    pub open spec fn num_tensor(self) -> u64 {
        match self {
            VersionView::V1 { num_tensor, .. } => num_tensor as u64,
            VersionView::V2 { num_tensor, .. } => num_tensor,
            VersionView::V3 { num_tensor, .. } => num_tensor,
        }
    }

    /// `"v1"`, `"v2"` or `"v3"`.
    pub open spec fn name(self) -> Seq<char> {
        match self {
            VersionView::V1 { .. } => "v1"@,
            VersionView::V2 { .. } => "v2"@,
            VersionView::V3 { .. } => "v3"@,
        }
    }
}

/// The contents of a tensor description.
pub struct TensorView {
    pub name: Seq<char>,
    pub kind: u32,
    pub offset: u64,
    pub size: u64,
    pub shape: Seq<u64>,
}

/// What reading a file yields after its magic: its version and counts,
/// its metadata entries in file order, its tensor descriptions, the sum of
/// the tensors' element counts and the position after the last description.
pub struct Decoded {
    pub version: VersionView,
    pub kvs: Seq<(Seq<char>, MetaView)>,
    pub tensors: Seq<TensorView>,
    pub parameters: u64,
    pub end: int,
}

/// The version field and the two counts that follow it.
pub open spec fn spec_header(bo: ByteOrder, s: Seq<u8>, pos: int) -> Result<(VersionView, int), (Fault, int)> {
    match spec_i32(bo, s, pos) {
        Err(f) => Err(f),
        Ok((v, p)) => if v == 1 {
            match spec_u32(bo, s, p) {
                Err(f) => Err(f),
                Ok((nt, p2)) => match spec_u32(bo, s, p2) {
                    Err(f) => Err(f),
                    Ok((nk, p3)) => Ok((VersionView::V1 { num_tensor: nt, num_kv: nk }, p3)),
                },
            }
        } else if v == 2 || v == 3 {
            match spec_u64(bo, s, p) {
                Err(f) => Err(f),
                Ok((nt, p2)) => match spec_u64(bo, s, p2) {
                    Err(f) => Err(f),
                    Ok((nk, p3)) => if v == 2 {
                        Ok((VersionView::V2 { num_tensor: nt, num_kv: nk }, p3))
                    } else {
                        Ok((VersionView::V3 { num_tensor: nt, num_kv: nk }, p3))
                    },
                },
            }
        } else {
            Err((Fault::InvalidVersion(v), p))
        },
    }
}

/// The size in front of a string or an array: a `u64`, or a `u32` in
/// version 1.
pub open spec fn spec_size(bo: ByteOrder, wide: bool, s: Seq<u8>, pos: int) -> Result<(u64, int), (Fault, int)> {
    if wide {
        spec_u64(bo, s, pos)
    } else {
        match spec_u32(bo, s, pos) {
            Ok((v, p)) => Ok((v as u64, p)),
            Err(f) => Err(f),
        }
    }
}

/// A string: its size, then that many bytes of text.
pub open spec fn spec_string(bo: ByteOrder, wide: bool, s: Seq<u8>, pos: int) -> Result<(Seq<char>, int), (Fault, int)> {
    match spec_size(bo, wide, s, pos) {
        Err(f) => Err(f),
        Ok((n, p)) => match take_bytes(s, p, n as int) {
            Err(f) => Err(f),
            Ok((b, q)) => Ok((utf8_lossy(b), q)),
        },
    }
}

/// A value of a type other than `Array`.
pub open spec fn spec_scalar(bo: ByteOrder, wide: bool, t: MetadataValueType, s: Seq<u8>, pos: int) -> Result<(MetaView, int), (Fault, int)> {
    match t {
        MetadataValueType::Uint8 => match spec_u8(s, pos) {
            Ok((v, p)) => Ok((MetaView::Uint8(v), p)),
            Err(f) => Err(f),
        },
        MetadataValueType::Int8 => match spec_i8(s, pos) {
            Ok((v, p)) => Ok((MetaView::Int8(v), p)),
            Err(f) => Err(f),
        },
        MetadataValueType::Uint16 => match spec_u16(bo, s, pos) {
            Ok((v, p)) => Ok((MetaView::Uint16(v), p)),
            Err(f) => Err(f),
        },
        MetadataValueType::Int16 => match spec_i16(bo, s, pos) {
            Ok((v, p)) => Ok((MetaView::Int16(v), p)),
            Err(f) => Err(f),
        },
        MetadataValueType::Uint32 => match spec_u32(bo, s, pos) {
            Ok((v, p)) => Ok((MetaView::Uint32(v), p)),
            Err(f) => Err(f),
        },
        MetadataValueType::Int32 => match spec_i32(bo, s, pos) {
            Ok((v, p)) => Ok((MetaView::Int32(v), p)),
            Err(f) => Err(f),
        },
        MetadataValueType::Float32 => match spec_u32(bo, s, pos) {
            Ok((v, p)) => Ok((MetaView::Float32(v), p)),
            Err(f) => Err(f),
        },
        MetadataValueType::Bool => match spec_u8(s, pos) {
            Ok((v, p)) => Ok((MetaView::Bool(v != 0), p)),
            Err(f) => Err(f),
        },
        MetadataValueType::String => match spec_string(bo, wide, s, pos) {
            Ok((v, p)) => Ok((MetaView::String(v), p)),
            Err(f) => Err(f),
        },
        MetadataValueType::Uint64 => match spec_u64(bo, s, pos) {
            Ok((v, p)) => Ok((MetaView::Uint64(v), p)),
            Err(f) => Err(f),
        },
        MetadataValueType::Int64 => match spec_i64(bo, s, pos) {
            Ok((v, p)) => Ok((MetaView::Int64(v), p)),
            Err(f) => Err(f),
        },
        MetadataValueType::Float64 => match spec_u64(bo, s, pos) {
            Ok((v, p)) => Ok((MetaView::Float64(v), p)),
            Err(f) => Err(f),
        },
        MetadataValueType::Array => Err((Fault::UnsupportedArrayValue, pos)),
    }
}

/// The first `n` items of an array whose items are of type `t`, all of
/// them, in order; arrays of arrays are refused at their first item.
pub open spec fn spec_items(bo: ByteOrder, wide: bool, t: MetadataValueType, n: nat, s: Seq<u8>, pos: int) -> Result<(Seq<MetaView>, int), (Fault, int)>
    decreases n,
{
    if n == 0 {
        Ok((Seq::empty(), pos))
    } else {
        match spec_items(bo, wide, t, (n - 1) as nat, s, pos) {
            Err(f) => Err(f),
            Ok((vs, p)) => match spec_scalar(bo, wide, t, s, p) {
                Err(f) => Err(f),
                Ok((v, q)) => Ok((vs.push(v), q)),
            },
        }
    }
}

/// An array: the type of its items, their number, then the items. All are
/// read; the value keeps the first `max_array_size` of them.
pub open spec fn spec_array(bo: ByteOrder, wide: bool, max_array_size: u64, s: Seq<u8>, pos: int) -> Result<(MetaView, int), (Fault, int)> {
    match spec_u32(bo, s, pos) {
        Err(f) => Err(f),
        Ok((tag, p)) => match MetadataValueType::from_code(tag) {
            None => Err((Fault::InvalidMetaValueType(tag), p)),
            Some(t) => match spec_size(bo, wide, s, p) {
                Err(f) => Err(f),
                Ok((n, p2)) => match spec_items(bo, wide, t, n as nat, s, p2) {
                    Err(f) => Err(f),
                    Ok((vs, q)) => Ok((
                        MetaView::Array(vs.take(if n <= max_array_size { n as int } else { max_array_size as int })),
                        q,
                    )),
                },
            },
        },
    }
}

/// A value of type `t`.
pub open spec fn spec_value(bo: ByteOrder, wide: bool, max_array_size: u64, t: MetadataValueType, s: Seq<u8>, pos: int) -> Result<(MetaView, int), (Fault, int)> {
    if t == MetadataValueType::Array {
        spec_array(bo, wide, max_array_size, s, pos)
    } else {
        spec_scalar(bo, wide, t, s, pos)
    }
}

/// A metadata entry: its key, the tag of its type, its value.
pub open spec fn spec_kv(bo: ByteOrder, wide: bool, max_array_size: u64, s: Seq<u8>, pos: int) -> Result<((Seq<char>, MetaView), int), (Fault, int)> {
    match spec_string(bo, wide, s, pos) {
        Err(f) => Err(f),
        Ok((key, p)) => match spec_u32(bo, s, p) {
            Err(f) => Err(f),
            Ok((tag, p2)) => match MetadataValueType::from_code(tag) {
                None => Err((Fault::InvalidMetaValueType(tag), p2)),
                Some(t) => match spec_value(bo, wide, max_array_size, t, s, p2) {
                    Err(f) => Err(f),
                    Ok((v, q)) => Ok(((key, v), q)),
                },
            },
        },
    }
}

/// `n` metadata entries, in file order.
pub open spec fn spec_kvs(bo: ByteOrder, wide: bool, max_array_size: u64, n: nat, s: Seq<u8>, pos: int) -> Result<(Seq<(Seq<char>, MetaView)>, int), (Fault, int)>
    decreases n,
{
    if n == 0 {
        Ok((Seq::empty(), pos))
    } else {
        match spec_kvs(bo, wide, max_array_size, (n - 1) as nat, s, pos) {
            Err(f) => Err(f),
            Ok((kvs, p)) => match spec_kv(bo, wide, max_array_size, s, p) {
                Err(f) => Err(f),
                Ok((kv, q)) => Ok((kvs.push(kv), q)),
            },
        }
    }
}

/// The shape after reading `n` dimensions into `[1, 1, 1, 1]`; a fifth
/// dimension, once read, has no place to go: the error names its index.
pub open spec fn spec_shape(bo: ByteOrder, n: nat, s: Seq<u8>, pos: int) -> Result<(Seq<u64>, int), (Fault, int)>
    decreases n,
{
    if n == 0 {
        Ok((seq![1u64, 1u64, 1u64, 1u64], pos))
    } else {
        match spec_shape(bo, (n - 1) as nat, s, pos) {
            Err(f) => Err(f),
            Ok((sh, p)) => match spec_u64(bo, s, p) {
                Err(f) => Err(f),
                Ok((v, q)) => if n - 1 >= 4 {
                    Err((Fault::TensorWriteIndex((n - 1) as usize), q))
                } else {
                    Ok((sh.update(n - 1, v), q))
                },
            },
        }
    }
}

/// The number of elements in a block of a tensor of kind `kind`.
pub open spec fn block_size(kind: u32) -> int {
    if kind < 2 {
        1
    } else if kind < 10 {
        32
    } else if kind == 40 {
        64
    } else if kind == 41 {
        128
    } else {
        256
    }
}

/// The number of bytes in a block of `b` elements of type `t`; 0 for the
/// formats that are no longer supported.
pub open spec fn type_size(t: GGMLType, b: int) -> int {
    match t {
        GGMLType::F32 => 4,
        GGMLType::F16 => 2,
        GGMLType::Q4_0 => 2 + b / 2,
        GGMLType::Q4_1 => 2 + 2 + b / 2,
        GGMLType::Q4_2 => 0,
        GGMLType::Q4_3 => 0,
        GGMLType::Q5_0 => 2 + 4 + b / 2,
        GGMLType::Q5_1 => 2 + 2 + 4 + b / 2,
        GGMLType::Q8_0 => 2 + b,
        GGMLType::Q8_1 => 4 + 4 + b,
        GGMLType::Q2_K => b / 16 + b / 4 + 2 + 2,
        GGMLType::Q3_K => b / 8 + b / 4 + 12 + 2,
        GGMLType::Q4_K => 2 + 2 + 12 + b / 2,
        GGMLType::Q5_K => 2 + 2 + 12 + b / 8 + b / 2,
        GGMLType::Q6_K => b / 2 + b / 4 + b / 16 + 2,
        GGMLType::Q8_K => 4 + b + b / 16 * 2,
        GGMLType::IQ2_XXS => 2 + b / 8 * 2,
        GGMLType::IQ2_XS => 2 + b / 8 * 2 + b / 32,
        GGMLType::IQ3_XXS => 2 + 3 * (b / 8),
        GGMLType::IQ1_S => 2 + b / 8 + b / 16,
        GGMLType::IQ4_NL => 18,
        GGMLType::IQ3_S => 2 + 13 * (b / 32) + b / 64,
        GGMLType::IQ2_S => 2 + b / 4 + b / 16,
        GGMLType::IQ4_XS => 2 + 2 + b / 64 + b / 2,
        GGMLType::I8 => 1,
        GGMLType::I16 => 2,
        GGMLType::I32 => 4,
        GGMLType::I64 => 8,
        GGMLType::F64 => 8,
        GGMLType::IQ1_M => b / 8 + b / 16 + b / 32,
        GGMLType::BF16 => 2,
        GGMLType::IQ4_NL_4_4 => 0,
        GGMLType::IQ4_NL_4_8 => 0,
        GGMLType::IQ4_NL_8_8 => 0,
        GGMLType::TQ1_0 => 2 + b / 64 + (b - 4 * b / 64) / 5,
        GGMLType::TQ2_0 => 2 + b / 4,
        GGMLType::Q4_0_4_4 => 0,
        GGMLType::Q4_0_4_8 => 0,
        GGMLType::Q4_0_8_8 => 0,
        GGMLType::MXFP4 => b + 1 + 16,
        GGMLType::NVFP4 => b / 16 + b / 2,
        GGMLType::Q1_0 => 2 + b / 128,
        GGMLType::Count => 0,
    }
}

/// The largest `u64`.
pub open spec fn u64_max() -> int {
    0xffff_ffff_ffff_ffff
}

/// The description of the tensor at place `index` once its name, shape,
/// kind and offset are read: its byte size is its element count times the
/// block's byte size over the block's element count. The element count
/// comes along. `Count` is no data format, and is refused as an invalid
/// type; element or byte counts past `u64` are refused with the tensor's
/// place.
pub open spec fn spec_describe(index: nat, name: Seq<char>, shape: Seq<u64>, kind: u32, offset: u64) -> Result<(TensorView, u64), Fault> {
    match GGMLType::from_code(kind) {
        None => Err(Fault::InvalidGGMLType(kind)),
        Some(t) => if t == GGMLType::Count {
            Err(Fault::InvalidGGMLType(kind))
        } else {
            let p1 = shape[0] * shape[1];
            let p2 = p1 * shape[2];
            let p3 = p2 * shape[3];
            let full = p3 * type_size(t, block_size(kind));
            if p1 > u64_max() || p2 > u64_max() || p3 > u64_max() || full > u64_max() {
                Err(Fault::TensorWriteIndex(index as usize))
            } else {
                Ok((
                    TensorView {
                        name,
                        kind,
                        offset,
                        size: (full / block_size(kind)) as u64,
                        shape,
                    },
                    p3 as u64,
                ))
            }
        },
    }
}

/// The description of the tensor at place `index`: name, number of
/// dimensions, the dimensions, kind and offset of its data.
pub open spec fn spec_tensor(bo: ByteOrder, wide: bool, index: nat, s: Seq<u8>, pos: int) -> Result<((TensorView, u64), int), (Fault, int)> {
    match spec_string(bo, wide, s, pos) {
        Err(f) => Err(f),
        Ok((name, p1)) => match spec_u32(bo, s, p1) {
            Err(f) => Err(f),
            Ok((dims, p2)) => match spec_shape(bo, dims as nat, s, p2) {
                Err(f) => Err(f),
                Ok((shape, p3)) => match spec_u32(bo, s, p3) {
                    Err(f) => Err(f),
                    Ok((kind, p4)) => match spec_u64(bo, s, p4) {
                        Err(f) => Err(f),
                        Ok((offset, p5)) => match spec_describe(index, name, shape, kind, offset) {
                            Err(f) => Err((f, p5)),
                            Ok(d) => Ok((d, p5)),
                        },
                    },
                },
            },
        },
    }
}

/// `n` tensor descriptions in file order, and the sum of their element
/// counts; a tensor that takes the sum past `u64` is refused with its
/// place.
pub open spec fn spec_tensors(bo: ByteOrder, wide: bool, n: nat, s: Seq<u8>, pos: int) -> Result<(Seq<TensorView>, u64, int), (Fault, int)>
    decreases n,
{
    if n == 0 {
        Ok((Seq::empty(), 0u64, pos))
    } else {
        match spec_tensors(bo, wide, (n - 1) as nat, s, pos) {
            Err(f) => Err(f),
            Ok((ts, total, p)) => match spec_tensor(bo, wide, (n - 1) as nat, s, p) {
                Err(f) => Err(f),
                Ok(((t, count), q)) => if total + count > u64_max() {
                    Err((Fault::TensorWriteIndex((n - 1) as usize), q))
                } else {
                    Ok((ts.push(t), (total + count) as u64, q))
                },
            },
        }
    }
}

/// The whole of a file after its magic, read from `pos`.
pub open spec fn spec_decode(bo: ByteOrder, max_array_size: u64, s: Seq<u8>, pos: int) -> Result<Decoded, (Fault, int)> {
    match spec_header(bo, s, pos) {
        Err(f) => Err(f),
        Ok((version, p)) => match spec_kvs(bo, version.wide(), max_array_size, version.num_kv() as nat, s, p) {
            Err(f) => Err(f),
            Ok((kvs, p2)) => match spec_tensors(bo, version.wide(), version.num_tensor() as nat, s, p2) {
                Err(f) => Err(f),
                Ok((tensors, parameters, end)) => Ok(Decoded { version, kvs, tensors, parameters, end }),
            },
        },
    }
}

/// The metadata entries that reading `n` of them yields before the first
/// one that fails: all `n` when none fails.
pub open spec fn kvs_done(bo: ByteOrder, wide: bool, max_array_size: u64, n: nat, s: Seq<u8>, pos: int) -> Seq<(Seq<char>, MetaView)>
    decreases n,
{
    if n == 0 {
        Seq::empty()
    } else {
        match spec_kvs(bo, wide, max_array_size, (n - 1) as nat, s, pos) {
            Err(_) => kvs_done(bo, wide, max_array_size, (n - 1) as nat, s, pos),
            Ok((kvs, p)) => match spec_kv(bo, wide, max_array_size, s, p) {
                Ok((kv, _)) => kvs.push(kv),
                Err(_) => kvs,
            },
        }
    }
}

/// The tensor descriptions that reading `n` of them yields before the first
/// one that is refused, and the sum of their element counts: all `n` when
/// none is.
pub open spec fn tensors_done(bo: ByteOrder, wide: bool, n: nat, s: Seq<u8>, pos: int) -> (Seq<TensorView>, u64)
    decreases n,
{
    if n == 0 {
        (Seq::empty(), 0u64)
    } else {
        match spec_tensors(bo, wide, (n - 1) as nat, s, pos) {
            Err(_) => tensors_done(bo, wide, (n - 1) as nat, s, pos),
            Ok((ts, total, p)) => match spec_tensor(bo, wide, (n - 1) as nat, s, p) {
                Ok(((t, count), _)) => if total + count > u64_max() {
                    (ts, total)
                } else {
                    (ts.push(t), (total + count) as u64)
                },
                Err(_) => (ts, total),
            },
        }
    }
}

/// Once reading some entries fails, the entries read before stay those
/// however many more are asked for.
pub proof fn lemma_kvs_done_fail(bo: ByteOrder, wide: bool, max_array_size: u64, k: nat, n: nat, s: Seq<u8>, pos: int)
    requires
        k <= n,
        spec_kvs(bo, wide, max_array_size, k, s, pos) is Err,
    ensures
        kvs_done(bo, wide, max_array_size, n, s, pos) == kvs_done(bo, wide, max_array_size, k, s, pos),
    decreases n,
{
    if k < n {
        lemma_kvs_fail(bo, wide, max_array_size, k, (n - 1) as nat, s, pos);
        lemma_kvs_done_fail(bo, wide, max_array_size, k, (n - 1) as nat, s, pos);
    }
}

/// Once reading some tensor descriptions fails, the descriptions read
/// before stay those however many more are asked for.
pub proof fn lemma_tensors_done_fail(bo: ByteOrder, wide: bool, k: nat, n: nat, s: Seq<u8>, pos: int)
    requires
        k <= n,
        spec_tensors(bo, wide, k, s, pos) is Err,
    ensures
        tensors_done(bo, wide, n, s, pos) == tensors_done(bo, wide, k, s, pos),
    decreases n,
{
    if k < n {
        lemma_tensors_fail(bo, wide, k, (n - 1) as nat, s, pos);
        lemma_tensors_done_fail(bo, wide, k, (n - 1) as nat, s, pos);
    }
}

/// Once reading some items fails, reading more fails the same way.
pub proof fn lemma_items_fail(bo: ByteOrder, wide: bool, t: MetadataValueType, k: nat, n: nat, s: Seq<u8>, pos: int)
    requires
        k <= n,
        spec_items(bo, wide, t, k, s, pos) is Err,
    ensures
        spec_items(bo, wide, t, n, s, pos) == spec_items(bo, wide, t, k, s, pos),
    decreases n,
{
    if k < n {
        lemma_items_fail(bo, wide, t, k, (n - 1) as nat, s, pos);
    }
}

/// Once reading some entries fails, reading more fails the same way.
pub proof fn lemma_kvs_fail(bo: ByteOrder, wide: bool, max_array_size: u64, k: nat, n: nat, s: Seq<u8>, pos: int)
    requires
        k <= n,
        spec_kvs(bo, wide, max_array_size, k, s, pos) is Err,
    ensures
        spec_kvs(bo, wide, max_array_size, n, s, pos) == spec_kvs(bo, wide, max_array_size, k, s, pos),
    decreases n,
{
    if k < n {
        lemma_kvs_fail(bo, wide, max_array_size, k, (n - 1) as nat, s, pos);
    }
}

/// Once reading some dimensions fails, reading more fails the same way.
pub proof fn lemma_shape_fail(bo: ByteOrder, k: nat, n: nat, s: Seq<u8>, pos: int)
    requires
        k <= n,
        spec_shape(bo, k, s, pos) is Err,
    ensures
        spec_shape(bo, n, s, pos) == spec_shape(bo, k, s, pos),
    decreases n,
{
    if k < n {
        lemma_shape_fail(bo, k, (n - 1) as nat, s, pos);
    }
}

/// Once reading some tensor descriptions fails, reading more fails the
/// same way.
pub proof fn lemma_tensors_fail(bo: ByteOrder, wide: bool, k: nat, n: nat, s: Seq<u8>, pos: int)
    requires
        k <= n,
        spec_tensors(bo, wide, k, s, pos) is Err,
    ensures
        spec_tensors(bo, wide, n, s, pos) == spec_tensors(bo, wide, k, s, pos),
    decreases n,
{
    if k < n {
        lemma_tensors_fail(bo, wide, k, (n - 1) as nat, s, pos);
    }
}

} // verus!
