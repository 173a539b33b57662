//! The container that decodes a GGUF file, and the decoded model.
use vstd::prelude::*;

use crate::bytes::{spec_i32, read_bytes, read_i16, read_i32, read_i64, read_i8, read_u16, read_u32, read_u64, read_u8};
use crate::error::{Error, Fault};
use crate::layout::{
    lossy_string, spec_array, spec_items, spec_scalar, spec_size, spec_string, spec_value,
    lemma_items_fail, TensorView, VersionView, block_size, type_size, spec_shape,
    spec_tensor, spec_tensors, spec_kvs, spec_kv, lemma_shape_fail, lemma_tensors_fail, lemma_kvs_fail,
    spec_header, spec_decode, Decoded, kvs_done, tensors_done, lemma_kvs_done_fail, lemma_tensors_done_fail,
};
use crate::metadata::MetadataMap;
use crate::types::{ByteOrder, GGMLType, MetadataValueType, Tensor, tensors_view};
use crate::metadata::fold_entries;
use crate::text::{file_type, file_type_name, human_number, human_text};
use crate::value::{values_view, MetaView, MetadataValue};

verus! {

/// Version 1 of the GGUF file.
#[derive(Debug, Clone, Copy)]
pub struct V1 {
    num_tensor: u32,
    num_kv: u32,
}

/// Version 2 of the GGUF file.
#[derive(Debug, Clone, Copy)]
pub struct V2 {
    num_tensor: u64,
    num_kv: u64,
}

/// Version 3 of the GGUF file.
#[derive(Debug, Clone, Copy)]
pub struct V3 {
    num_tensor: u64,
    num_kv: u64,
}

impl Default for V1 {
    /// No tensors and no metadata entries.
    fn default() -> (r: Self)
        ensures
            Version::V1(r)@ == (VersionView::V1 { num_tensor: 0, num_kv: 0 }),
    {
        V1 { num_tensor: 0, num_kv: 0 }
    }
}

impl Default for V2 {
    /// No tensors and no metadata entries.
    fn default() -> (r: Self)
        ensures
            Version::V2(r)@ == (VersionView::V2 { num_tensor: 0, num_kv: 0 }),
    {
        V2 { num_tensor: 0, num_kv: 0 }
    }
}

impl Default for V3 {
    /// No tensors and no metadata entries.
    fn default() -> (r: Self)
        ensures
            Version::V3(r)@ == (VersionView::V3 { num_tensor: 0, num_kv: 0 }),
    {
        V3 { num_tensor: 0, num_kv: 0 }
    }
}

/// Version of the GGUF file, with the counts of tensors and metadata
/// entries that its header gives.
#[derive(Debug, Clone, Copy)]
pub enum Version {
    V1(V1),
    V2(V2),
    V3(V3),
}

impl Version {
    pub closed spec fn view(&self) -> VersionView {
        match self {
            Version::V1(v) => VersionView::V1 { num_tensor: v.num_tensor, num_kv: v.num_kv },
            Version::V2(v) => VersionView::V2 { num_tensor: v.num_tensor, num_kv: v.num_kv },
            Version::V3(v) => VersionView::V3 { num_tensor: v.num_tensor, num_kv: v.num_kv },
        }
    }

    /// `"v1"`, `"v2"` or `"v3"`.
    fn name(&self) -> (r: String)
        ensures
            r@ == self@.name(),
    {
        match self {
            Version::V1(_) => "v1".to_owned(),
            Version::V2(_) => "v2".to_owned(),
            Version::V3(_) => "v3".to_owned(),
        }
    }

    /// Sizes take eight bytes from version 2 on.
    fn wide(&self) -> (r: bool)
        ensures
            r == self@.wide(),
    {
        match self {
            Version::V1(_) => false,
            _ => true,
        }
    }

    fn num_kv(&self) -> (r: u64)
        ensures
            r == self@.num_kv(),
    {
        match self {
            Version::V1(v) => v.num_kv as u64,
            Version::V2(v) => v.num_kv,
            Version::V3(v) => v.num_kv,
        }
    }

    fn num_tensor(&self) -> (r: u64)
        ensures
            r == self@.num_tensor(),
    {
        match self {
            Version::V1(v) => v.num_tensor as u64,
            Version::V2(v) => v.num_tensor,
            Version::V3(v) => v.num_tensor,
        }
    }
}

/// How reading a value went, against its specification: the same
/// contents and position, or an error of the same kind.
pub open spec fn value_agrees(r: Result<(MetadataValue, usize), (Error, usize)>, s: Result<(MetaView, int), (Fault, int)>) -> bool {
    match s {
        Ok((v, p)) => r matches Ok((w, q)) && w@ == v && q == p,
        Err((f, p)) => r matches Err((e, q)) && e.fault() == f && q == p,
    }
}

/// The number of bytes in a block of `b` elements of type `t`.
fn type_size_of(t: GGMLType, b: u64) -> (r: u64)
    requires
        1 <= b <= 256,
    ensures
        r as int == type_size(t, b as int),
{
    match t {
        GGMLType::F32 => 4,
        GGMLType::F16 => 2,
        GGMLType::Q4_0 => 2 + b / 2,
        GGMLType::Q4_1 => 2 + 2 + b / 2,
        GGMLType::Q4_2 => 0,
        GGMLType::Q4_3 => 0,
        GGMLType::Q5_0 => 2 + 4 + b / 2,
        GGMLType::Q5_1 => 2 + 2 + 4 + b / 2,
        GGMLType::Q8_0 => 2 + b,
        GGMLType::Q8_1 => 4 + 4 + b,
        GGMLType::Q2_K => b / 16 + b / 4 + 2 + 2,
        GGMLType::Q3_K => b / 8 + b / 4 + 12 + 2,
        GGMLType::Q4_K => 2 + 2 + 12 + b / 2,
        GGMLType::Q5_K => 2 + 2 + 12 + b / 8 + b / 2,
        GGMLType::Q6_K => b / 2 + b / 4 + b / 16 + 2,
        GGMLType::Q8_K => 4 + b + b / 16 * 2,
        GGMLType::IQ2_XXS => 2 + b / 8 * 2,
        GGMLType::IQ2_XS => 2 + b / 8 * 2 + b / 32,
        GGMLType::IQ3_XXS => 2 + 3 * (b / 8),
        GGMLType::IQ1_S => 2 + b / 8 + b / 16,
        GGMLType::IQ4_NL => 18,
        GGMLType::IQ3_S => 2 + 13 * (b / 32) + b / 64,
        GGMLType::IQ2_S => 2 + b / 4 + b / 16,
        GGMLType::IQ4_XS => 2 + 2 + b / 64 + b / 2,
        GGMLType::I8 => 1,
        GGMLType::I16 => 2,
        GGMLType::I32 => 4,
        GGMLType::I64 => 8,
        GGMLType::F64 => 8,
        GGMLType::IQ1_M => b / 8 + b / 16 + b / 32,
        GGMLType::BF16 => 2,
        GGMLType::IQ4_NL_4_4 => 0,
        GGMLType::IQ4_NL_4_8 => 0,
        GGMLType::IQ4_NL_8_8 => 0,
        GGMLType::TQ1_0 => 2 + b / 64 + (b - 4 * b / 64) / 5,
        GGMLType::TQ2_0 => 2 + b / 4,
        GGMLType::Q4_0_4_4 => 0,
        GGMLType::Q4_0_4_8 => 0,
        GGMLType::Q4_0_8_8 => 0,
        GGMLType::MXFP4 => b + 1 + 16,
        GGMLType::NVFP4 => b / 16 + b / 2,
        GGMLType::Q1_0 => 2 + b / 128,
        GGMLType::Count => 0,
    }
}


/// The number of elements in a block of a tensor of kind `kind`.
fn block_size_of(kind: u32) -> (r: u64)
    ensures
        r as int == block_size(kind),
        1 <= r <= 256,
{
    if kind < 2 {
        1
    } else if kind < 10 {
        32
    } else if kind == 40 {
        64
    } else if kind == 41 {
        128
    } else {
        256
    }
}

/// The contents of a decoded model.
pub struct ModelView {
    pub kv: Map<Seq<char>, MetaView>,
    pub tensors: Seq<TensorView>,
    pub parameters: u64,
    pub max_array_size: u64,
    pub bo: ByteOrder,
    pub version: VersionView,
}

/// Decoded GGUF model containing metadata and tensors.
///
/// Use [`GGUFContainer::decode`] to get a `GGUFModel`.
pub struct GGUFModel {
    kv: MetadataMap,
    tensors: Vec<Tensor>,
    parameters: u64,
    max_array_size: u64,
    bo: ByteOrder,
    version: Version,
}

impl GGUFModel {
    pub closed spec fn view(&self) -> ModelView {
        ModelView {
            kv: self.kv@,
            tensors: tensors_view(self.tensors@),
            parameters: self.parameters,
            max_array_size: self.max_array_size,
            bo: self.bo,
            version: self.version@,
        }
    }

    spec fn wide_spec(&self) -> bool {
        self.version@.wide()
    }

    fn read_version_size(&self, data: &[u8], pos: usize) -> (r: Result<(u64, usize), (Error, usize)>)
        ensures
            crate::bytes::agrees(r, spec_size(self.bo, self.wide_spec(), data@, pos as int)),
    {
        if self.version.wide() {
            read_u64(self.bo, data, pos)
        } else {
            let (v, p) = read_u32(self.bo, data, pos)?;
            Ok((v as u64, p))
        }
    }

    fn read_string(&self, data: &[u8], pos: usize) -> (r: Result<(String, usize), (Error, usize)>)
        ensures
            match spec_string(self.bo, self.wide_spec(), data@, pos as int) {
                Ok((v, p)) => r matches Ok((w, q)) && w@ == v && q == p,
                Err((f, p)) => r matches Err((e, q)) && e.fault() == f && q == p,
            },
    {
        let (len, p) = self.read_version_size(data, pos)?;
        assert(data@.len() == data.len());
        if len > usize::MAX as u64 {
            return Err((Error::IO(crate::error::eof_error()), data.len()));
        }
        let (b, q) = read_bytes(data, p, len as usize)?;
        Ok((lossy_string(b), q))
    }

    fn read_scalar(&self, t: MetadataValueType, data: &[u8], pos: usize) -> (r: Result<(MetadataValue, usize), (Error, usize)>)
        ensures
            value_agrees(r, spec_scalar(self.bo, self.wide_spec(), t, data@, pos as int)),
    {
        match t {
            MetadataValueType::Uint8 => {
                let (v, p) = read_u8(data, pos)?;
                Ok((MetadataValue::Uint8(v), p))
            },
            MetadataValueType::Int8 => {
                let (v, p) = read_i8(data, pos)?;
                Ok((MetadataValue::Int8(v), p))
            },
            MetadataValueType::Uint16 => {
                let (v, p) = read_u16(self.bo, data, pos)?;
                Ok((MetadataValue::Uint16(v), p))
            },
            MetadataValueType::Int16 => {
                let (v, p) = read_i16(self.bo, data, pos)?;
                Ok((MetadataValue::Int16(v), p))
            },
            MetadataValueType::Uint32 => {
                let (v, p) = read_u32(self.bo, data, pos)?;
                Ok((MetadataValue::Uint32(v), p))
            },
            MetadataValueType::Int32 => {
                let (v, p) = read_i32(self.bo, data, pos)?;
                Ok((MetadataValue::Int32(v), p))
            },
            MetadataValueType::Float32 => {
                let (v, p) = read_u32(self.bo, data, pos)?;
                Ok((MetadataValue::Float32(v), p))
            },
            MetadataValueType::Bool => {
                let (v, p) = read_u8(data, pos)?;
                Ok((MetadataValue::Bool(v != 0), p))
            },
            MetadataValueType::String => {
                let (v, p) = self.read_string(data, pos)?;
                Ok((MetadataValue::String(v), p))
            },
            MetadataValueType::Uint64 => {
                let (v, p) = read_u64(self.bo, data, pos)?;
                Ok((MetadataValue::Uint64(v), p))
            },
            MetadataValueType::Int64 => {
                let (v, p) = read_i64(self.bo, data, pos)?;
                Ok((MetadataValue::Int64(v), p))
            },
            MetadataValueType::Float64 => {
                let (v, p) = read_u64(self.bo, data, pos)?;
                Ok((MetadataValue::Float64(v), p))
            },
            MetadataValueType::Array => Err((Error::UnsupportedArrayValue, pos)),
        }
    }

    /// An array: all of its items are read; the first `max_array_size`
    /// of them are kept.
    #[verifier::loop_isolation(false)]
    fn read_array(&self, data: &[u8], pos: usize) -> (r: Result<(MetadataValue, usize), (Error, usize)>)
        ensures
            value_agrees(r, spec_array(self.bo, self.wide_spec(), self.max_array_size, data@, pos as int)),
    {
        let (tag, p) = read_u32(self.bo, data, pos)?;
        let item_type = match MetadataValueType::try_from(tag) {
            Ok(t) => t,
            Err(e) => return Err((e, p)),
        };
        let (array_len, start) = self.read_version_size(data, p)?;
        let read_count: u64 = if array_len <= self.max_array_size {
            array_len
        } else {
            self.max_array_size
        };
        let mut out: Vec<MetadataValue> = Vec::new();
        let mut i: u64 = 0;
        let mut p = start;
        let ghost mut all: Seq<MetaView> = Seq::empty();
        while i < array_len
            invariant
                i <= array_len,
                read_count <= array_len,
                spec_items(self.bo, self.wide_spec(), item_type, i as nat, data@, start as int) == Ok::<(Seq<MetaView>, int), (Fault, int)>((all, p as int)),
                values_view(out@) == all.take(if i <= read_count { i as int } else { read_count as int }),
                out.len() == if i <= read_count { i as int } else { read_count as int },
                all.len() == i,
            decreases array_len - i,
        {
            let step = self.read_scalar(item_type, data, p);
            match step {
                Ok((v, q)) => {
                    let ghost old_out = out@;
                    if (out.len() as u64) < read_count {
                        out.push(v);
                        proof {
                            assert(values_view(out@) =~= values_view(old_out).push(all.push(v@).last()));
                        }
                    }
                    proof {
                        all = all.push(v@);
                    }
                    p = q;
                    i = i + 1;
                    assert(values_view(out@) =~= all.take(if i <= read_count { i as int } else { read_count as int }));
                },
                Err((e, q)) => {
                    assert(spec_items(self.bo, self.wide_spec(), item_type, (i + 1) as nat, data@, start as int) == Err::<(Seq<MetaView>, int), (Fault, int)>((e.fault(), q as int)));
                    proof {
                        lemma_items_fail(self.bo, self.wide_spec(), item_type, (i + 1) as nat, array_len as nat, data@, start as int);
                    }
                    return Err((e, q));
                },
            }
        }
        Ok((MetadataValue::Array(out), p))
    }

    fn read_value(&self, t: MetadataValueType, data: &[u8], pos: usize) -> (r: Result<(MetadataValue, usize), (Error, usize)>)
        ensures
            value_agrees(r, spec_value(self.bo, self.wide_spec(), self.max_array_size, t, data@, pos as int)),
    {
        match t {
            MetadataValueType::Array => self.read_array(data, pos),
            _ => self.read_scalar(t, data, pos),
        }
    }
}

impl GGUFModel {
    /// The shape of a tensor: `dims` dimensions read into `[1, 1, 1, 1]`;
    /// a fifth dimension is refused once read.
    #[verifier::loop_isolation(false)]
    fn read_shape(&self, dims: u32, data: &[u8], pos: usize) -> (r: Result<([u64; 4], usize), (Error, usize)>)
        ensures
            match spec_shape(self.bo, dims as nat, data@, pos as int) {
                Ok((sh, p)) => r matches Ok((w, q)) && w@ == sh && q == p,
                Err((f, p)) => r matches Err((e, q)) && e.fault() == f && q == p,
            },
    {
        let mut shape: [u64; 4] = [1u64, 1u64, 1u64, 1u64];
        let mut i: u32 = 0;
        let mut p = pos;
        assert(shape@ =~= seq![1u64, 1u64, 1u64, 1u64]);
        while i < dims
            invariant
                i <= dims,
                spec_shape(self.bo, i as nat, data@, pos as int) == Ok::<(Seq<u64>, int), (Fault, int)>((shape@, p as int)),
            decreases dims - i,
        {
            match read_u64(self.bo, data, p) {
                Ok((v, q)) => {
                    if i >= 4 {
                        let e = Error::TensorWriteIndex(i as usize);
                        assert(spec_shape(self.bo, (i + 1) as nat, data@, pos as int) == Err::<(Seq<u64>, int), (Fault, int)>((e.fault(), q as int)));
                        proof {
                            lemma_shape_fail(self.bo, (i + 1) as nat, dims as nat, data@, pos as int);
                        }
                        return Err((e, q));
                    }
                    shape[i as usize] = v;
                    p = q;
                    i = i + 1;
                },
                Err((e, q)) => {
                    assert(spec_shape(self.bo, (i + 1) as nat, data@, pos as int) == Err::<(Seq<u64>, int), (Fault, int)>((e.fault(), q as int)));
                    proof {
                        lemma_shape_fail(self.bo, (i + 1) as nat, dims as nat, data@, pos as int);
                    }
                    return Err((e, q));
                },
            }
        }
        Ok((shape, p))
    }

    /// The description of the tensor at place `index`, with its element
    /// count.
    fn read_tensor(&self, index: u64, data: &[u8], pos: usize) -> (r: Result<((Tensor, u64), usize), (Error, usize)>)
        ensures
            match spec_tensor(self.bo, self.wide_spec(), index as nat, data@, pos as int) {
                Ok(((t, n), p)) => r matches Ok(((w, m), q)) && w@ == t && m == n && q == p,
                Err((f, p)) => r matches Err((e, q)) && e.fault() == f && q == p,
            },
    {
        let (name, p) = self.read_string(data, pos)?;
        let (dims, p) = read_u32(self.bo, data, p)?;
        let (shape, p) = self.read_shape(dims, data, p)?;
        let (kind, p) = read_u32(self.bo, data, p)?;
        let (offset, p) = read_u64(self.bo, data, p)?;
        let block = block_size_of(kind);
        let ty = match GGMLType::try_from(kind) {
            Ok(t) => t,
            Err(e) => return Err((e, p)),
        };
        if ty == GGMLType::Count {
            return Err((Error::InvalidGGMLType(kind), p));
        }
        let tsize = type_size_of(ty, block);
        let p1 = match shape[0].checked_mul(shape[1]) {
            Some(x) => x,
            None => return Err((Error::TensorWriteIndex(index as usize), p)),
        };
        let p2 = match p1.checked_mul(shape[2]) {
            Some(x) => x,
            None => return Err((Error::TensorWriteIndex(index as usize), p)),
        };
        let parameters = match p2.checked_mul(shape[3]) {
            Some(x) => x,
            None => return Err((Error::TensorWriteIndex(index as usize), p)),
        };
        let full = match parameters.checked_mul(tsize) {
            Some(x) => x,
            None => return Err((Error::TensorWriteIndex(index as usize), p)),
        };
        let size = full / block;
        Ok(((Tensor { name, kind, offset, size, shape }, parameters), p))
    }

    /// Decode the metadata entries and tensor descriptions of the file from
    /// `pos` on into this model, which holds none yet; the position after
    /// the last description. On an error, the position that the failing
    /// read left, and the model holds what was read before the failing
    /// record: the entries before it, or all entries and the tensors before
    /// it with their element counts added up.
    pub(crate) fn decode(&mut self, data: &[u8], pos: usize) -> (r: Result<usize, (Error, usize)>)
        requires
            old(self)@.kv == Map::<Seq<char>, MetaView>::empty(),
            old(self)@.tensors == Seq::<TensorView>::empty(),
            old(self)@.parameters == 0,
        ensures
            final(self)@.version == old(self)@.version,
            final(self)@.bo == old(self)@.bo,
            final(self)@.max_array_size == old(self)@.max_array_size,
            match spec_kvs(old(self)@.bo, old(self)@.version.wide(), old(self)@.max_array_size,
                old(self)@.version.num_kv() as nat, data@, pos as int) {
                Err((f, p)) => r matches Err((e, q)) && e.fault() == f && q == p
                    && final(self)@.kv == fold_entries(kvs_done(old(self)@.bo, old(self)@.version.wide(),
                        old(self)@.max_array_size, old(self)@.version.num_kv() as nat, data@, pos as int))
                    && final(self)@.tensors == Seq::<TensorView>::empty()
                    && final(self)@.parameters == 0,
                Ok((kvs, p)) => final(self)@.kv == fold_entries(kvs) && match spec_tensors(old(self)@.bo,
                    old(self)@.version.wide(), old(self)@.version.num_tensor() as nat, data@, p) {
                    Err((f, q)) => r matches Err((e, q2)) && e.fault() == f && q2 == q
                        && final(self)@.tensors == tensors_done(old(self)@.bo, old(self)@.version.wide(),
                            old(self)@.version.num_tensor() as nat, data@, p).0
                        && final(self)@.parameters == tensors_done(old(self)@.bo, old(self)@.version.wide(),
                            old(self)@.version.num_tensor() as nat, data@, p).1,
                    Ok((ts, total, q)) => r matches Ok(end) && end == q
                        && final(self)@.tensors == ts
                        && final(self)@.parameters == total,
                },
            },
    {
        let p = self.decode_kvs(data, pos)?;
        self.decode_tensors(data, p)
    }

    /// The metadata entries from `pos` on, put into this model's map one
    /// after the other.
    fn decode_kvs(&mut self, data: &[u8], pos: usize) -> (r: Result<usize, (Error, usize)>)
        requires
            old(self)@.kv == Map::<Seq<char>, MetaView>::empty(),
        ensures
            final(self).version == old(self).version,
            final(self).bo == old(self).bo,
            final(self).max_array_size == old(self).max_array_size,
            final(self).tensors == old(self).tensors,
            final(self).parameters == old(self).parameters,
            final(self)@.kv == fold_entries(kvs_done(old(self)@.bo, old(self)@.version.wide(), old(self)@.max_array_size,
                old(self)@.version.num_kv() as nat, data@, pos as int)),
            match spec_kvs(old(self)@.bo, old(self)@.version.wide(), old(self)@.max_array_size,
                old(self)@.version.num_kv() as nat, data@, pos as int) {
                Err((f, p)) => r matches Err((e, q)) && e.fault() == f && q == p,
                Ok((kvs, p)) => r matches Ok(end) && end == p && final(self)@.kv == fold_entries(kvs),
            },
    {
        let ghost bo = self.bo;
        let ghost wide = self.wide_spec();
        let ghost max = self.max_array_size;
        let num_kv = self.version.num_kv();
        let mut i: u64 = 0;
        let mut p = pos;
        let ghost mut kvs: Seq<(Seq<char>, MetaView)> = Seq::empty();
        while i < num_kv
            invariant
                i <= num_kv,
                num_kv == old(self)@.version.num_kv(),
                self.bo == bo,
                bo == old(self)@.bo,
                wide == old(self)@.version.wide(),
                max == old(self)@.max_array_size,
                self.max_array_size == max,
                self.version == old(self).version,
                self.tensors == old(self).tensors,
                self.parameters == old(self).parameters,
                spec_kvs(bo, wide, max, i as nat, data@, pos as int) == Ok::<(Seq<(Seq<char>, MetaView)>, int), (Fault, int)>((kvs, p as int)),
                kvs_done(bo, wide, max, i as nat, data@, pos as int) == kvs,
                self.kv@ == fold_entries(kvs),
            decreases num_kv - i,
        {
            let step = self.read_kv(data, p);
            match step {
                Ok((key, value, q)) => {
                    let ghost old_kvs = kvs;
                    proof {
                        kvs = kvs.push((key@, value@));
                    }
                    self.kv.insert(key, value);
                    assert(kvs.drop_last() =~= old_kvs);
                    p = q;
                    i = i + 1;
                },
                Err((e, q)) => {
                    assert(spec_kvs(bo, wide, max, (i + 1) as nat, data@, pos as int) == Err::<(Seq<(Seq<char>, MetaView)>, int), (Fault, int)>((e.fault(), q as int)));
                    assert(kvs_done(bo, wide, max, (i + 1) as nat, data@, pos as int) == kvs);
                    proof {
                        lemma_kvs_fail(bo, wide, max, (i + 1) as nat, num_kv as nat, data@, pos as int);
                        lemma_kvs_done_fail(bo, wide, max, (i + 1) as nat, num_kv as nat, data@, pos as int);
                    }
                    return Err((e, q));
                },
            }
        }
        Ok(p)
    }

    /// The tensor descriptions from `pos` on, appended to this model's
    /// tensors, their element counts added up.
    fn decode_tensors(&mut self, data: &[u8], pos: usize) -> (r: Result<usize, (Error, usize)>)
        requires
            old(self)@.tensors == Seq::<TensorView>::empty(),
            old(self)@.parameters == 0,
        ensures
            final(self).version == old(self).version,
            final(self).bo == old(self).bo,
            final(self).max_array_size == old(self).max_array_size,
            final(self)@.kv == old(self)@.kv,
            final(self)@.tensors == tensors_done(old(self)@.bo, old(self)@.version.wide(),
                old(self)@.version.num_tensor() as nat, data@, pos as int).0,
            final(self)@.parameters == tensors_done(old(self)@.bo, old(self)@.version.wide(),
                old(self)@.version.num_tensor() as nat, data@, pos as int).1,
            match spec_tensors(old(self)@.bo, old(self)@.version.wide(),
                old(self)@.version.num_tensor() as nat, data@, pos as int) {
                Err((f, p)) => r matches Err((e, q)) && e.fault() == f && q == p,
                Ok((ts, total, q)) => r matches Ok(end) && end == q
                    && final(self)@.tensors == ts
                    && final(self)@.parameters == total,
            },
    {
        let ghost bo = self.bo;
        let ghost wide = self.wide_spec();
        let num_tensor = self.version.num_tensor();
        let mut k: u64 = 0;
        let mut p = pos;
        let ghost mut ts: Seq<TensorView> = Seq::empty();
        assert(tensors_view(self.tensors@) =~= ts);
        while k < num_tensor
            invariant
                k <= num_tensor,
                num_tensor == old(self)@.version.num_tensor(),
                self.bo == bo,
                bo == old(self)@.bo,
                wide == old(self)@.version.wide(),
                self.max_array_size == old(self).max_array_size,
                self.version == old(self).version,
                self.kv@ == old(self)@.kv,
                spec_tensors(bo, wide, k as nat, data@, pos as int) == Ok::<(Seq<TensorView>, u64, int), (Fault, int)>((ts, self.parameters, p as int)),
                tensors_done(bo, wide, k as nat, data@, pos as int) == (ts, self.parameters),
                tensors_view(self.tensors@) == ts,
            decreases num_tensor - k,
        {
            match self.read_tensor(k, data, p) {
                Ok(((t, n), q)) => {
                    match self.parameters.checked_add(n) {
                        Some(total) => {
                            proof {
                                ts = ts.push(t@);
                            }
                            self.tensors.push(t);
                            assert(tensors_view(self.tensors@) =~= ts);
                            self.parameters = total;
                            p = q;
                            k = k + 1;
                        },
                        None => {
                            let e = Error::TensorWriteIndex(k as usize);
                            assert(spec_tensors(bo, wide, (k + 1) as nat, data@, pos as int) == Err::<(Seq<TensorView>, u64, int), (Fault, int)>((e.fault(), q as int)));
                            assert(tensors_done(bo, wide, (k + 1) as nat, data@, pos as int) == (ts, self.parameters));
                            proof {
                                lemma_tensors_fail(bo, wide, (k + 1) as nat, num_tensor as nat, data@, pos as int);
                                lemma_tensors_done_fail(bo, wide, (k + 1) as nat, num_tensor as nat, data@, pos as int);
                            }
                            return Err((e, q));
                        },
                    }
                },
                Err((e, q)) => {
                    assert(spec_tensors(bo, wide, (k + 1) as nat, data@, pos as int) == Err::<(Seq<TensorView>, u64, int), (Fault, int)>((e.fault(), q as int)));
                    assert(tensors_done(bo, wide, (k + 1) as nat, data@, pos as int) == (ts, self.parameters));
                    proof {
                        lemma_tensors_fail(bo, wide, (k + 1) as nat, num_tensor as nat, data@, pos as int);
                        lemma_tensors_done_fail(bo, wide, (k + 1) as nat, num_tensor as nat, data@, pos as int);
                    }
                    return Err((e, q));
                },
            }
        }
        Ok(p)
    }

    /// A metadata entry: key, type tag and value.
    fn read_kv(&self, data: &[u8], pos: usize) -> (r: Result<(String, MetadataValue, usize), (Error, usize)>)
        ensures
            match spec_kv(self.bo, self.wide_spec(), self.max_array_size, data@, pos as int) {
                Ok(((k, v), p)) => r matches Ok((key, value, q)) && key@ == k && value@ == v && q == p,
                Err((f, p)) => r matches Err((e, q)) && e.fault() == f && q == p,
            },
    {
        let (key, p) = self.read_string(data, pos)?;
        let (tag, p) = read_u32(self.bo, data, p)?;
        let value_type = match MetadataValueType::try_from(tag) {
            Ok(t) => t,
            Err(e) => return Err((e, p)),
        };
        let (value, p) = self.read_value(value_type, data, p)?;
        Ok((key, value, p))
    }
}

/// The value of a text entry under `key`, if there is one.
pub open spec fn text_entry(kv: Map<Seq<char>, MetaView>, key: Seq<char>) -> Option<Seq<char>> {
    if kv.contains_key(key) && kv[key] is String {
        Some(kv[key]->String_0)
    } else {
        None
    }
}

impl GGUFModel {
    /// Get the version of the decoded GGUF model: `"v1"`, `"v2"` or `"v3"`.
    pub fn get_version(&self) -> (r: String)
        ensures
            r@ == self@.version.name(),
    {
        self.version.name()
    }

    /// Get the number of key-value pairs that the header of the file gives.
    pub fn num_kv(&self) -> (r: u64)
        ensures
            r == self@.version.num_kv(),
    {
        self.version.num_kv()
    }

    /// Get the number of tensors that the header of the file gives.
    pub fn num_tensor(&self) -> (r: u64)
        ensures
            r == self@.version.num_tensor(),
    {
        self.version.num_tensor()
    }

    /// Get the model family/architecture: the text under
    /// `general.architecture`, or `unknown` where there is none.
    pub fn model_family(&self) -> (r: String)
        ensures
            r@ == match text_entry(self@.kv, "general.architecture"@) {
                Some(arch) => arch,
                None => "unknown"@,
            },
    {
        match self.kv.get("general.architecture") {
            Some(MetadataValue::String(arch)) => arch.clone(),
            _ => "unknown".to_owned(),
        }
    }

    /// Get the estimated number of parameters in the model, in the short
    /// form of [`human_number`] (e.g., "7B", "192"); `unknown` when the
    /// tensors hold no elements.
    pub fn model_parameters(&self) -> (r: String)
        ensures
            r@ == if self@.parameters > 0 {
                human_text(self@.parameters)
            } else {
                "unknown"@
            },
    {
        if self.parameters > 0 {
            human_number(self.parameters)
        } else {
            "unknown".to_owned()
        }
    }

    /// Get the quantization file type: the description of the `u64` under
    /// `general.file_type`, or `unknown` where there is none.
    pub fn file_type(&self) -> (r: String)
        ensures
            r@ == if self@.kv.contains_key("general.file_type"@) && self@.kv["general.file_type"@] is Uint64 {
                file_type_name(self@.kv["general.file_type"@]->Uint64_0)
            } else {
                "unknown"@
            },
    {
        match self.kv.get("general.file_type") {
            Some(MetadataValue::Uint64(ft)) => file_type(*ft),
            _ => "unknown".to_owned(),
        }
    }

    /// Get the key-value metadata of the GGUF file.
    pub fn metadata(&self) -> (r: &MetadataMap)
        ensures
            r@ == self@.kv,
    {
        &self.kv
    }

    /// Get the tensors of the GGUF file, in file order.
    pub fn tensors(&self) -> (r: &Vec<Tensor>)
        ensures
            tensors_view(r@) == self@.tensors,
    {
        &self.tensors
    }

    /// Converts [`GGUFModel`] into its main parts: metadata and tensors.
    pub fn into_parts(self) -> (r: (MetadataMap, Vec<Tensor>))
        ensures
            r.0@ == self@.kv,
            tensors_view(r.1@) == self@.tensors,
    {
        (self.kv, self.tensors)
    }
}

/// The contents of a container: byte order, version, the bytes of the
/// file after its magic, the position of the next read, and the number of
/// array items that decoding keeps.
pub struct ContainerView {
    pub bo: ByteOrder,
    pub version: VersionView,
    pub data: Seq<u8>,
    pub pos: int,
    pub max_array_size: u64,
}

/// GGUF file container: the bytes of a GGUF file after its magic, with
/// the byte order that the magic gave. [`GGUFContainer::decode`] turns
/// them into a [`GGUFModel`].
pub struct GGUFContainer {
    bo: ByteOrder,
    version: Version,
    data: Vec<u8>,
    pos: usize,
    max_array_size: u64,
}

impl GGUFContainer {
    /// The default max size of arrays when parsing.
    ///
    /// You can change this by using [`Self::with_max_array_size()`]
    pub const DEFAULT_MAX_ARRAY_SIZE: u64 = 3;

    pub closed spec fn view(&self) -> ContainerView {
        ContainerView {
            bo: self.bo,
            version: self.version@,
            data: self.data@,
            pos: self.pos as int,
            max_array_size: self.max_array_size,
        }
    }

    /// Create a new `GGUFContainer` from a byte order and the bytes of the
    /// file that follow its magic. Its version is "v1" until decoded.
    pub fn new(bo: ByteOrder, data: Vec<u8>) -> (r: Self)
        ensures
            r@ == (ContainerView {
                bo,
                version: VersionView::V1 { num_tensor: 0, num_kv: 0 },
                data: data@,
                pos: 0,
                max_array_size: 3,
            }),
    {
        GGUFContainer {
            bo,
            version: Version::V1(V1::default()),
            data,
            pos: 0,
            max_array_size: Self::DEFAULT_MAX_ARRAY_SIZE,
        }
    }

    /// Set the maximum number of items to keep of each array read during
    /// parsing. By default this is [`Self::DEFAULT_MAX_ARRAY_SIZE`]; set it
    /// to [`u64::MAX`] to remove the limit.
    pub fn with_max_array_size(self, max_array_size: u64) -> (r: Self)
        ensures
            r@ == (ContainerView { max_array_size, ..self@ }),
    {
        GGUFContainer { max_array_size, ..self }
    }

    /// Get the version of the GGUF file container: "v1" before decoding,
    /// the version of the file once its header is decoded.
    pub fn get_version(&self) -> (r: String)
        ensures
            r@ == self@.version.name(),
    {
        self.version.name()
    }

    /// Reads the header, then the rest into a fresh model; on an error, the
    /// position that the failing read left.
    fn run(&self) -> (r: Result<(Version, Result<(GGUFModel, usize), (Error, usize)>), (Error, usize)>)
        ensures
            match spec_header(self@.bo, self@.data, self@.pos) {
                Err((f, p)) => r matches Err((e, q)) && e.fault() == f && q == p,
                Ok((version, p)) => r matches Ok((v, body)) && v@ == version
                    && match spec_decode(self@.bo, self@.max_array_size, self@.data, self@.pos) {
                        Err((f, p)) => body matches Err((e, q)) && e.fault() == f && q == p,
                        Ok(d) => body matches Ok((m, end)) && end == d.end
                            && m@ == (ModelView {
                                kv: fold_entries(d.kvs),
                                tensors: d.tensors,
                                parameters: d.parameters,
                                max_array_size: self@.max_array_size,
                                bo: self@.bo,
                                version: d.version,
                            }),
                    },
            },
    {
        let data = self.data.as_slice();
        let (number, p) = read_i32(self.bo, data, self.pos)?;
        let version = if number == 1 {
            let (nt, p2) = read_u32(self.bo, data, p)?;
            let (nk, p3) = read_u32(self.bo, data, p2)?;
            (Version::V1(V1 { num_tensor: nt, num_kv: nk }), p3)
        } else if number == 2 || number == 3 {
            let (nt, p2) = read_u64(self.bo, data, p)?;
            let (nk, p3) = read_u64(self.bo, data, p2)?;
            if number == 2 {
                (Version::V2(V2 { num_tensor: nt, num_kv: nk }), p3)
            } else {
                (Version::V3(V3 { num_tensor: nt, num_kv: nk }), p3)
            }
        } else {
            return Err((Error::InvalidVersion(number), p));
        };
        let (version, start) = version;
        let mut model = GGUFModel {
            kv: MetadataMap::new(),
            tensors: Vec::new(),
            parameters: 0,
            max_array_size: self.max_array_size,
            bo: self.bo,
            version,
        };
        assert(tensors_view(model.tensors@) =~= Seq::<TensorView>::empty());
        let body = match model.decode(data, start) {
            Ok(end) => Ok((model, end)),
            Err(e) => Err(e),
        };
        Ok((version, body))
    }

    /// What decoding did: the container keeps its byte order, bytes and
    /// array limit, and its position moves past what was read, up to the
    /// end of the bytes when they end too early. When the header cannot be
    /// read, the error, with the version unchanged; otherwise the container
    /// takes the header's version, and gives either the error that stopped
    /// decoding or the model of the file, with the position after its last
    /// tensor description. The model holds the version and counts of the
    /// header, the metadata entries (for a key given more than once, the
    /// last value), the tensor descriptions in file order and the sum of
    /// their element counts.
    pub open spec fn decode_result(before: ContainerView, after: ContainerView, r: Result<GGUFModel, Error>) -> bool {
        &&& after.bo == before.bo
        &&& after.data == before.data
        &&& after.max_array_size == before.max_array_size
        &&& match spec_header(before.bo, before.data, before.pos) {
            Err((f, p)) => r matches Err(e) && e.fault() == f && after.version == before.version
                && after.pos == p,
            Ok((version, p)) => after.version == version
                && match spec_decode(before.bo, before.max_array_size, before.data, before.pos) {
                    Err((f, q)) => r matches Err(e) && e.fault() == f && after.pos == q,
                    Ok(d) => r matches Ok(m) && after.pos == d.end
                        && m@ == (ModelView {
                            kv: fold_entries(d.kvs),
                            tensors: d.tensors,
                            parameters: d.parameters,
                            max_array_size: before.max_array_size,
                            bo: before.bo,
                            version: d.version,
                        }),
                },
        }
    }

    /// Decode the GGUF file and return a `GGUFModel`; see
    /// [`Self::decode_result`].
    ///
    /// # Errors
    ///
    /// Returns an error if the file has an invalid or unsupported GGUF
    /// version, contains malformed data, or ends too early. Among malformed
    /// data: an unknown value type, an array of arrays, an unknown or
    /// `Count` tensor type, a tensor with more than four dimensions
    /// (`TensorWriteIndex(4)`), and a tensor whose element or byte count,
    /// or the sum of the element counts, exceeds `u64`
    /// (`TensorWriteIndex` with the tensor's place).
    pub fn decode(&mut self) -> (r: Result<GGUFModel, Error>)
        ensures
            Self::decode_result(old(self)@, final(self)@, r),
    {
        match self.run() {
            Err((e, p)) => {
                self.pos = p;
                Err(e)
            },
            Ok((version, body)) => {
                self.version = version;
                match body {
                    Ok((model, end)) => {
                        self.pos = end;
                        Ok(model)
                    },
                    Err((e, p)) => {
                        self.pos = p;
                        Err(e)
                    },
                }
            },
        }
    }
}

/// Reads the magic at the start of a GGUF file to determine its
/// [`ByteOrder`]: the bytes `GGUF` read as a little-endian `i32` give
/// [`crate::FILE_MAGIC_GGUF_LE`] for a little-endian file and
/// [`crate::FILE_MAGIC_GGUF_BE`] for a big-endian one.
pub fn read_gguf_magic_order(bytes: &[u8]) -> (r: Result<ByteOrder, Error>)
    ensures
        match spec_i32(ByteOrder::LE, bytes@, 0) {
            Err((f, _)) => r matches Err(e) && e.fault() == f,
            Ok((m, _)) => if m == crate::FILE_MAGIC_GGUF_LE {
                r == Ok::<ByteOrder, Error>(ByteOrder::LE)
            } else if m == crate::FILE_MAGIC_GGUF_BE {
                r == Ok::<ByteOrder, Error>(ByteOrder::BE)
            } else {
                r == Err::<ByteOrder, Error>(Error::UnsupportedFileFormat(m))
            },
        },
{
    let (magic, _) = match read_i32(ByteOrder::LE, bytes, 0) {
        Ok(x) => x,
        Err((e, _)) => return Err(e),
    };
    if magic == crate::FILE_MAGIC_GGUF_LE {
        Ok(ByteOrder::LE)
    } else if magic == crate::FILE_MAGIC_GGUF_BE {
        Ok(ByteOrder::BE)
    } else {
        Err(Error::UnsupportedFileFormat(magic))
    }
}

} // verus!
