//! Properties of the library as a whole, over the specifications that the
//! functions' contracts use.
use vstd::prelude::*;

use crate::bytes::{le_value, spec_i32, spec_u32, spec_u8, take_bytes, uint_at};
use crate::error::{Error, Fault};
use crate::model::{ContainerView, GGUFContainer, GGUFModel};
use crate::layout::{
    spec_decode, spec_header, spec_items, spec_kvs, spec_scalar, spec_shape, spec_size,
    spec_string, spec_tensor, spec_tensors, spec_value, TensorView,
};
use crate::metadata::{fold_entries, has_key, sorted_keys};
use crate::types::{ByteOrder, GGMLType, MetadataValueType};
use crate::value::MetaView;

verus! {

/// After a successful decode the container gives the model's version; after
/// an error in the header it keeps the version it had.
pub proof fn law_version_after_decode(before: ContainerView, after: ContainerView, r: Result<GGUFModel, Error>)
    requires
        GGUFContainer::decode_result(before, after, r),
    ensures
        r matches Ok(m) ==> after.version == m@.version,
        spec_header(before.bo, before.data, before.pos) is Err ==> after.version == before.version,
{
}

/// Every tag that stands for a metadata type is that type's code, and the
/// code of every type stands for it again.
pub proof fn law_metadata_type_code_round_trip(value: u32, t: MetadataValueType)
    ensures
        MetadataValueType::from_code(value) matches Some(u) ==> u.code() == value,
        MetadataValueType::from_code(t.code()) == Some(t),
        MetadataValueType::from_code(value) is Some <==> value <= 12,
{
}

/// Every number that stands for a GGML type is that type's code, and the
/// code of every type but the retired `Q4_2` and `Q4_3` stands for it
/// again.
pub proof fn law_ggml_type_code_round_trip(value: u32, t: GGMLType)
    ensures
        GGMLType::from_code(value) matches Some(u) ==> u.code() == value,
        t != GGMLType::Q4_2 && t != GGMLType::Q4_3 ==> GGMLType::from_code(t.code()) == Some(t),
        GGMLType::from_code(value) is Some <==> value <= 42 && value != 4 && value != 5,
{
}

/// Putting a value under a key, then looking the key up, gives the value;
/// every other key keeps its value.
pub proof fn law_get_after_insert(m: Map<Seq<char>, MetaView>, k: Seq<char>, v: MetaView, other: Seq<char>)
    requires
        other != k,
    ensures
        m.insert(k, v).contains_key(k),
        m.insert(k, v)[k] == v,
        m.insert(k, v).contains_key(other) == m.contains_key(other),
        m.contains_key(other) ==> m.insert(k, v)[other] == m[other],
{
}

/// In entries whose keys strictly increase, no key occurs twice.
pub proof fn law_sorted_keys_unique(e: Seq<(Seq<char>, MetaView)>, i: int, j: int)
    requires
        sorted_keys(e),
        0 <= i < e.len(),
        0 <= j < e.len(),
        i != j,
    ensures
        e[i].0 != e[j].0,
{
    crate::metadata::lemma_sorted_lookup(e, i);
}

/// For a key given more than once, the map of the entries holds the last
/// value given; it holds exactly the keys given.
pub proof fn law_last_value_wins(kvs: Seq<(Seq<char>, MetaView)>, i: int)
    requires
        0 <= i < kvs.len(),
        forall|j: int| i < j < kvs.len() ==> kvs[j].0 != kvs[i].0,
    ensures
        fold_entries(kvs).contains_key(kvs[i].0),
        fold_entries(kvs)[kvs[i].0] == kvs[i].1,
    decreases kvs.len(),
{
    if i < kvs.len() - 1 {
        law_last_value_wins(kvs.drop_last(), i);
    }
}

/// The keys of the map of some entries are the keys of the entries.
pub proof fn law_fold_keys(kvs: Seq<(Seq<char>, MetaView)>, k: Seq<char>)
    ensures
        fold_entries(kvs).contains_key(k) <==> has_key(kvs, k),
        fold_entries(kvs).contains_key(k) ==> exists|i: int| 0 <= i < kvs.len() && kvs[i] == (k, #[trigger] fold_entries(kvs)[k]),
    decreases kvs.len(),
{
    if kvs.len() > 0 {
        law_fold_keys(kvs.drop_last(), k);
        let last = kvs.len() - 1;
        if has_key(kvs.drop_last(), k) {
            let i = choose|i: int| 0 <= i < kvs.drop_last().len() && #[trigger] kvs.drop_last()[i].0 == k;
            assert(kvs[i].0 == k);
        }
        if has_key(kvs, k) && kvs[last].0 != k {
            let i = choose|i: int| 0 <= i < kvs.len() && #[trigger] kvs[i].0 == k;
            assert(kvs.drop_last()[i].0 == k);
        }
        if fold_entries(kvs).contains_key(k) {
            if kvs[last].0 == k {
                assert(kvs[last] == (k, fold_entries(kvs)[k]));
            } else {
                let i = choose|i: int| 0 <= i < kvs.drop_last().len() && kvs.drop_last()[i] == (k, #[trigger] fold_entries(kvs.drop_last())[k]);
                assert(kvs[i] == (k, fold_entries(kvs)[k]));
            }
        }
    }
}

/// An array value keeps at most `max` items.
pub open spec fn arrays_within(v: MetaView, max: u64) -> bool {
    v matches MetaView::Array(items) ==> items.len() <= max
}

proof fn lemma_items_len(bo: ByteOrder, wide: bool, t: MetadataValueType, n: nat, s: Seq<u8>, pos: int)
    ensures
        spec_items(bo, wide, t, n, s, pos) matches Ok((vs, _)) ==> vs.len() == n,
    decreases n,
{
    if n > 0 {
        lemma_items_len(bo, wide, t, (n - 1) as nat, s, pos);
    }
}

proof fn lemma_value_within(bo: ByteOrder, wide: bool, max: u64, t: MetadataValueType, s: Seq<u8>, pos: int)
    ensures
        spec_value(bo, wide, max, t, s, pos) matches Ok((v, _)) ==> arrays_within(v, max),
{
    if t != MetadataValueType::Array {
        match spec_scalar(bo, wide, t, s, pos) {
            Ok((v, _)) => {
                assert(!(v is Array));
            },
            Err(_) => {},
        }
    } else {
        if let Ok((tag, p)) = spec_u32(bo, s, pos) {
            if let Some(it) = MetadataValueType::from_code(tag) {
                if let Ok((n, p2)) = spec_size(bo, wide, s, p) {
                    lemma_items_len(bo, wide, it, n as nat, s, p2);
                }
            }
        }
    }
}

proof fn lemma_kvs_within(bo: ByteOrder, wide: bool, max: u64, n: nat, s: Seq<u8>, pos: int)
    ensures
        spec_kvs(bo, wide, max, n, s, pos) matches Ok((kvs, _)) ==> kvs.len() == n
            && forall|i: int| 0 <= i < kvs.len() ==> arrays_within(#[trigger] kvs[i].1, max),
    decreases n,
{
    if n > 0 {
        lemma_kvs_within(bo, wide, max, (n - 1) as nat, s, pos);
        if let Ok((kvs, p)) = spec_kvs(bo, wide, max, (n - 1) as nat, s, pos) {
            match spec_string(bo, wide, s, p) {
                Ok((key, p1)) => match spec_u32(bo, s, p1) {
                    Ok((tag, p2)) => match MetadataValueType::from_code(tag) {
                        Some(t) => {
                            lemma_value_within(bo, wide, max, t, s, p2);
                        },
                        None => {},
                    },
                    Err(_) => {},
                },
                Err(_) => {},
            }
        }
    }
}

/// Decoding gives as many metadata entries and tensor descriptions as the
/// header announces, and keeps at most `max_array_size` items of every
/// array.
pub proof fn law_decoded_counts(bo: ByteOrder, max_array_size: u64, s: Seq<u8>, pos: int)
    ensures
        spec_decode(bo, max_array_size, s, pos) matches Ok(d) ==> {
            &&& d.kvs.len() == d.version.num_kv()
            &&& d.tensors.len() == d.version.num_tensor()
            &&& forall|i: int| 0 <= i < d.kvs.len() ==> arrays_within(#[trigger] d.kvs[i].1, max_array_size)
        },
{
    if let Ok((version, p)) = spec_header(bo, s, pos) {
        lemma_kvs_within(bo, version.wide(), max_array_size, version.num_kv() as nat, s, p);
        if let Ok((kvs, p2)) = spec_kvs(bo, version.wide(), max_array_size, version.num_kv() as nat, s, p) {
            lemma_tensors_sum(bo, version.wide(), version.num_tensor() as nat, s, p2);
        }
    }
}

/// The number of elements of a tensor of the given shape.
pub open spec fn elements(shape: Seq<u64>) -> int {
    shape[0] * shape[1] * shape[2] * shape[3]
}

/// The sum of the element counts of `ts`.
pub open spec fn total_elements(ts: Seq<TensorView>) -> int
    decreases ts.len(),
{
    if ts.len() == 0 {
        0
    } else {
        total_elements(ts.drop_last()) + elements(ts.last().shape)
    }
}

proof fn lemma_shape_len(bo: ByteOrder, n: nat, s: Seq<u8>, pos: int)
    ensures
        spec_shape(bo, n, s, pos) matches Ok((sh, _)) ==> sh.len() == 4,
    decreases n,
{
    if n > 0 {
        lemma_shape_len(bo, (n - 1) as nat, s, pos);
    }
}

proof fn lemma_tensor_elements(bo: ByteOrder, wide: bool, index: nat, s: Seq<u8>, pos: int)
    ensures
        spec_tensor(bo, wide, index, s, pos) matches Ok(((t, n), _)) ==> n == elements(t.shape) && t.shape.len() == 4,
{
    if let Ok((name, p1)) = spec_string(bo, wide, s, pos) {
        if let Ok((dims, p2)) = spec_u32(bo, s, p1) {
            lemma_shape_len(bo, dims as nat, s, p2);
        }
    }
}

proof fn lemma_tensors_sum(bo: ByteOrder, wide: bool, n: nat, s: Seq<u8>, pos: int)
    ensures
        spec_tensors(bo, wide, n, s, pos) matches Ok((ts, total, _)) ==> ts.len() == n
            && total == total_elements(ts)
            && forall|i: int| 0 <= i < ts.len() ==> (#[trigger] ts[i]).shape.len() == 4,
    decreases n,
{
    if n > 0 {
        lemma_tensors_sum(bo, wide, (n - 1) as nat, s, pos);
        if let Ok((ts, total, p)) = spec_tensors(bo, wide, (n - 1) as nat, s, pos) {
            lemma_tensor_elements(bo, wide, (n - 1) as nat, s, p);
            if let Ok((ts2, total2, q)) = spec_tensors(bo, wide, n, s, pos) {
                assert(ts2.drop_last() =~= ts);
            }
        }
    }
}

/// The parameter count of a decoded model is the sum, over its tensors, of
/// the products of their four dimensions; every shape has four dimensions.
pub proof fn law_parameters_sum(bo: ByteOrder, max_array_size: u64, s: Seq<u8>, pos: int)
    ensures
        spec_decode(bo, max_array_size, s, pos) matches Ok(d) ==> {
            &&& d.parameters == total_elements(d.tensors)
            &&& forall|i: int| 0 <= i < d.tensors.len() ==> (#[trigger] d.tensors[i]).shape.len() == 4
        },
{
    if let Ok((version, p)) = spec_header(bo, s, pos) {
        if let Ok((kvs, p2)) = spec_kvs(bo, version.wide(), max_array_size, version.num_kv() as nat, s, p) {
            lemma_tensors_sum(bo, version.wide(), version.num_tensor() as nat, s, p2);
        }
    }
}

/// Only versions 1, 2 and 3 are read; a file whose version field holds
/// anything else is refused with that version, and nothing past the
/// version field is read.
pub proof fn law_supported_versions(bo: ByteOrder, s: Seq<u8>, pos: int)
    ensures
        spec_i32(bo, s, pos) matches Ok((v, _)) ==> (
            spec_header(bo, s, pos) == Err::<(crate::layout::VersionView, int), (Fault, int)>((Fault::InvalidVersion(v), pos + 4))
                <==> !(v == 1 || v == 2 || v == 3)),
{
}

/// A file that starts with the bytes `GGUF` has the little-endian magic,
/// one that starts with `FUGG` the big-endian magic.
pub proof fn law_magic_bytes(s: Seq<u8>)
    ensures
        s.len() >= 4 && s[0] == 0x47 && s[1] == 0x47 && s[2] == 0x55 && s[3] == 0x46
            ==> spec_i32(ByteOrder::LE, s, 0) == Ok::<(i32, int), (Fault, int)>((crate::FILE_MAGIC_GGUF_LE, 4)),
        s.len() >= 4 && s[0] == 0x46 && s[1] == 0x55 && s[2] == 0x47 && s[3] == 0x47
            ==> spec_i32(ByteOrder::LE, s, 0) == Ok::<(i32, int), (Fault, int)>((crate::FILE_MAGIC_GGUF_BE, 4)),
{
    if s.len() >= 4 {
        let b = s.subrange(0, 4);
        assert(b.drop_first().drop_first().drop_first().drop_first().len() == 0);
        reveal_with_fuel(le_value, 5);
        assert(le_value(b) == b[0] + 256 * (b[1] + 256 * (b[2] + 256 * (b[3] + 256 * 0)))) by {
            assert(b.drop_first()[0] == b[1]);
            assert(b.drop_first().drop_first()[0] == b[2]);
            assert(b.drop_first().drop_first().drop_first()[0] == b[3]);
        }
    }
}

proof fn lemma_prefix_take(s: Seq<u8>, t: Seq<u8>, pos: int, n: int)
    ensures
        take_bytes(s, pos, n) is Ok ==> take_bytes(s + t, pos, n) == take_bytes(s, pos, n),
{
    if take_bytes(s, pos, n) is Ok {
        assert((s + t).subrange(pos, pos + n) =~= s.subrange(pos, pos + n));
    }
}

proof fn lemma_prefix_uint(bo: ByteOrder, s: Seq<u8>, t: Seq<u8>, pos: int, n: int)
    ensures
        uint_at(bo, s, pos, n) is Ok ==> uint_at(bo, s + t, pos, n) == uint_at(bo, s, pos, n),
{
    lemma_prefix_take(s, t, pos, n);
}

proof fn lemma_prefix_u8(s: Seq<u8>, t: Seq<u8>, pos: int)
    ensures
        spec_u8(s, pos) is Ok ==> spec_u8(s + t, pos) == spec_u8(s, pos),
{
}

proof fn lemma_prefix_string(bo: ByteOrder, wide: bool, s: Seq<u8>, t: Seq<u8>, pos: int)
    ensures
        spec_string(bo, wide, s, pos) is Ok ==> spec_string(bo, wide, s + t, pos) == spec_string(bo, wide, s, pos),
{
    lemma_prefix_uint(bo, s, t, pos, 4);
    lemma_prefix_uint(bo, s, t, pos, 8);
    if let Ok((n, p)) = spec_size(bo, wide, s, pos) {
        lemma_prefix_take(s, t, p, n as int);
    }
}

proof fn lemma_prefix_scalar(bo: ByteOrder, wide: bool, ty: MetadataValueType, s: Seq<u8>, t: Seq<u8>, pos: int)
    ensures
        spec_scalar(bo, wide, ty, s, pos) is Ok ==> spec_scalar(bo, wide, ty, s + t, pos) == spec_scalar(bo, wide, ty, s, pos),
{
    lemma_prefix_u8(s, t, pos);
    lemma_prefix_uint(bo, s, t, pos, 2);
    lemma_prefix_uint(bo, s, t, pos, 4);
    lemma_prefix_uint(bo, s, t, pos, 8);
    lemma_prefix_string(bo, wide, s, t, pos);
}

proof fn lemma_prefix_items(bo: ByteOrder, wide: bool, ty: MetadataValueType, n: nat, s: Seq<u8>, t: Seq<u8>, pos: int)
    ensures
        spec_items(bo, wide, ty, n, s, pos) is Ok ==> spec_items(bo, wide, ty, n, s + t, pos) == spec_items(bo, wide, ty, n, s, pos),
    decreases n,
{
    if n > 0 {
        lemma_prefix_items(bo, wide, ty, (n - 1) as nat, s, t, pos);
        if let Ok((vs, p)) = spec_items(bo, wide, ty, (n - 1) as nat, s, pos) {
            lemma_prefix_scalar(bo, wide, ty, s, t, p);
        }
    }
}

proof fn lemma_prefix_value(bo: ByteOrder, wide: bool, max: u64, ty: MetadataValueType, s: Seq<u8>, t: Seq<u8>, pos: int)
    ensures
        spec_value(bo, wide, max, ty, s, pos) is Ok ==> spec_value(bo, wide, max, ty, s + t, pos) == spec_value(bo, wide, max, ty, s, pos),
{
    lemma_prefix_scalar(bo, wide, ty, s, t, pos);
    lemma_prefix_uint(bo, s, t, pos, 4);
    if let Ok((tag, p)) = spec_u32(bo, s, pos) {
        lemma_prefix_uint(bo, s, t, p, 4);
        lemma_prefix_uint(bo, s, t, p, 8);
        if let Some(it) = MetadataValueType::from_code(tag) {
            if let Ok((n, p2)) = spec_size(bo, wide, s, p) {
                lemma_prefix_items(bo, wide, it, n as nat, s, t, p2);
            }
        }
    }
}

proof fn lemma_prefix_kvs(bo: ByteOrder, wide: bool, max: u64, n: nat, s: Seq<u8>, t: Seq<u8>, pos: int)
    ensures
        spec_kvs(bo, wide, max, n, s, pos) is Ok ==> spec_kvs(bo, wide, max, n, s + t, pos) == spec_kvs(bo, wide, max, n, s, pos),
    decreases n,
{
    if n > 0 {
        lemma_prefix_kvs(bo, wide, max, (n - 1) as nat, s, t, pos);
        if let Ok((kvs, p)) = spec_kvs(bo, wide, max, (n - 1) as nat, s, pos) {
            lemma_prefix_string(bo, wide, s, t, p);
            if let Ok((key, p1)) = spec_string(bo, wide, s, p) {
                lemma_prefix_uint(bo, s, t, p1, 4);
                if let Ok((tag, p2)) = spec_u32(bo, s, p1) {
                    if let Some(ty) = MetadataValueType::from_code(tag) {
                        lemma_prefix_value(bo, wide, max, ty, s, t, p2);
                    }
                }
            }
        }
    }
}

proof fn lemma_prefix_shape(bo: ByteOrder, n: nat, s: Seq<u8>, t: Seq<u8>, pos: int)
    ensures
        spec_shape(bo, n, s, pos) is Ok ==> spec_shape(bo, n, s + t, pos) == spec_shape(bo, n, s, pos),
    decreases n,
{
    if n > 0 {
        lemma_prefix_shape(bo, (n - 1) as nat, s, t, pos);
        if let Ok((sh, p)) = spec_shape(bo, (n - 1) as nat, s, pos) {
            lemma_prefix_uint(bo, s, t, p, 8);
        }
    }
}

proof fn lemma_prefix_tensor(bo: ByteOrder, wide: bool, index: nat, s: Seq<u8>, t: Seq<u8>, pos: int)
    ensures
        spec_tensor(bo, wide, index, s, pos) is Ok ==> spec_tensor(bo, wide, index, s + t, pos) == spec_tensor(bo, wide, index, s, pos),
{
    lemma_prefix_string(bo, wide, s, t, pos);
    if let Ok((name, p1)) = spec_string(bo, wide, s, pos) {
        lemma_prefix_uint(bo, s, t, p1, 4);
        if let Ok((dims, p2)) = spec_u32(bo, s, p1) {
            lemma_prefix_shape(bo, dims as nat, s, t, p2);
            if let Ok((shape, p3)) = spec_shape(bo, dims as nat, s, p2) {
                lemma_prefix_uint(bo, s, t, p3, 4);
                if let Ok((kind, p4)) = spec_u32(bo, s, p3) {
                    lemma_prefix_uint(bo, s, t, p4, 8);
                }
            }
        }
    }
}

proof fn lemma_prefix_tensors(bo: ByteOrder, wide: bool, n: nat, s: Seq<u8>, t: Seq<u8>, pos: int)
    ensures
        spec_tensors(bo, wide, n, s, pos) is Ok ==> spec_tensors(bo, wide, n, s + t, pos) == spec_tensors(bo, wide, n, s, pos),
    decreases n,
{
    if n > 0 {
        lemma_prefix_tensors(bo, wide, (n - 1) as nat, s, t, pos);
        if let Ok((ts, total, p)) = spec_tensors(bo, wide, (n - 1) as nat, s, pos) {
            lemma_prefix_tensor(bo, wide, (n - 1) as nat, s, t, p);
        }
    }
}

/// Decoding reads nothing past the last tensor description: bytes after
/// it, such as the tensor data, do not change what a successful decode
/// gives.
pub proof fn law_trailing_bytes_ignored(bo: ByteOrder, max_array_size: u64, s: Seq<u8>, t: Seq<u8>, pos: int)
    ensures
        spec_decode(bo, max_array_size, s, pos) is Ok ==> spec_decode(bo, max_array_size, s + t, pos) == spec_decode(
            bo,
            max_array_size,
            s,
            pos,
        ),
{
    lemma_prefix_uint(bo, s, t, pos, 4);
    if let Ok((v, p)) = spec_i32(bo, s, pos) {
        lemma_prefix_uint(bo, s, t, p, 4);
        lemma_prefix_uint(bo, s, t, p, 8);
        if let Ok((a, p2)) = uint_at(bo, s, p, 4) {
            lemma_prefix_uint(bo, s, t, p2, 4);
        }
        if let Ok((a, p2)) = uint_at(bo, s, p, 8) {
            lemma_prefix_uint(bo, s, t, p2, 8);
        }
    }
    if let Ok((version, p)) = spec_header(bo, s, pos) {
        lemma_prefix_kvs(bo, version.wide(), max_array_size, version.num_kv() as nat, s, t, p);
        if let Ok((kvs, p2)) = spec_kvs(bo, version.wide(), max_array_size, version.num_kv() as nat, s, p) {
            lemma_prefix_tensors(bo, version.wide(), version.num_tensor() as nat, s, t, p2);
        }
    }
}

} // verus!
