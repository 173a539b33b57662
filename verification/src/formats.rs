//! The fixed numbers and names of the format, stated on their own: the
//! GGML block of every tensor type, the words behind float values, and the
//! names of versions, tensor types and file types.
use vstd::prelude::*;

use crate::laws::elements;
use crate::layout::{
    block_size, spec_decode, spec_describe, spec_header, spec_kvs, spec_scalar, spec_shape,
    spec_string, spec_tensor, spec_tensors, type_size, TensorView,
};
use crate::bytes::{be_value, le_value, spec_u32, twos, uint_value};
use crate::types::{ByteOrder, GGMLType, MetadataValueType};
use crate::value::MetaView;
use crate::bytes::spec_i32;
use crate::layout::VersionView;
use crate::text::{decimal, file_type_name};

verus! {

/// The GGML block of a tensor type: the bytes one block takes, and the
/// elements it holds. The retired formats and `Count` take no bytes.
pub open spec fn ggml_block(t: GGMLType) -> (int, int) {
    match t {
        GGMLType::F32 => (4, 1),
        GGMLType::F16 => (2, 1),
        GGMLType::Q4_0 => (18, 32),
        GGMLType::Q4_1 => (20, 32),
        GGMLType::Q4_2 => (0, 32),
        GGMLType::Q4_3 => (0, 32),
        GGMLType::Q5_0 => (22, 32),
        GGMLType::Q5_1 => (24, 32),
        GGMLType::Q8_0 => (34, 32),
        GGMLType::Q8_1 => (40, 32),
        GGMLType::Q2_K => (84, 256),
        GGMLType::Q3_K => (110, 256),
        GGMLType::Q4_K => (144, 256),
        GGMLType::Q5_K => (176, 256),
        GGMLType::Q6_K => (210, 256),
        GGMLType::Q8_K => (292, 256),
        GGMLType::IQ2_XXS => (66, 256),
        GGMLType::IQ2_XS => (74, 256),
        GGMLType::IQ3_XXS => (98, 256),
        GGMLType::IQ1_S => (50, 256),
        GGMLType::IQ4_NL => (18, 256),
        GGMLType::IQ3_S => (110, 256),
        GGMLType::IQ2_S => (82, 256),
        GGMLType::IQ4_XS => (136, 256),
        GGMLType::I8 => (1, 256),
        GGMLType::I16 => (2, 256),
        GGMLType::I32 => (4, 256),
        GGMLType::I64 => (8, 256),
        GGMLType::F64 => (8, 256),
        GGMLType::IQ1_M => (56, 256),
        GGMLType::BF16 => (2, 256),
        GGMLType::Q4_0_4_4 => (0, 256),
        GGMLType::Q4_0_4_8 => (0, 256),
        GGMLType::Q4_0_8_8 => (0, 256),
        GGMLType::TQ1_0 => (54, 256),
        GGMLType::TQ2_0 => (66, 256),
        GGMLType::IQ4_NL_4_4 => (0, 256),
        GGMLType::IQ4_NL_4_8 => (0, 256),
        GGMLType::IQ4_NL_8_8 => (0, 256),
        GGMLType::MXFP4 => (273, 256),
        GGMLType::NVFP4 => (36, 64),
        GGMLType::Q1_0 => (3, 128),
        GGMLType::Count => (0, 256),
    }
}

/// A tensor description whose kind names a GGML type, and whose byte size
/// is its element count times the bytes of that type's block over the
/// elements of the block.
pub open spec fn block_sized(t: TensorView) -> bool {
    match GGMLType::from_code(t.kind) {
        Some(g) => t.size == elements(t.shape) * ggml_block(g).0 / ggml_block(g).1,
        None => false,
    }
}

proof fn lemma_block_of_code(t: GGMLType)
    ensures
        block_size(t.code()) == ggml_block(t).1,
        type_size(t, block_size(t.code())) == ggml_block(t).0,
{
}

/// A tensor description is read with the byte size that the GGML block of
/// its type gives: a `Q8_0` tensor of `n` elements, `n` a multiple of 32,
/// takes `n / 32 * 34` bytes; an `F32` tensor four bytes an element.
pub proof fn law_tensor_byte_size(index: nat, name: Seq<char>, shape: Seq<u64>, kind: u32, offset: u64)
    ensures
        spec_describe(index, name, shape, kind, offset) matches Ok((t, n)) ==> {
            &&& n == elements(shape)
            &&& t.name == name
            &&& t.shape == shape
            &&& t.kind == kind
            &&& t.offset == offset
            &&& block_sized(t)
        },
{
    if let Ok((t, n)) = spec_describe(index, name, shape, kind, offset) {
        let g = GGMLType::from_code(kind)->0;
        lemma_block_of_code(g);
        let p1 = shape[0] * shape[1];
        let p2 = p1 * shape[2];
        let p3 = p2 * shape[3];
        assert(p1 >= 0 && p2 >= 0 && p3 >= 0) by (nonlinear_arith)
            requires
                p1 == shape[0] * shape[1],
                p2 == p1 * shape[2],
                p3 == p2 * shape[3],
                shape[0] >= 0,
                shape[1] >= 0,
                shape[2] >= 0,
                shape[3] >= 0,
        ;
        let b = ggml_block(g);
        assert(p3 * b.0 >= 0) by (nonlinear_arith)
            requires
                p3 >= 0,
                b.0 >= 0,
        ;
        assert(0 <= p3 * b.0 / b.1 <= p3 * b.0) by (nonlinear_arith)
            requires
                p3 * b.0 >= 0,
                b.1 >= 1,
        ;
    }
}

proof fn lemma_tensor_sized(bo: ByteOrder, wide: bool, index: nat, s: Seq<u8>, pos: int)
    ensures
        spec_tensor(bo, wide, index, s, pos) matches Ok(((t, n), _)) ==> block_sized(t),
{
    if let Ok((name, p1)) = spec_string(bo, wide, s, pos) {
        if let Ok((dims, p2)) = spec_u32(bo, s, p1) {
            if let Ok((shape, p3)) = spec_shape(bo, dims as nat, s, p2) {
                if let Ok((kind, p4)) = spec_u32(bo, s, p3) {
                    if let Ok((offset, p5)) = crate::bytes::spec_u64(bo, s, p4) {
                        law_tensor_byte_size(index, name, shape, kind, offset);
                    }
                }
            }
        }
    }
}

proof fn lemma_tensors_sized(bo: ByteOrder, wide: bool, n: nat, s: Seq<u8>, pos: int)
    ensures
        spec_tensors(bo, wide, n, s, pos) matches Ok((ts, _, _)) ==> forall|i: int|
            0 <= i < ts.len() ==> block_sized(#[trigger] ts[i]),
    decreases n,
{
    if n > 0 {
        lemma_tensors_sized(bo, wide, (n - 1) as nat, s, pos);
        if let Ok((ts, total, p)) = spec_tensors(bo, wide, (n - 1) as nat, s, pos) {
            lemma_tensor_sized(bo, wide, (n - 1) as nat, s, p);
        }
    }
}

/// Every tensor of a decoded file has the byte size that the GGML block of
/// its type gives its element count.
pub proof fn law_decoded_byte_sizes(bo: ByteOrder, max_array_size: u64, s: Seq<u8>, pos: int)
    ensures
        spec_decode(bo, max_array_size, s, pos) matches Ok(d) ==> forall|i: int|
            0 <= i < d.tensors.len() ==> block_sized(#[trigger] d.tensors[i]),
{
    if let Ok((version, p)) = spec_header(bo, s, pos) {
        if let Ok((kvs, p2)) = spec_kvs(bo, version.wide(), max_array_size, version.num_kv() as nat, s, p) {
            lemma_tensors_sized(bo, version.wide(), version.num_tensor() as nat, s, p2);
        }
    }
}

/// The two bytes at `pos` as one word: the first byte is the least
/// significant in a little-endian file, the most significant in a
/// big-endian one.
pub open spec fn word16(bo: ByteOrder, s: Seq<u8>, pos: int) -> int {
    match bo {
        ByteOrder::LE => s[pos] + 0x100 * s[pos + 1],
        ByteOrder::BE => s[pos + 1] + 0x100 * s[pos],
    }
}

/// The four bytes at `pos` as one word: the first byte is the least
/// significant in a little-endian file, the most significant in a
/// big-endian one.
pub open spec fn word32(bo: ByteOrder, s: Seq<u8>, pos: int) -> int {
    match bo {
        ByteOrder::LE => s[pos] + 0x100 * s[pos + 1] + 0x1_0000 * s[pos + 2] + 0x100_0000 * s[pos + 3],
        ByteOrder::BE => s[pos + 3] + 0x100 * s[pos + 2] + 0x1_0000 * s[pos + 1] + 0x100_0000 * s[pos],
    }
}

/// The eight bytes at `pos` as one word, in the same way.
pub open spec fn word64(bo: ByteOrder, s: Seq<u8>, pos: int) -> int {
    match bo {
        ByteOrder::LE => s[pos] + 0x100 * s[pos + 1] + 0x1_0000 * s[pos + 2] + 0x100_0000 * s[pos + 3]
            + 0x1_0000_0000 * s[pos + 4] + 0x100_0000_0000 * s[pos + 5] + 0x1_0000_0000_0000 * s[pos + 6]
            + 0x100_0000_0000_0000 * s[pos + 7],
        ByteOrder::BE => s[pos + 7] + 0x100 * s[pos + 6] + 0x1_0000 * s[pos + 5] + 0x100_0000 * s[pos + 4]
            + 0x1_0000_0000 * s[pos + 3] + 0x100_0000_0000 * s[pos + 2] + 0x1_0000_0000_0000 * s[pos + 1]
            + 0x100_0000_0000_0000 * s[pos],
    }
}

proof fn lemma_le_front(s: Seq<u8>, a: int, n: int)
    requires
        0 <= a,
        1 <= n,
        a + n <= s.len(),
    ensures
        le_value(s.subrange(a, a + n)) == s[a] + 256 * le_value(s.subrange(a + 1, a + n)),
{
    assert(s.subrange(a, a + n).drop_first() =~= s.subrange(a + 1, a + n));
}

proof fn lemma_be_back(s: Seq<u8>, a: int, n: int)
    requires
        0 <= a,
        1 <= n,
        a + n <= s.len(),
    ensures
        be_value(s.subrange(a, a + n)) == s[a + n - 1] + 256 * be_value(s.subrange(a, a + n - 1)),
{
    assert(s.subrange(a, a + n).drop_last() =~= s.subrange(a, a + n - 1));
}

proof fn lemma_words(bo: ByteOrder, s: Seq<u8>, pos: int)
    requires
        0 <= pos,
    ensures
        pos + 2 <= s.len() ==> uint_value(bo, s.subrange(pos, pos + 2)) == word16(bo, s, pos),
        pos + 4 <= s.len() ==> uint_value(bo, s.subrange(pos, pos + 4)) == word32(bo, s, pos),
        pos + 8 <= s.len() ==> uint_value(bo, s.subrange(pos, pos + 8)) == word64(bo, s, pos),
{
    if pos + 2 <= s.len() {
        assert(be_value(s.subrange(pos, pos)) == 0);
        lemma_le_front(s, pos, 2);
        lemma_le_front(s, pos + 1, 1);
        assert(le_value(s.subrange(pos + 2, pos + 2)) == 0);
        lemma_be_back(s, pos, 2);
        lemma_be_back(s, pos, 1);
    }
    if pos + 4 <= s.len() {
        assert(be_value(s.subrange(pos, pos)) == 0);
        lemma_le_front(s, pos, 4);
        lemma_le_front(s, pos + 1, 3);
        lemma_le_front(s, pos + 2, 2);
        lemma_le_front(s, pos + 3, 1);
        assert(le_value(s.subrange(pos + 4, pos + 4)) == 0);
        lemma_be_back(s, pos, 4);
        lemma_be_back(s, pos, 3);
        lemma_be_back(s, pos, 2);
        lemma_be_back(s, pos, 1);
    }
    if pos + 8 <= s.len() {
        assert(be_value(s.subrange(pos, pos)) == 0);
        lemma_le_front(s, pos, 8);
        lemma_le_front(s, pos + 1, 7);
        lemma_le_front(s, pos + 2, 6);
        lemma_le_front(s, pos + 3, 5);
        lemma_le_front(s, pos + 4, 4);
        lemma_le_front(s, pos + 5, 3);
        lemma_le_front(s, pos + 6, 2);
        lemma_le_front(s, pos + 7, 1);
        assert(le_value(s.subrange(pos + 8, pos + 8)) == 0);
        lemma_be_back(s, pos, 8);
        lemma_be_back(s, pos, 7);
        lemma_be_back(s, pos, 6);
        lemma_be_back(s, pos, 5);
        lemma_be_back(s, pos, 4);
        lemma_be_back(s, pos, 3);
        lemma_be_back(s, pos, 2);
        lemma_be_back(s, pos, 1);
    }
}

/// A `Float32` value is the four bytes at its place taken as one word in
/// the file's byte order, the word that a `Uint32` there gives; a
/// `Float64` value likewise the eight bytes at its place, as a `Uint64`
/// there. Either is read when its bytes are all there.
pub proof fn law_float_words(bo: ByteOrder, wide: bool, s: Seq<u8>, pos: int)
    ensures
        spec_scalar(bo, wide, MetadataValueType::Float32, s, pos) is Ok <==> 0 <= pos && pos + 4 <= s.len(),
        spec_scalar(bo, wide, MetadataValueType::Float32, s, pos) matches Ok((v, _)) ==> v is Float32,
        spec_scalar(bo, wide, MetadataValueType::Float32, s, pos) matches Ok((MetaView::Float32(x), p))
            ==> p == pos + 4 && x as int == word32(bo, s, pos),
        spec_scalar(bo, wide, MetadataValueType::Float64, s, pos) is Ok <==> 0 <= pos && pos + 8 <= s.len(),
        spec_scalar(bo, wide, MetadataValueType::Float64, s, pos) matches Ok((v, _)) ==> v is Float64,
        spec_scalar(bo, wide, MetadataValueType::Float64, s, pos) matches Ok((MetaView::Float64(x), p))
            ==> p == pos + 8 && x as int == word64(bo, s, pos),
        spec_scalar(bo, wide, MetadataValueType::Uint32, s, pos) matches Ok((MetaView::Uint32(x), p))
            ==> spec_scalar(bo, wide, MetadataValueType::Float32, s, pos) == Ok::<(MetaView, int), (crate::error::Fault, int)>((MetaView::Float32(x), p)),
        spec_scalar(bo, wide, MetadataValueType::Uint64, s, pos) matches Ok((MetaView::Uint64(x), p))
            ==> spec_scalar(bo, wide, MetadataValueType::Float64, s, pos) == Ok::<(MetaView, int), (crate::error::Fault, int)>((MetaView::Float64(x), p)),
{
    if 0 <= pos {
        lemma_words(bo, s, pos);
        if pos + 4 <= s.len() {
            assert(0 <= uint_value(bo, s.subrange(pos, pos + 4)) < 0x1_0000_0000);
        }
        if pos + 8 <= s.len() {
            assert(0 <= uint_value(bo, s.subrange(pos, pos + 8)) < 0x1_0000_0000_0000_0000);
        }
    }
}

/// Every integer value is the bytes at its place taken as one word in the
/// file's byte order, in two's complement for the signed types; a `Bool`
/// is true when its byte is not zero. Each is read when its bytes are all
/// there, and reading moves past them.
pub proof fn law_integer_words(bo: ByteOrder, wide: bool, s: Seq<u8>, pos: int)
    ensures
        spec_scalar(bo, wide, MetadataValueType::Uint8, s, pos) is Ok <==> 0 <= pos && pos + 1 <= s.len(),
        spec_scalar(bo, wide, MetadataValueType::Int8, s, pos) is Ok <==> 0 <= pos && pos + 1 <= s.len(),
        spec_scalar(bo, wide, MetadataValueType::Bool, s, pos) is Ok <==> 0 <= pos && pos + 1 <= s.len(),
        spec_scalar(bo, wide, MetadataValueType::Uint16, s, pos) is Ok <==> 0 <= pos && pos + 2 <= s.len(),
        spec_scalar(bo, wide, MetadataValueType::Int16, s, pos) is Ok <==> 0 <= pos && pos + 2 <= s.len(),
        spec_scalar(bo, wide, MetadataValueType::Uint32, s, pos) is Ok <==> 0 <= pos && pos + 4 <= s.len(),
        spec_scalar(bo, wide, MetadataValueType::Int32, s, pos) is Ok <==> 0 <= pos && pos + 4 <= s.len(),
        spec_scalar(bo, wide, MetadataValueType::Uint64, s, pos) is Ok <==> 0 <= pos && pos + 8 <= s.len(),
        spec_scalar(bo, wide, MetadataValueType::Int64, s, pos) is Ok <==> 0 <= pos && pos + 8 <= s.len(),
        0 <= pos && pos + 1 <= s.len() ==> {
            &&& spec_scalar(bo, wide, MetadataValueType::Uint8, s, pos) matches Ok((MetaView::Uint8(x), p))
                && x == s[pos] && p == pos + 1
            &&& spec_scalar(bo, wide, MetadataValueType::Int8, s, pos) matches Ok((MetaView::Int8(x), p))
                && x == twos(s[pos] as int, 0x80) && p == pos + 1
            &&& spec_scalar(bo, wide, MetadataValueType::Bool, s, pos) matches Ok((MetaView::Bool(x), p))
                && x == (s[pos] != 0) && p == pos + 1
        },
        0 <= pos && pos + 2 <= s.len() ==> {
            &&& spec_scalar(bo, wide, MetadataValueType::Uint16, s, pos) matches Ok((MetaView::Uint16(x), p))
                && x == word16(bo, s, pos) && p == pos + 2
            &&& spec_scalar(bo, wide, MetadataValueType::Int16, s, pos) matches Ok((MetaView::Int16(x), p))
                && x == twos(word16(bo, s, pos), 0x8000) && p == pos + 2
        },
        0 <= pos && pos + 4 <= s.len() ==> {
            &&& spec_scalar(bo, wide, MetadataValueType::Uint32, s, pos) matches Ok((MetaView::Uint32(x), p))
                && x == word32(bo, s, pos) && p == pos + 4
            &&& spec_scalar(bo, wide, MetadataValueType::Int32, s, pos) matches Ok((MetaView::Int32(x), p))
                && x == twos(word32(bo, s, pos), 0x8000_0000) && p == pos + 4
        },
        0 <= pos && pos + 8 <= s.len() ==> {
            &&& spec_scalar(bo, wide, MetadataValueType::Uint64, s, pos) matches Ok((MetaView::Uint64(x), p))
                && x == word64(bo, s, pos) && p == pos + 8
            &&& spec_scalar(bo, wide, MetadataValueType::Int64, s, pos) matches Ok((MetaView::Int64(x), p))
                && x == twos(word64(bo, s, pos), 0x8000_0000_0000_0000) && p == pos + 8
        },
{
    if 0 <= pos {
        lemma_words(bo, s, pos);
        if pos + 2 <= s.len() {
            assert(0 <= uint_value(bo, s.subrange(pos, pos + 2)) < 0x1_0000);
        }
        if pos + 4 <= s.len() {
            assert(0 <= uint_value(bo, s.subrange(pos, pos + 4)) < 0x1_0000_0000);
        }
        if pos + 8 <= s.len() {
            assert(0 <= uint_value(bo, s.subrange(pos, pos + 8)) < 0x1_0000_0000_0000_0000);
        }
    }
}

/// The name of a version read from a header is `v` followed by the
/// version number that the header holds, in decimal.
pub proof fn law_version_name(bo: ByteOrder, s: Seq<u8>, pos: int)
    ensures
        spec_header(bo, s, pos) matches Ok((v, _)) ==> spec_i32(bo, s, pos) matches Ok((n, _))
            && v.name() == seq!['v'] + decimal(n as nat),
{
    reveal_strlit("v1");
    reveal_strlit("v2");
    reveal_strlit("v3");
    assert(decimal(1) == seq!['1']);
    assert(decimal(2) == seq!['2']);
    assert(decimal(3) == seq!['3']);
}

/// The three versions have three different names.
pub proof fn law_version_names_distinct(a: VersionView, b: VersionView)
    ensures
        a.name() == b.name() ==> (a is V1 <==> b is V1) && (a is V2 <==> b is V2) && (a is V3 <==> b is V3),
{
    reveal_strlit("v1");
    reveal_strlit("v2");
    reveal_strlit("v3");
    if a.name() == b.name() {
        assert(a.name()[1] == b.name()[1]);
    }
}

/// Different tensor types have different names.
pub proof fn law_ggml_type_names_distinct(a: GGMLType, b: GGMLType)
    ensures
        a.name() == b.name() ==> a == b,
{
    reveal_strlit("F32");
    reveal_strlit("F16");
    reveal_strlit("Q4_0");
    reveal_strlit("Q4_1");
    reveal_strlit("Q4_2 (UNSUPPORTED)");
    reveal_strlit("Q4_3 (UNSUPPORTED)");
    reveal_strlit("Q5_0");
    reveal_strlit("Q5_1");
    reveal_strlit("Q8_0");
    reveal_strlit("Q8_1");
    reveal_strlit("Q2_K");
    reveal_strlit("Q3_K");
    reveal_strlit("Q4_K");
    reveal_strlit("Q5_K");
    reveal_strlit("Q6_K");
    reveal_strlit("Q8_K");
    reveal_strlit("IQ2_XXS");
    reveal_strlit("IQ2_XS");
    reveal_strlit("IQ3_XXS");
    reveal_strlit("IQ1_S");
    reveal_strlit("IQ4_NL");
    reveal_strlit("IQ3_S");
    reveal_strlit("IQ2_S");
    reveal_strlit("IQ4_XS");
    reveal_strlit("I8");
    reveal_strlit("I16");
    reveal_strlit("I32");
    reveal_strlit("I64");
    reveal_strlit("F64");
    reveal_strlit("IQ1_M");
    reveal_strlit("BF16");
    reveal_strlit("Q4_0_4_4 (UNSUPPORTED)");
    reveal_strlit("Q4_0_4_8 (UNSUPPORTED)");
    reveal_strlit("Q4_0_8_8 (UNSUPPORTED)");
    reveal_strlit("TQ1_0");
    reveal_strlit("TQ2_0");
    reveal_strlit("IQ4_NL_4_4 (UNSUPPORTED)");
    reveal_strlit("IQ4_NL_4_8 (UNSUPPORTED)");
    reveal_strlit("IQ4_NL_8_8 (UNSUPPORTED)");
    reveal_strlit("MXFP4");
    reveal_strlit("NVFP4");
    reveal_strlit("Q1_0");
    reveal_strlit("Count");
    if a.name() == b.name() {
        let (x, y) = (a.name(), b.name());
        assert(x.len() == y.len());
        assert(x[0] == y[0] && x[1] == y[1] && x[2] == y[2] && x[3] == y[3]);
        assert(x[4] == y[4] && x[5] == y[5] && x[7] == y[7] && x[9] == y[9]);
    }
}

/// The tensor type that most tensors of a file of type `ft` are kept in,
/// and what the file type's name adds after that type's name; `None` for
/// the file types that are not named after one tensor type.
pub open spec fn file_type_quant(ft: u64) -> Option<(GGMLType, Seq<char>)> {
    if ft == 0 {
        None
    } else if ft == 1 {
        Some((GGMLType::F16, Seq::empty()))
    } else if ft == 2 {
        Some((GGMLType::Q4_0, Seq::empty()))
    } else if ft == 3 {
        Some((GGMLType::Q4_1, Seq::empty()))
    } else if ft == 4 {
        Some((GGMLType::Q4_1, " Some F16"@))
    } else if ft == 5 {
        Some((GGMLType::Q4_2, Seq::empty()))
    } else if ft == 6 {
        Some((GGMLType::Q4_3, Seq::empty()))
    } else if ft == 7 {
        Some((GGMLType::Q8_0, Seq::empty()))
    } else if ft == 8 {
        Some((GGMLType::Q5_0, Seq::empty()))
    } else if ft == 9 {
        Some((GGMLType::Q5_1, Seq::empty()))
    } else if ft == 10 {
        Some((GGMLType::Q2_K, Seq::empty()))
    } else if ft == 11 {
        Some((GGMLType::Q3_K, "_S"@))
    } else if ft == 12 {
        Some((GGMLType::Q3_K, "_M"@))
    } else if ft == 13 {
        Some((GGMLType::Q3_K, "_L"@))
    } else if ft == 14 {
        Some((GGMLType::Q6_K, Seq::empty()))
    } else if ft == 15 {
        Some((GGMLType::Q4_K, "_M"@))
    } else if ft == 16 {
        Some((GGMLType::Q5_K, "_S"@))
    } else if ft == 17 {
        Some((GGMLType::Q5_K, "_M"@))
    } else if ft == 18 {
        Some((GGMLType::Q6_K, Seq::empty()))
    } else if ft == 19 {
        Some((GGMLType::IQ2_XXS, Seq::empty()))
    } else if ft == 20 {
        Some((GGMLType::IQ2_XS, Seq::empty()))
    } else if ft == 21 {
        Some((GGMLType::Q2_K, "_S"@))
    } else if ft == 23 {
        Some((GGMLType::IQ3_XXS, Seq::empty()))
    } else if ft == 24 {
        Some((GGMLType::BF16, Seq::empty()))
    } else if ft == 25 {
        Some((GGMLType::IQ4_NL, Seq::empty()))
    } else if ft == 26 {
        Some((GGMLType::IQ3_S, Seq::empty()))
    } else if ft == 28 {
        Some((GGMLType::IQ2_S, Seq::empty()))
    } else if ft == 30 {
        Some((GGMLType::IQ4_XS, Seq::empty()))
    } else if ft == 31 {
        Some((GGMLType::IQ1_M, Seq::empty()))
    } else if ft == 32 {
        Some((GGMLType::BF16, Seq::empty()))
    } else if ft == 33 {
        Some((GGMLType::Q4_0_4_4, Seq::empty()))
    } else if ft == 34 {
        Some((GGMLType::Q4_0_4_8, Seq::empty()))
    } else if ft == 35 {
        Some((GGMLType::Q4_0_8_8, Seq::empty()))
    } else if ft == 36 {
        Some((GGMLType::TQ1_0, Seq::empty()))
    } else if ft == 37 {
        Some((GGMLType::TQ2_0, Seq::empty()))
    } else if ft == 38 {
        Some((GGMLType::MXFP4, "_MOE"@))
    } else if ft == 39 {
        Some((GGMLType::NVFP4, Seq::empty()))
    } else if ft == 40 {
        Some((GGMLType::Q1_0, Seq::empty()))
    } else {
        None
    }
}

/// A file type is named after the tensor type that most of its tensors
/// are kept in: `Mostly`, the type's name, and the mix of sizes where the
/// type comes in several (`_S`, `_M`, `_L`); type 0 is `All F32`. Every
/// known file type but 0 is named `Mostly ...`, and every unknown one
/// `unknown`.
pub proof fn law_file_type_names(ft: u64)
    ensures
        file_type_quant(ft) matches Some((t, suffix)) ==> file_type_name(ft) == "Mostly "@ + t.name() + suffix,
        file_type_name(0) == "All "@ + GGMLType::F32.name(),
        1 <= ft <= 40 ==> file_type_name(ft).subrange(0, 7) == "Mostly "@,
        ft > 40 ==> file_type_name(ft) == "unknown"@,
{
    reveal_strlit("All F32");
    reveal_strlit("Mostly BF16");
    reveal_strlit("Mostly F16");
    reveal_strlit("Mostly IQ1_M");
    reveal_strlit("Mostly IQ2_M");
    reveal_strlit("Mostly IQ2_S");
    reveal_strlit("Mostly IQ2_XS");
    reveal_strlit("Mostly IQ2_XXS");
    reveal_strlit("Mostly IQ3_M");
    reveal_strlit("Mostly IQ3_S");
    reveal_strlit("Mostly IQ3_XS");
    reveal_strlit("Mostly IQ3_XXS");
    reveal_strlit("Mostly IQ4_NL");
    reveal_strlit("Mostly IQ4_XS");
    reveal_strlit("Mostly MXFP4_MOE");
    reveal_strlit("Mostly NVFP4");
    reveal_strlit("Mostly Q1_0");
    reveal_strlit("Mostly Q2_K");
    reveal_strlit("Mostly Q2_K_S");
    reveal_strlit("Mostly Q3_K_L");
    reveal_strlit("Mostly Q3_K_M");
    reveal_strlit("Mostly Q3_K_S");
    reveal_strlit("Mostly Q4_0");
    reveal_strlit("Mostly Q4_0_4_4 (UNSUPPORTED)");
    reveal_strlit("Mostly Q4_0_4_8 (UNSUPPORTED)");
    reveal_strlit("Mostly Q4_0_8_8 (UNSUPPORTED)");
    reveal_strlit("Mostly Q4_1");
    reveal_strlit("Mostly Q4_1 Some F16");
    reveal_strlit("Mostly Q4_2 (UNSUPPORTED)");
    reveal_strlit("Mostly Q4_3 (UNSUPPORTED)");
    reveal_strlit("Mostly Q4_K_M");
    reveal_strlit("Mostly Q5_0");
    reveal_strlit("Mostly Q5_1");
    reveal_strlit("Mostly Q5_K_M");
    reveal_strlit("Mostly Q5_K_S");
    reveal_strlit("Mostly Q6_K");
    reveal_strlit("Mostly Q8_0");
    reveal_strlit("Mostly TQ1_0");
    reveal_strlit("Mostly TQ2_0");
    reveal_strlit("unknown");
    reveal_strlit("Mostly ");
    reveal_strlit("All ");
    reveal_strlit("BF16");
    reveal_strlit("F16");
    reveal_strlit("IQ1_M");
    reveal_strlit("IQ2_S");
    reveal_strlit("IQ2_XS");
    reveal_strlit("IQ2_XXS");
    reveal_strlit("IQ3_S");
    reveal_strlit("IQ3_XXS");
    reveal_strlit("IQ4_NL");
    reveal_strlit("IQ4_XS");
    reveal_strlit("MXFP4");
    reveal_strlit("NVFP4");
    reveal_strlit("Q1_0");
    reveal_strlit("Q2_K");
    reveal_strlit("Q3_K");
    reveal_strlit("Q4_0");
    reveal_strlit("Q4_0_4_4 (UNSUPPORTED)");
    reveal_strlit("Q4_0_4_8 (UNSUPPORTED)");
    reveal_strlit("Q4_0_8_8 (UNSUPPORTED)");
    reveal_strlit("Q4_1");
    reveal_strlit("Q4_2 (UNSUPPORTED)");
    reveal_strlit("Q4_3 (UNSUPPORTED)");
    reveal_strlit("Q4_K");
    reveal_strlit("Q5_0");
    reveal_strlit("Q5_1");
    reveal_strlit("Q5_K");
    reveal_strlit("Q6_K");
    reveal_strlit("Q8_0");
    reveal_strlit("TQ1_0");
    reveal_strlit("TQ2_0");
    reveal_strlit("F32");
    reveal_strlit(" Some F16");
    reveal_strlit("_L");
    reveal_strlit("_M");
    reveal_strlit("_MOE");
    reveal_strlit("_S");
    assert(file_type_name(1) =~= "Mostly "@ + GGMLType::F16.name());
    assert(file_type_name(2) =~= "Mostly "@ + GGMLType::Q4_0.name());
    assert(file_type_name(3) =~= "Mostly "@ + GGMLType::Q4_1.name());
    assert(file_type_name(4) =~= "Mostly "@ + GGMLType::Q4_1.name() + " Some F16"@);
    assert(file_type_name(5) =~= "Mostly "@ + GGMLType::Q4_2.name());
    assert(file_type_name(6) =~= "Mostly "@ + GGMLType::Q4_3.name());
    assert(file_type_name(7) =~= "Mostly "@ + GGMLType::Q8_0.name());
    assert(file_type_name(8) =~= "Mostly "@ + GGMLType::Q5_0.name());
    assert(file_type_name(9) =~= "Mostly "@ + GGMLType::Q5_1.name());
    assert(file_type_name(10) =~= "Mostly "@ + GGMLType::Q2_K.name());
    assert(file_type_name(11) =~= "Mostly "@ + GGMLType::Q3_K.name() + "_S"@);
    assert(file_type_name(12) =~= "Mostly "@ + GGMLType::Q3_K.name() + "_M"@);
    assert(file_type_name(13) =~= "Mostly "@ + GGMLType::Q3_K.name() + "_L"@);
    assert(file_type_name(14) =~= "Mostly "@ + GGMLType::Q6_K.name());
    assert(file_type_name(15) =~= "Mostly "@ + GGMLType::Q4_K.name() + "_M"@);
    assert(file_type_name(16) =~= "Mostly "@ + GGMLType::Q5_K.name() + "_S"@);
    assert(file_type_name(17) =~= "Mostly "@ + GGMLType::Q5_K.name() + "_M"@);
    assert(file_type_name(18) =~= "Mostly "@ + GGMLType::Q6_K.name());
    assert(file_type_name(19) =~= "Mostly "@ + GGMLType::IQ2_XXS.name());
    assert(file_type_name(20) =~= "Mostly "@ + GGMLType::IQ2_XS.name());
    assert(file_type_name(21) =~= "Mostly "@ + GGMLType::Q2_K.name() + "_S"@);
    assert(file_type_name(23) =~= "Mostly "@ + GGMLType::IQ3_XXS.name());
    assert(file_type_name(24) =~= "Mostly "@ + GGMLType::BF16.name());
    assert(file_type_name(25) =~= "Mostly "@ + GGMLType::IQ4_NL.name());
    assert(file_type_name(26) =~= "Mostly "@ + GGMLType::IQ3_S.name());
    assert(file_type_name(28) =~= "Mostly "@ + GGMLType::IQ2_S.name());
    assert(file_type_name(30) =~= "Mostly "@ + GGMLType::IQ4_XS.name());
    assert(file_type_name(31) =~= "Mostly "@ + GGMLType::IQ1_M.name());
    assert(file_type_name(32) =~= "Mostly "@ + GGMLType::BF16.name());
    assert(file_type_name(33) =~= "Mostly "@ + GGMLType::Q4_0_4_4.name());
    assert(file_type_name(34) =~= "Mostly "@ + GGMLType::Q4_0_4_8.name());
    assert(file_type_name(35) =~= "Mostly "@ + GGMLType::Q4_0_8_8.name());
    assert(file_type_name(36) =~= "Mostly "@ + GGMLType::TQ1_0.name());
    assert(file_type_name(37) =~= "Mostly "@ + GGMLType::TQ2_0.name());
    assert(file_type_name(38) =~= "Mostly "@ + GGMLType::MXFP4.name() + "_MOE"@);
    assert(file_type_name(39) =~= "Mostly "@ + GGMLType::NVFP4.name());
    assert(file_type_name(40) =~= "Mostly "@ + GGMLType::Q1_0.name());
    assert(file_type_name(0) =~= "All "@ + GGMLType::F32.name());
    assert(file_type_name(22).subrange(0, 7) =~= "Mostly "@);
    assert(file_type_name(27).subrange(0, 7) =~= "Mostly "@);
    assert(file_type_name(29).subrange(0, 7) =~= "Mostly "@);
}

/// Different file types have different names, but for the two pairs that
/// share one: 14 and 18 are both `Mostly Q6_K`, 24 and 32 both
/// `Mostly BF16`; all unknown file types are `unknown`.
pub proof fn law_file_type_names_distinct(a: u64, b: u64)
    ensures
        file_type_name(a) == file_type_name(b) ==> a == b || (a > 40 && b > 40)
            || (a == 14 && b == 18) || (a == 18 && b == 14) || (a == 24 && b == 32) || (a == 32 && b == 24),
{
    reveal_strlit("All F32");
    reveal_strlit("Mostly BF16");
    reveal_strlit("Mostly F16");
    reveal_strlit("Mostly IQ1_M");
    reveal_strlit("Mostly IQ2_M");
    reveal_strlit("Mostly IQ2_S");
    reveal_strlit("Mostly IQ2_XS");
    reveal_strlit("Mostly IQ2_XXS");
    reveal_strlit("Mostly IQ3_M");
    reveal_strlit("Mostly IQ3_S");
    reveal_strlit("Mostly IQ3_XS");
    reveal_strlit("Mostly IQ3_XXS");
    reveal_strlit("Mostly IQ4_NL");
    reveal_strlit("Mostly IQ4_XS");
    reveal_strlit("Mostly MXFP4_MOE");
    reveal_strlit("Mostly NVFP4");
    reveal_strlit("Mostly Q1_0");
    reveal_strlit("Mostly Q2_K");
    reveal_strlit("Mostly Q2_K_S");
    reveal_strlit("Mostly Q3_K_L");
    reveal_strlit("Mostly Q3_K_M");
    reveal_strlit("Mostly Q3_K_S");
    reveal_strlit("Mostly Q4_0");
    reveal_strlit("Mostly Q4_0_4_4 (UNSUPPORTED)");
    reveal_strlit("Mostly Q4_0_4_8 (UNSUPPORTED)");
    reveal_strlit("Mostly Q4_0_8_8 (UNSUPPORTED)");
    reveal_strlit("Mostly Q4_1");
    reveal_strlit("Mostly Q4_1 Some F16");
    reveal_strlit("Mostly Q4_2 (UNSUPPORTED)");
    reveal_strlit("Mostly Q4_3 (UNSUPPORTED)");
    reveal_strlit("Mostly Q4_K_M");
    reveal_strlit("Mostly Q5_0");
    reveal_strlit("Mostly Q5_1");
    reveal_strlit("Mostly Q5_K_M");
    reveal_strlit("Mostly Q5_K_S");
    reveal_strlit("Mostly Q6_K");
    reveal_strlit("Mostly Q8_0");
    reveal_strlit("Mostly TQ1_0");
    reveal_strlit("Mostly TQ2_0");
    reveal_strlit("unknown");
    reveal_strlit("Mostly ");
    reveal_strlit("All ");
    reveal_strlit("BF16");
    reveal_strlit("F16");
    reveal_strlit("IQ1_M");
    reveal_strlit("IQ2_S");
    reveal_strlit("IQ2_XS");
    reveal_strlit("IQ2_XXS");
    reveal_strlit("IQ3_S");
    reveal_strlit("IQ3_XXS");
    reveal_strlit("IQ4_NL");
    reveal_strlit("IQ4_XS");
    reveal_strlit("MXFP4");
    reveal_strlit("NVFP4");
    reveal_strlit("Q1_0");
    reveal_strlit("Q2_K");
    reveal_strlit("Q3_K");
    reveal_strlit("Q4_0");
    reveal_strlit("Q4_0_4_4 (UNSUPPORTED)");
    reveal_strlit("Q4_0_4_8 (UNSUPPORTED)");
    reveal_strlit("Q4_0_8_8 (UNSUPPORTED)");
    reveal_strlit("Q4_1");
    reveal_strlit("Q4_2 (UNSUPPORTED)");
    reveal_strlit("Q4_3 (UNSUPPORTED)");
    reveal_strlit("Q4_K");
    reveal_strlit("Q5_0");
    reveal_strlit("Q5_1");
    reveal_strlit("Q5_K");
    reveal_strlit("Q6_K");
    reveal_strlit("Q8_0");
    reveal_strlit("TQ1_0");
    reveal_strlit("TQ2_0");
    reveal_strlit("F32");
    reveal_strlit(" Some F16");
    reveal_strlit("_L");
    reveal_strlit("_M");
    reveal_strlit("_MOE");
    reveal_strlit("_S");
    if file_type_name(a) == file_type_name(b) {
        let (x, y) = (file_type_name(a), file_type_name(b));
        assert(x.len() == y.len());
        assert(x[0] == y[0] && x[8] == y[8] && x[9] == y[9] && x[10] == y[10]);
        assert(x[11] == y[11] && x[12] == y[12] && x[14] == y[14]);
    }
}

/// The name of a tensor type ends in ` (UNSUPPORTED)` exactly when its
/// blocks take no bytes: the formats that ggml has retired. (`Count`, no
/// format at all, takes no bytes either and is named `Count`.)
pub proof fn law_retired_type_names(t: GGMLType)
    requires
        t != GGMLType::Count,
    ensures
        ggml_block(t).0 == 0 <==> t.name().len() >= 14
            && t.name().subrange(t.name().len() - 14, t.name().len() as int) == " (UNSUPPORTED)"@,
{
    reveal_strlit("F32");
    reveal_strlit("F16");
    reveal_strlit("Q4_0");
    reveal_strlit("Q4_1");
    reveal_strlit("Q4_2 (UNSUPPORTED)");
    reveal_strlit("Q4_3 (UNSUPPORTED)");
    reveal_strlit("Q5_0");
    reveal_strlit("Q5_1");
    reveal_strlit("Q8_0");
    reveal_strlit("Q8_1");
    reveal_strlit("Q2_K");
    reveal_strlit("Q3_K");
    reveal_strlit("Q4_K");
    reveal_strlit("Q5_K");
    reveal_strlit("Q6_K");
    reveal_strlit("Q8_K");
    reveal_strlit("IQ2_XXS");
    reveal_strlit("IQ2_XS");
    reveal_strlit("IQ3_XXS");
    reveal_strlit("IQ1_S");
    reveal_strlit("IQ4_NL");
    reveal_strlit("IQ3_S");
    reveal_strlit("IQ2_S");
    reveal_strlit("IQ4_XS");
    reveal_strlit("I8");
    reveal_strlit("I16");
    reveal_strlit("I32");
    reveal_strlit("I64");
    reveal_strlit("F64");
    reveal_strlit("IQ1_M");
    reveal_strlit("BF16");
    reveal_strlit("Q4_0_4_4 (UNSUPPORTED)");
    reveal_strlit("Q4_0_4_8 (UNSUPPORTED)");
    reveal_strlit("Q4_0_8_8 (UNSUPPORTED)");
    reveal_strlit("TQ1_0");
    reveal_strlit("TQ2_0");
    reveal_strlit("IQ4_NL_4_4 (UNSUPPORTED)");
    reveal_strlit("IQ4_NL_4_8 (UNSUPPORTED)");
    reveal_strlit("IQ4_NL_8_8 (UNSUPPORTED)");
    reveal_strlit("MXFP4");
    reveal_strlit("NVFP4");
    reveal_strlit("Q1_0");
    reveal_strlit("Count");
    reveal_strlit(" (UNSUPPORTED)");
    let x = t.name();
    if ggml_block(t).0 == 0 {
        assert(x.subrange(x.len() - 14, x.len() as int) =~= " (UNSUPPORTED)"@);
    } else if x.len() >= 14 {
        assert(x.subrange(x.len() - 14, x.len() as int)[0] == x[x.len() - 14]);
    }
}

} // verus!
