use gguf_rs::error::Error;
use gguf_rs::{read_gguf_magic_order, ByteOrder, GGUFContainer, GGUFModel, MetadataValue};

/// Writes GGUF files in memory, in either byte order and version.
struct Writer {
    be: bool,
    v1: bool,
    out: Vec<u8>,
}

impl Writer {
    fn new(be: bool, version: i32) -> Writer {
        let mut w = Writer { be, v1: version == 1, out: Vec::new() };
        w.i32(version);
        w
    }
    fn u8(&mut self, v: u8) {
        self.out.push(v);
    }
    fn u16(&mut self, v: u16) {
        let b = if self.be { v.to_be_bytes() } else { v.to_le_bytes() };
        self.out.extend_from_slice(&b);
    }
    fn u32(&mut self, v: u32) {
        let b = if self.be { v.to_be_bytes() } else { v.to_le_bytes() };
        self.out.extend_from_slice(&b);
    }
    fn i32(&mut self, v: i32) {
        self.u32(v as u32);
    }
    fn u64(&mut self, v: u64) {
        let b = if self.be { v.to_be_bytes() } else { v.to_le_bytes() };
        self.out.extend_from_slice(&b);
    }
    fn size(&mut self, n: u64) {
        if self.v1 {
            self.u32(n as u32)
        } else {
            self.u64(n)
        }
    }
    fn counts(&mut self, tensors: u64, kvs: u64) {
        if self.v1 {
            self.u32(tensors as u32);
            self.u32(kvs as u32);
        } else {
            self.u64(tensors);
            self.u64(kvs);
        }
    }
    fn string(&mut self, s: &str) {
        self.size(s.len() as u64);
        self.out.extend_from_slice(s.as_bytes());
    }
    fn kv_string(&mut self, key: &str, value: &str) {
        self.string(key);
        self.u32(8);
        self.string(value);
    }
    fn kv_u32(&mut self, key: &str, value: u32) {
        self.string(key);
        self.u32(4);
        self.u32(value);
    }
    fn kv_u64(&mut self, key: &str, value: u64) {
        self.string(key);
        self.u32(10);
        self.u64(value);
    }
    fn kv_string_array(&mut self, key: &str, items: &[&str]) {
        self.string(key);
        self.u32(9);
        self.u32(8);
        self.size(items.len() as u64);
        for it in items {
            self.string(it);
        }
    }
    fn tensor(&mut self, name: &str, shape: &[u64], kind: u32, offset: u64) {
        self.string(name);
        self.u32(shape.len() as u32);
        for d in shape {
            self.u64(*d);
        }
        self.u32(kind);
        self.u64(offset);
    }
}

/// A small llama-like model: five metadata entries, two tensors holding
/// 192 elements together.
fn sample_v3(be: bool) -> Vec<u8> {
    let mut w = Writer::new(be, 3);
    w.counts(2, 5);
    w.kv_string("general.architecture", "llama");
    w.kv_string("general.name", "tiny");
    w.kv_u32("llama.block_count", 1);
    w.kv_string_array("tokenizer.ggml.tokens", &["<s>", "</s>", "a", "b", "c"]);
    w.kv_u32("llama.context_length", 64);
    w.tensor("token_embd.weight", &[8, 16], 0, 0);
    w.tensor("blk.0.attn_q.weight", &[8, 8], 1, 512);
    w.out
}

fn decode(data: Vec<u8>, max_array_size: u64) -> Result<GGUFModel, Error> {
    let mut container = GGUFContainer::new(ByteOrder::LE, data).with_max_array_size(max_array_size);
    container.decode()
}

#[test]
fn test_read_le_v3_gguf() {
    let model = decode(sample_v3(false), GGUFContainer::DEFAULT_MAX_ARRAY_SIZE).unwrap();
    assert_eq!(model.get_version(), "v3");
    assert_eq!(model.model_family(), "llama");
    assert_eq!(model.file_type(), "unknown");
    assert_eq!(model.model_parameters(), "192");
}

#[test]
fn test_read_le_v3_gguf_with_tokens() {
    let model = decode(sample_v3(false), u64::MAX).unwrap();
    assert_eq!(model.get_version(), "v3");
    assert_eq!(model.model_family(), "llama");
    assert_eq!(model.file_type(), "unknown");
    assert_eq!(model.model_parameters(), "192");
    match model.metadata().get("tokenizer.ggml.tokens") {
        Some(MetadataValue::Array(items)) => assert_eq!(items.len(), 5),
        other => panic!("expected the token array, found {:?}", other),
    }
}

#[test]
fn test_invalid_file_magic() {
    let mut container = GGUFContainer::new(ByteOrder::LE, vec![0x00, 0x00, 0x00, 0x00]).with_max_array_size(u64::MAX);
    let result = container.decode();
    assert!(result.is_err());
}

#[test]
fn test_tensors() {
    let model = decode(sample_v3(false), 3).unwrap();
    let tensors = model.tensors();
    assert!(!tensors.is_empty());
    for tensor in tensors {
        assert!(!tensor.name.is_empty());
        assert!(!tensor.shape.is_empty());
    }
}

#[test]
fn test_num_tensor() {
    let model = decode(sample_v3(false), 3).unwrap();
    assert!(model.num_tensor() > 0);
}

#[test]
fn test_get_version() {
    let mut container = GGUFContainer::new(ByteOrder::LE, sample_v3(false));
    assert_eq!(container.get_version(), "v1");
    let _ = container.decode().unwrap();
    assert_eq!(container.get_version(), "v3");
}

#[test]
fn test_model_family_unknown() {
    let model = decode(sample_v3(false), 3).unwrap();
    assert_eq!(model.model_family(), "llama");
    let mut w = Writer::new(false, 3);
    w.counts(0, 1);
    w.kv_u32("general.architecture", 5);
    let model = decode(w.out, 3).unwrap();
    assert_eq!(model.model_family(), "unknown");
}

#[test]
fn test_model_parameters_format() {
    let model = decode(sample_v3(false), 3).unwrap();
    assert_eq!(model.model_parameters(), "192");
}

#[test]
fn test_metadata_accessor() {
    let model = decode(sample_v3(false), 3).unwrap();
    let metadata = model.metadata();
    assert!(metadata.contains_key("general.architecture"));
    assert!(metadata.contains_key("llama.block_count"));
    assert!(!metadata.contains_key("general.file_type"));
}

#[test]
fn test_num_kv() {
    let model = decode(sample_v3(false), 3).unwrap();
    assert!(model.num_kv() > 0);
    assert_eq!(model.num_kv(), 5);
}

#[test]
fn test_tensor_properties() {
    let model = decode(sample_v3(false), 3).unwrap();
    for tensor in model.tensors() {
        assert!(!tensor.name.is_empty());
        assert!(!tensor.shape.is_empty());
        let _ = tensor.offset;
        let _ = tensor.size;
        let _ = tensor.kind;
    }
}

#[test]
fn test_container_new() {
    let container = GGUFContainer::new(ByteOrder::LE, vec![]).with_max_array_size(100);
    assert_eq!(container.get_version(), "v1");
}

#[test]
fn test_invalid_file_magic_detailed() {
    let invalid_magics = vec![
        vec![0x00, 0x00, 0x00, 0x00],
        vec![0xFF, 0xFF, 0xFF, 0xFF],
        vec![0x12, 0x34, 0x56, 0x78],
    ];
    for magic in invalid_magics {
        let mut container = GGUFContainer::new(ByteOrder::LE, magic).with_max_array_size(u64::MAX);
        let result = container.decode();
        assert!(result.is_err(), "Expected error for invalid magic");
    }
}

#[test]
fn test_get_gguf_container_array_size() {
    let model = decode(sample_v3(false), 1).unwrap();
    let tokens = model.metadata().get("tokenizer.ggml.tokens");
    if let Some(MetadataValue::Array(arr)) = tokens {
        assert!(arr.len() <= 1, "Array should be truncated to max size");
    } else {
        panic!("expected the token array");
    }
}

#[test]
fn arrays_keep_the_first_items() {
    let model = decode(sample_v3(false), 2).unwrap();
    match model.metadata().get("tokenizer.ggml.tokens") {
        Some(MetadataValue::Array(items)) => {
            assert_eq!(items.len(), 2);
            assert!(matches!(&items[0], MetadataValue::String(s) if s == "<s>"));
            assert!(matches!(&items[1], MetadataValue::String(s) if s == "</s>"));
        }
        _ => panic!("expected the token array"),
    }
    let model = decode(sample_v3(false), 0).unwrap();
    assert!(matches!(model.metadata().get("tokenizer.ggml.tokens"), Some(MetadataValue::Array(v)) if v.is_empty()));
}

#[test]
fn tensor_descriptions() {
    let model = decode(sample_v3(false), 3).unwrap();
    let t = &model.tensors()[0];
    assert_eq!(t.name, "token_embd.weight");
    assert_eq!(t.kind, 0);
    assert_eq!(t.shape, [8, 16, 1, 1]);
    assert_eq!(t.size, 512);
    let t = &model.tensors()[1];
    assert_eq!(t.shape, [8, 8, 1, 1]);
    assert_eq!(t.offset, 512);
    assert_eq!(t.size, 128);
}

#[test]
fn quantized_tensor_size() {
    let mut w = Writer::new(false, 3);
    w.counts(2, 0);
    w.tensor("q", &[64], 2, 0);
    w.tensor("k", &[512], 12, 0);
    let model = decode(w.out, 3).unwrap();
    // Q4_0: blocks of 32 elements in 18 bytes.
    assert_eq!(model.tensors()[0].size, 36);
    // Q4_K: blocks of 256 elements in 144 bytes.
    assert_eq!(model.tensors()[1].size, 288);
    assert_eq!(model.model_parameters(), "576");
}

#[test]
fn metadata_is_listed_in_key_order_and_last_value_wins() {
    let mut w = Writer::new(false, 2);
    w.counts(0, 4);
    w.kv_u32("b", 1);
    w.kv_u32("a", 2);
    w.kv_u32("c", 3);
    w.kv_u32("b", 4);
    let model = decode(w.out, 3).unwrap();
    let keys: Vec<&str> = model.metadata().entries().iter().map(|(k, _)| k.as_str()).collect();
    assert_eq!(keys, vec!["a", "b", "c"]);
    assert!(matches!(model.metadata().get("b"), Some(MetadataValue::Uint32(4))));
    assert_eq!(model.metadata().len(), 3);
    assert_eq!(model.num_kv(), 4);
}

#[test]
fn big_endian_files_decode_alike() {
    let mut container = GGUFContainer::new(ByteOrder::BE, sample_v3(true));
    let model = container.decode().unwrap();
    assert_eq!(model.get_version(), "v3");
    assert_eq!(model.model_family(), "llama");
    assert_eq!(model.model_parameters(), "192");
    assert!(matches!(model.metadata().get("llama.context_length"), Some(MetadataValue::Uint32(64))));
}

#[test]
fn version_one_files_use_short_sizes() {
    let mut w = Writer::new(false, 1);
    w.counts(1, 2);
    w.kv_string("general.architecture", "phi");
    w.kv_u64("general.file_type", 1);
    w.tensor("w", &[3, 4, 5], 0, 0);
    let model = decode(w.out, 3).unwrap();
    assert_eq!(model.get_version(), "v1");
    assert_eq!(model.model_family(), "phi");
    assert_eq!(model.file_type(), "Mostly F16");
    assert_eq!(model.model_parameters(), "60");
}

#[test]
fn scalar_values_are_read_in_the_file_byte_order() {
    for be in [false, true] {
        let mut w = Writer::new(be, 3);
        w.counts(0, 4);
        w.string("u16");
        w.u32(2);
        w.u16(0x1234);
        w.string("i8");
        w.u32(1);
        w.u8(0xfe);
        w.string("flag");
        w.u32(7);
        w.u8(2);
        w.string("f64");
        w.u32(12);
        w.u64(2.5f64.to_bits());
        let bo = if be { ByteOrder::BE } else { ByteOrder::LE };
        let mut container = GGUFContainer::new(bo, w.out);
        let model = container.decode().unwrap();
        let m = model.metadata();
        assert!(matches!(m.get("u16"), Some(MetadataValue::Uint16(0x1234))));
        assert!(matches!(m.get("i8"), Some(MetadataValue::Int8(-2))));
        assert!(matches!(m.get("flag"), Some(MetadataValue::Bool(true))));
        assert!(matches!(m.get("f64"), Some(MetadataValue::Float64(b)) if f64::from_bits(*b) == 2.5));
    }
}

#[test]
fn invalid_version_is_reported() {
    let mut container = GGUFContainer::new(ByteOrder::LE, vec![4, 0, 0, 0, 0, 0]);
    assert!(matches!(container.decode(), Err(Error::InvalidVersion(4))));
    assert_eq!(container.get_version(), "v1");
}

#[test]
fn truncated_files_give_end_of_input() {
    let mut data = sample_v3(false);
    data.truncate(data.len() - 3);
    let mut container = GGUFContainer::new(ByteOrder::LE, data);
    match container.decode() {
        Err(Error::IO(e)) => {
            assert_eq!(e.kind(), std::io::ErrorKind::UnexpectedEof);
            assert_eq!(e.to_string(), "failed to fill whole buffer");
        }
        other => panic!("expected an I/O error, found {:?}", other.map(|_| ())),
    }
    assert_eq!(container.get_version(), "v3");
    assert!(matches!(container.decode(), Err(Error::IO(_))));
}

#[test]
fn invalid_value_type_is_reported() {
    let mut w = Writer::new(false, 3);
    w.counts(0, 1);
    w.string("k");
    w.u32(13);
    assert!(matches!(decode(w.out, 3), Err(Error::InvalidMetaValueType(13))));
}

#[test]
fn arrays_of_arrays_are_refused() {
    let mut w = Writer::new(false, 3);
    w.counts(0, 1);
    w.string("k");
    w.u32(9);
    w.u32(9);
    w.u64(1);
    assert!(matches!(decode(w.out, 3), Err(Error::UnsupportedArrayValue)));
    let mut w = Writer::new(false, 3);
    w.counts(0, 1);
    w.string("k");
    w.u32(9);
    w.u32(9);
    w.u64(0);
    let model = decode(w.out, 3).unwrap();
    assert!(matches!(model.metadata().get("k"), Some(MetadataValue::Array(v)) if v.is_empty()));
}

#[test]
fn invalid_ggml_type_is_reported() {
    let mut w = Writer::new(false, 3);
    w.counts(1, 0);
    w.tensor("t", &[2], 4, 0);
    assert!(matches!(decode(w.out, 3), Err(Error::InvalidGGMLType(4))));
}

#[test]
fn tensors_that_cannot_be_described_are_refused() {
    let mut w = Writer::new(false, 3);
    w.counts(1, 0);
    w.tensor("t", &[1, 1, 1, 1, 1], 0, 0);
    assert!(matches!(decode(w.out, 3), Err(Error::TensorWriteIndex(4))));
    let mut w = Writer::new(false, 3);
    w.counts(1, 0);
    w.tensor("t", &[1], 42, 0);
    assert!(matches!(decode(w.out, 3), Err(Error::InvalidGGMLType(42))));
    let mut w = Writer::new(false, 3);
    w.counts(2, 0);
    w.tensor("a", &[2], 0, 0);
    w.tensor("t", &[u64::MAX, 2], 0, 0);
    assert!(matches!(decode(w.out, 3), Err(Error::TensorWriteIndex(1))));
    let mut w = Writer::new(false, 3);
    w.counts(2, 0);
    // Q4_0_4_4 takes no bytes, so only the element sum overflows.
    w.tensor("a", &[u64::MAX], 31, 0);
    w.tensor("b", &[1], 0, 0);
    assert!(matches!(decode(w.out, 3), Err(Error::TensorWriteIndex(1))));
}

#[test]
fn a_failed_decode_consumes_what_it_read() {
    let mut data = vec![4, 0, 0, 0];
    data.extend_from_slice(&sample_v3(false));
    let mut container = GGUFContainer::new(ByteOrder::LE, data);
    assert!(matches!(container.decode(), Err(Error::InvalidVersion(4))));
    let model = container.decode().unwrap();
    assert_eq!(model.get_version(), "v3");
    assert_eq!(model.model_parameters(), "192");
}

#[test]
fn magic_gives_the_byte_order() {
    assert!(matches!(read_gguf_magic_order(b"GGUF"), Ok(ByteOrder::LE)));
    assert!(matches!(read_gguf_magic_order(b"FUGG"), Ok(ByteOrder::BE)));
    assert!(matches!(read_gguf_magic_order(b"ggml"), Err(Error::UnsupportedFileFormat(m)) if m == 0x6c6d6767));
    assert!(matches!(read_gguf_magic_order(b"GG"), Err(Error::IO(_))));
}

#[test]
fn non_utf8_keys_are_read_lossily() {
    let mut w = Writer::new(false, 3);
    w.counts(0, 1);
    w.size(2);
    w.u8(b'k');
    w.u8(0xff);
    w.u32(4);
    w.u32(1);
    let model = decode(w.out, 3).unwrap();
    assert!(model.metadata().contains_key("k\u{fffd}"));
}

#[test]
fn into_parts_gives_metadata_and_tensors() {
    let model = decode(sample_v3(false), 3).unwrap();
    let (metadata, tensors) = model.into_parts();
    assert_eq!(metadata.len(), 5);
    assert_eq!(tensors.len(), 2);
    let entries = metadata.into_entries();
    assert_eq!(entries[0].0, "general.architecture");
}

#[test]
fn bytes_after_the_descriptions_do_not_matter() {
    let mut data = sample_v3(false);
    data.extend_from_slice(&[0xAB; 700]);
    let model = decode(data, 3).unwrap();
    assert_eq!(model.model_parameters(), "192");
    assert_eq!(model.tensors().len(), 2);
    assert_eq!(model.metadata().len(), 5);
}
