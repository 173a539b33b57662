use gguf_rs::error::Error;
use gguf_rs::{file_type, human_number};

#[test]
fn test_human_number_small() {
    assert_eq!(human_number(999), "999");
    assert_eq!(human_number(1000), "1000");
    assert_eq!(human_number(1001), "1K");
    assert_eq!(human_number(1500), "2K");
}

#[test]
fn test_human_number_medium() {
    assert_eq!(human_number(1_000_000), "1000K");
    assert_eq!(human_number(1_000_001), "1M");
    assert_eq!(human_number(2_000_001), "2M");
    assert_eq!(human_number(3_500_000), "4M");
}

#[test]
fn test_human_number_large() {
    assert_eq!(human_number(1_000_000_000), "1000M");
    assert_eq!(human_number(1_000_000_001), "1B");
    assert_eq!(human_number(7_500_000_000), "8B");
}

#[test]
fn test_file_type_all_values() {
    assert_eq!(file_type(0), "All F32");
    assert_eq!(file_type(1), "Mostly F16");
    assert_eq!(file_type(2), "Mostly Q4_0");
    assert_eq!(file_type(7), "Mostly Q8_0");
    assert_eq!(file_type(14), "Mostly Q6_K");
    assert_eq!(file_type(24), "Mostly BF16");
    assert_eq!(file_type(99), "unknown");
}

#[test]
fn human_number_rounds_halves_to_even() {
    assert_eq!(human_number(0), "0");
    assert_eq!(human_number(2500), "2K");
    assert_eq!(human_number(2501), "3K");
    assert_eq!(human_number(3_499_999), "3M");
    assert_eq!(human_number(u64::MAX), "18446744074B");
}

#[test]
fn file_type_edges() {
    assert_eq!(file_type(40), "Mostly Q1_0");
    assert_eq!(file_type(41), "unknown");
    assert_eq!(file_type(18), "Mostly Q6_K");
    assert_eq!(file_type(32), "Mostly BF16");
}

#[test]
fn error_messages() {
    assert_eq!(Error::FileTooSmall.to_string(), "gguf file too small to be valid");
    assert_eq!(Error::InvalidVersion(7).to_string(), "invalid version 7, only supports versions: 1 | 2 | 3");
    assert_eq!(Error::InvalidVersion(-12).to_string(), "invalid version -12, only supports versions: 1 | 2 | 3");
    assert_eq!(Error::InvalidMetaValueType(13).to_string(), "invalid metadata value type 13");
    assert_eq!(Error::InvalidGGMLType(100).to_string(), "invalid ggml type 100");
    assert_eq!(Error::UnsupportedArrayValue.to_string(), "unsupported item value type: Array");
    assert_eq!(
        Error::UnsupportedFileFormat(gguf_rs::FILE_MAGIC_GGML).to_string(),
        "unsupported file format ggml (0x67676d6c)"
    );
    assert_eq!(Error::TensorWriteIndex(3).to_string(), "tensor index is out of bounds");
}

#[test]
fn magic_text_of_negative_values() {
    assert_eq!(gguf_rs::error::fmt_magic(&-1), "\u{ff}\u{ff}\u{ff}\u{ff} (0xffffffff)");
    assert_eq!(gguf_rs::error::fmt_magic(&gguf_rs::FILE_MAGIC_GGUF_BE), "GGUF (0x47475546)");
}

#[test]
fn io_error_converts() {
    let e: Error = std::io::Error::from(std::io::ErrorKind::NotFound).into();
    assert!(matches!(e, Error::IO(ref io) if io.kind() == std::io::ErrorKind::NotFound));
}

#[test]
fn io_error_message_is_that_of_the_io_error() {
    let io = std::io::Error::new(std::io::ErrorKind::Other, "disk on fire");
    let expected = io.to_string();
    assert_eq!(Error::IO(io).to_string(), expected);
}
