//! Errors of the library.
use vstd::prelude::*;

use crate::text::{hex_digits, push_char, push_decimal, push_hex, push_signed_decimal, decimal, signed_decimal};

verus! {

/// `std::io::Error`, carried through as it is.
#[verifier::external_type_specification]
#[verifier::external_body]
pub struct ExIoError(std::io::Error);

/// Everything that can go wrong while reading a GGUF file.
#[derive(Debug)]
pub enum Error {
    IO(std::io::Error),
    FileTooSmall,
    InvalidVersion(i32),
    InvalidMetaValueType(u32),
    InvalidGGMLType(u32),
    UnsupportedArrayValue,
    UnsupportedFileFormat(i32),
    TensorWriteIndex(usize),
}

/// `Result` with the library's [`Error`].
pub type Result<T> = core::result::Result<T, Error>;

/// The kind of an [`Error`], as the specifications of the readers name it.
pub enum Fault {
    Io,
    FileTooSmall,
    InvalidVersion(i32),
    InvalidMetaValueType(u32),
    InvalidGGMLType(u32),
    UnsupportedArrayValue,
    UnsupportedFileFormat(i32),
    TensorWriteIndex(usize),
}

impl Error {
    /// The kind of this error; every I/O error is of kind `Io`.
    pub open spec fn fault(self) -> Fault {
        match self {
            Error::IO(_) => Fault::Io,
            Error::FileTooSmall => Fault::FileTooSmall,
            Error::InvalidVersion(v) => Fault::InvalidVersion(v),
            Error::InvalidMetaValueType(t) => Fault::InvalidMetaValueType(t),
            Error::InvalidGGMLType(t) => Fault::InvalidGGMLType(t),
            Error::UnsupportedArrayValue => Fault::UnsupportedArrayValue,
            Error::UnsupportedFileFormat(m) => Fault::UnsupportedFileFormat(m),
            Error::TensorWriteIndex(i) => Fault::TensorWriteIndex(i),
        }
    }
}

/// `std::io::Error::new`: the error of kind `UnexpectedEof` with the message
/// "failed to fill whole buffer", as `Read::read_exact` gives it when the
/// input ends too early. Nothing is stated of the value.
#[verifier::external_body]
pub(crate) fn eof_error() -> std::io::Error {
    std::io::Error::new(std::io::ErrorKind::UnexpectedEof, "failed to fill whole buffer")
}

/// `format!("{}", e)` for an I/O error: its message, which the operating
/// system may supply. Nothing is stated of the text.
#[verifier::external_body]
fn io_message(e: &std::io::Error) -> String {
    format!("{}", e)
}

/// The bits of `v` as an unsigned 32-bit number.
pub open spec fn unsigned_bits(v: i32) -> nat {
    if v < 0 {
        (v + 0x1_0000_0000) as nat
    } else {
        v as nat
    }
}

/// A file magic as text: its four bytes, most significant first, each shown
/// as the character of that code point, then the number in hexadecimal, as
/// in `GGUF (0x47475546)`.
pub open spec fn magic_text(v: i32) -> Seq<char> {
    let u = unsigned_bits(v);
    seq![
        ((u / 0x100_0000) % 256) as char,
        ((u / 0x1_0000) % 256) as char,
        ((u / 0x100) % 256) as char,
        (u % 256) as char,
    ] + " (0x"@ + hex_digits(u, 8) + ")"@
}

/// Shows a file magic as its four bytes, most significant first, then the
/// number in eight hexadecimal digits.
pub fn fmt_magic(val: &i32) -> (r: String)
    ensures
        r@ == magic_text(*val),
{
    let v = *val;
    let u: u32 = if v < 0 {
        (v as i64 + 0x1_0000_0000i64) as u32
    } else {
        v as u32
    };
    let mut s = String::new();
    push_char(&mut s, ((u / 0x100_0000) % 256) as u8 as char);
    push_char(&mut s, ((u / 0x1_0000) % 256) as u8 as char);
    push_char(&mut s, ((u / 0x100) % 256) as u8 as char);
    push_char(&mut s, (u % 256) as u8 as char);
    s.append(" (0x");
    push_hex(&mut s, u, 8);
    s.append(")");
    s
}

impl Error {
    /// The message of an error other than an I/O error.
    pub open spec fn message(self) -> Seq<char> {
        match self {
            Error::IO(_) => Seq::empty(),
            Error::FileTooSmall => "gguf file too small to be valid"@,
            Error::InvalidVersion(v) => "invalid version "@ + signed_decimal(v as int)
                + ", only supports versions: 1 | 2 | 3"@,
            Error::InvalidMetaValueType(t) => "invalid metadata value type "@ + decimal(t as nat),
            Error::InvalidGGMLType(t) => "invalid ggml type "@ + decimal(t as nat),
            Error::UnsupportedArrayValue => "unsupported item value type: Array"@,
            Error::UnsupportedFileFormat(m) => "unsupported file format "@ + magic_text(m),
            Error::TensorWriteIndex(_) => "tensor index is out of bounds"@,
        }
    }

    /// The message of this error; for an I/O error, that of the I/O error.
    pub fn to_string(&self) -> (r: String)
        ensures
            !(self is IO) ==> r@ == self.message(),
    {
        match self {
            Error::IO(e) => io_message(e),
            Error::FileTooSmall => "gguf file too small to be valid".to_owned(),
            Error::InvalidVersion(v) => {
                let mut s = "invalid version ".to_owned();
                push_signed_decimal(&mut s, *v as i64);
                s.append(", only supports versions: 1 | 2 | 3");
                s
            },
            Error::InvalidMetaValueType(t) => {
                let mut s = "invalid metadata value type ".to_owned();
                push_decimal(&mut s, *t as u64);
                s
            },
            Error::InvalidGGMLType(t) => {
                let mut s = "invalid ggml type ".to_owned();
                push_decimal(&mut s, *t as u64);
                s
            },
            Error::UnsupportedArrayValue => "unsupported item value type: Array".to_owned(),
            Error::UnsupportedFileFormat(m) => {
                let mut s = "unsupported file format ".to_owned();
                let text = fmt_magic(m);
                s.append(text.as_str());
                s
            },
            Error::TensorWriteIndex(_) => "tensor index is out of bounds".to_owned(),
        }
    }
}

impl From<std::io::Error> for Error {
    fn from(e: std::io::Error) -> (r: Self) {
        Error::IO(e)
    }
}

impl vstd::std_specs::convert::FromSpecImpl<std::io::Error> for Error {
    open spec fn obeys_from_spec() -> bool {
        true
    }

    open spec fn from_spec(e: std::io::Error) -> Error {
        Error::IO(e)
    }
}

} // verus!
