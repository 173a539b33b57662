//! Metadata values and their conversions.
use vstd::prelude::*;

verus! {

/// The mathematical content of a [`MetadataValue`]; floating-point values
/// are held by their IEEE-754 bit patterns.
pub enum MetaView {
    Uint8(u8),
    Int8(i8),
    Uint16(u16),
    Int16(i16),
    Uint32(u32),
    Int32(i32),
    Float32(u32),
    Bool(bool),
    String(Seq<char>),
    Array(Seq<MetaView>),
    Uint64(u64),
    Int64(i64),
    Float64(u64),
}

/// A metadata value of a GGUF file. The two floating-point kinds hold the
/// IEEE-754 bit pattern of the number (`f32::to_bits`, `f64::to_bits`).
#[derive(Debug)]
pub enum MetadataValue {
    Uint8(u8),
    Int8(i8),
    Uint16(u16),
    Int16(i16),
    Uint32(u32),
    Int32(i32),
    Float32(u32),
    Bool(bool),
    String(String),
    Array(Vec<MetadataValue>),
    Uint64(u64),
    Int64(i64),
    Float64(u64),
}

impl MetadataValue {
    pub open spec fn view(&self) -> MetaView
        decreases self,
    {
        match self {
            MetadataValue::Uint8(x) => MetaView::Uint8(*x),
            MetadataValue::Int8(x) => MetaView::Int8(*x),
            MetadataValue::Uint16(x) => MetaView::Uint16(*x),
            MetadataValue::Int16(x) => MetaView::Int16(*x),
            MetadataValue::Uint32(x) => MetaView::Uint32(*x),
            MetadataValue::Int32(x) => MetaView::Int32(*x),
            MetadataValue::Float32(x) => MetaView::Float32(*x),
            MetadataValue::Bool(x) => MetaView::Bool(*x),
            MetadataValue::String(s) => MetaView::String(s@),
            MetadataValue::Array(v) => MetaView::Array(values_view(v@)),
            MetadataValue::Uint64(x) => MetaView::Uint64(*x),
            MetadataValue::Int64(x) => MetaView::Int64(*x),
            MetadataValue::Float64(x) => MetaView::Float64(*x),
        }
    }
}

/// The contents of a sequence of values, element by element.
pub open spec fn values_view(s: Seq<MetadataValue>) -> Seq<MetaView>
    decreases s,
{
    Seq::new(s.len(), |i: int| if 0 <= i < s.len() { s[i].view() } else { MetaView::Bool(false) })
}

impl Clone for MetadataValue {
    /// A deep copy with the same contents.
    #[verifier::loop_isolation(false)]
    fn clone(&self) -> (r: Self)
        ensures
            r@ == self@,
        decreases self,
    {
        match self {
            MetadataValue::Uint8(x) => MetadataValue::Uint8(*x),
            MetadataValue::Int8(x) => MetadataValue::Int8(*x),
            MetadataValue::Uint16(x) => MetadataValue::Uint16(*x),
            MetadataValue::Int16(x) => MetadataValue::Int16(*x),
            MetadataValue::Uint32(x) => MetadataValue::Uint32(*x),
            MetadataValue::Int32(x) => MetadataValue::Int32(*x),
            MetadataValue::Float32(x) => MetadataValue::Float32(*x),
            MetadataValue::Bool(x) => MetadataValue::Bool(*x),
            MetadataValue::String(s) => MetadataValue::String(s.clone()),
            MetadataValue::Array(v) => {
                let mut out: Vec<MetadataValue> = Vec::new();
                let mut i: usize = 0;
                while i < v.len()
                    invariant
                        i <= v.len(),
                        out.len() == i,
                        forall|j: int| 0 <= j < i ==> #[trigger] out@[j]@ == v@[j]@,
                    decreases v.len() - i,
                {
                    proof {
                        assert(decreases_to!(*v => v[i as int]));
                    }
                    out.push(v[i].clone());
                    i = i + 1;
                }
                proof {
                    assert forall|j: int| 0 <= j < v@.len() implies values_view(out@)[j] == values_view(v@)[j] by {
                        assert(out@[j]@ == v@[j]@);
                    }
                    assert(values_view(out@) =~= values_view(v@));
                }
                MetadataValue::Array(out)
            },
            MetadataValue::Uint64(x) => MetadataValue::Uint64(*x),
            MetadataValue::Int64(x) => MetadataValue::Int64(*x),
            MetadataValue::Float64(x) => MetadataValue::Float64(*x),
        }
    }
}

impl From<u8> for MetadataValue {
    fn from(value: u8) -> (r: Self) {
        MetadataValue::Uint8(value)
    }
}

impl vstd::std_specs::convert::FromSpecImpl<u8> for MetadataValue {
    open spec fn obeys_from_spec() -> bool {
        true
    }

    open spec fn from_spec(v: u8) -> MetadataValue {
        MetadataValue::Uint8(v)
    }
}

impl From<i8> for MetadataValue {
    fn from(value: i8) -> (r: Self) {
        MetadataValue::Int8(value)
    }
}

impl vstd::std_specs::convert::FromSpecImpl<i8> for MetadataValue {
    open spec fn obeys_from_spec() -> bool {
        true
    }

    open spec fn from_spec(v: i8) -> MetadataValue {
        MetadataValue::Int8(v)
    }
}

impl From<u16> for MetadataValue {
    fn from(value: u16) -> (r: Self) {
        MetadataValue::Uint16(value)
    }
}

impl vstd::std_specs::convert::FromSpecImpl<u16> for MetadataValue {
    open spec fn obeys_from_spec() -> bool {
        true
    }

    open spec fn from_spec(v: u16) -> MetadataValue {
        MetadataValue::Uint16(v)
    }
}

impl From<i16> for MetadataValue {
    fn from(value: i16) -> (r: Self) {
        MetadataValue::Int16(value)
    }
}

impl vstd::std_specs::convert::FromSpecImpl<i16> for MetadataValue {
    open spec fn obeys_from_spec() -> bool {
        true
    }

    open spec fn from_spec(v: i16) -> MetadataValue {
        MetadataValue::Int16(v)
    }
}

impl From<u32> for MetadataValue {
    fn from(value: u32) -> (r: Self) {
        MetadataValue::Uint32(value)
    }
}

impl vstd::std_specs::convert::FromSpecImpl<u32> for MetadataValue {
    open spec fn obeys_from_spec() -> bool {
        true
    }

    open spec fn from_spec(v: u32) -> MetadataValue {
        MetadataValue::Uint32(v)
    }
}

impl From<i32> for MetadataValue {
    fn from(value: i32) -> (r: Self) {
        MetadataValue::Int32(value)
    }
}

impl vstd::std_specs::convert::FromSpecImpl<i32> for MetadataValue {
    open spec fn obeys_from_spec() -> bool {
        true
    }

    open spec fn from_spec(v: i32) -> MetadataValue {
        MetadataValue::Int32(v)
    }
}

impl From<bool> for MetadataValue {
    fn from(value: bool) -> (r: Self) {
        MetadataValue::Bool(value)
    }
}

impl vstd::std_specs::convert::FromSpecImpl<bool> for MetadataValue {
    open spec fn obeys_from_spec() -> bool {
        true
    }

    open spec fn from_spec(v: bool) -> MetadataValue {
        MetadataValue::Bool(v)
    }
}

impl From<u64> for MetadataValue {
    fn from(value: u64) -> (r: Self) {
        MetadataValue::Uint64(value)
    }
}

impl vstd::std_specs::convert::FromSpecImpl<u64> for MetadataValue {
    open spec fn obeys_from_spec() -> bool {
        true
    }

    open spec fn from_spec(v: u64) -> MetadataValue {
        MetadataValue::Uint64(v)
    }
}

impl From<i64> for MetadataValue {
    fn from(value: i64) -> (r: Self) {
        MetadataValue::Int64(value)
    }
}

impl vstd::std_specs::convert::FromSpecImpl<i64> for MetadataValue {
    open spec fn obeys_from_spec() -> bool {
        true
    }

    open spec fn from_spec(v: i64) -> MetadataValue {
        MetadataValue::Int64(v)
    }
}

impl From<String> for MetadataValue {
    fn from(value: String) -> (r: Self) {
        MetadataValue::String(value)
    }
}

impl vstd::std_specs::convert::FromSpecImpl<String> for MetadataValue {
    open spec fn obeys_from_spec() -> bool {
        true
    }

    open spec fn from_spec(v: String) -> MetadataValue {
        MetadataValue::String(v)
    }
}

impl From<Vec<MetadataValue>> for MetadataValue {
    fn from(value: Vec<MetadataValue>) -> (r: Self) {
        MetadataValue::Array(value)
    }
}

impl vstd::std_specs::convert::FromSpecImpl<Vec<MetadataValue>> for MetadataValue {
    open spec fn obeys_from_spec() -> bool {
        true
    }

    open spec fn from_spec(v: Vec<MetadataValue>) -> MetadataValue {
        MetadataValue::Array(v)
    }
}

impl From<&str> for MetadataValue {
    fn from(value: &str) -> (r: Self)
        ensures
            r@ == MetaView::String(value@),
    {
        MetadataValue::String(value.to_owned())
    }
}

impl vstd::std_specs::convert::FromSpecImpl<&str> for MetadataValue {
    open spec fn obeys_from_spec() -> bool {
        false
    }

    open spec fn from_spec(v: &str) -> MetadataValue {
        MetadataValue::Bool(false)
    }
}

/// The error of a conversion out of a [`MetadataValue`] of another kind.
#[derive(Debug)]
pub struct MetadataTypeError {
    /// The name of the kind that was asked for.
    pub expected: &'static str,
    /// The value that was found instead.
    pub found: MetadataValue,
}

impl TryFrom<MetadataValue> for u8 {
    type Error = MetadataTypeError;

    fn try_from(value: MetadataValue) -> (r: core::result::Result<Self, Self::Error>) {
        match value {
            MetadataValue::Uint8(v) => Ok(v),
            other => Err(MetadataTypeError { expected: "Uint8", found: other }),
        }
    }
}

impl vstd::std_specs::convert::TryFromSpecImpl<MetadataValue> for u8 {
    open spec fn obeys_try_from_spec() -> bool {
        true
    }

    open spec fn try_from_spec(v: MetadataValue) -> core::result::Result<u8, MetadataTypeError> {
        match v {
            MetadataValue::Uint8(x) => Ok(x),
            other => Err(MetadataTypeError { expected: "Uint8", found: other }),
        }
    }
}

impl<'a> TryFrom<&'a MetadataValue> for u8 {
    type Error = MetadataTypeError;

    /// The Uint8 value inside `value`; for another kind, an error that holds
    /// a copy of `value`.
    fn try_from(value: &'a MetadataValue) -> (r: core::result::Result<Self, Self::Error>)
        ensures
            match value {
                MetadataValue::Uint8(v) => r == Ok::<u8, MetadataTypeError>(*v),
                _ => r matches Err(e) && e.expected@ == "Uint8"@ && e.found@ == value@,
            },
    {
        match value {
            MetadataValue::Uint8(v) => Ok(*v),
            other => Err(MetadataTypeError { expected: "Uint8", found: other.clone() }),
        }
    }
}

impl<'a> vstd::std_specs::convert::TryFromSpecImpl<&'a MetadataValue> for u8 {
    open spec fn obeys_try_from_spec() -> bool {
        false
    }

    open spec fn try_from_spec(v: &'a MetadataValue) -> core::result::Result<u8, MetadataTypeError> {
        Err(MetadataTypeError { expected: "Uint8", found: *v })
    }
}

impl TryFrom<MetadataValue> for i8 {
    type Error = MetadataTypeError;

    fn try_from(value: MetadataValue) -> (r: core::result::Result<Self, Self::Error>) {
        match value {
            MetadataValue::Int8(v) => Ok(v),
            other => Err(MetadataTypeError { expected: "Int8", found: other }),
        }
    }
}

impl vstd::std_specs::convert::TryFromSpecImpl<MetadataValue> for i8 {
    open spec fn obeys_try_from_spec() -> bool {
        true
    }

    open spec fn try_from_spec(v: MetadataValue) -> core::result::Result<i8, MetadataTypeError> {
        match v {
            MetadataValue::Int8(x) => Ok(x),
            other => Err(MetadataTypeError { expected: "Int8", found: other }),
        }
    }
}

impl<'a> TryFrom<&'a MetadataValue> for i8 {
    type Error = MetadataTypeError;

    /// The Int8 value inside `value`; for another kind, an error that holds
    /// a copy of `value`.
    fn try_from(value: &'a MetadataValue) -> (r: core::result::Result<Self, Self::Error>)
        ensures
            match value {
                MetadataValue::Int8(v) => r == Ok::<i8, MetadataTypeError>(*v),
                _ => r matches Err(e) && e.expected@ == "Int8"@ && e.found@ == value@,
            },
    {
        match value {
            MetadataValue::Int8(v) => Ok(*v),
            other => Err(MetadataTypeError { expected: "Int8", found: other.clone() }),
        }
    }
}

impl<'a> vstd::std_specs::convert::TryFromSpecImpl<&'a MetadataValue> for i8 {
    open spec fn obeys_try_from_spec() -> bool {
        false
    }

    open spec fn try_from_spec(v: &'a MetadataValue) -> core::result::Result<i8, MetadataTypeError> {
        Err(MetadataTypeError { expected: "Int8", found: *v })
    }
}

impl TryFrom<MetadataValue> for u16 {
    type Error = MetadataTypeError;

    fn try_from(value: MetadataValue) -> (r: core::result::Result<Self, Self::Error>) {
        match value {
            MetadataValue::Uint16(v) => Ok(v),
            other => Err(MetadataTypeError { expected: "Uint16", found: other }),
        }
    }
}

impl vstd::std_specs::convert::TryFromSpecImpl<MetadataValue> for u16 {
    open spec fn obeys_try_from_spec() -> bool {
        true
    }

    open spec fn try_from_spec(v: MetadataValue) -> core::result::Result<u16, MetadataTypeError> {
        match v {
            MetadataValue::Uint16(x) => Ok(x),
            other => Err(MetadataTypeError { expected: "Uint16", found: other }),
        }
    }
}

impl<'a> TryFrom<&'a MetadataValue> for u16 {
    type Error = MetadataTypeError;

    /// The Uint16 value inside `value`; for another kind, an error that holds
    /// a copy of `value`.
    fn try_from(value: &'a MetadataValue) -> (r: core::result::Result<Self, Self::Error>)
        ensures
            match value {
                MetadataValue::Uint16(v) => r == Ok::<u16, MetadataTypeError>(*v),
                _ => r matches Err(e) && e.expected@ == "Uint16"@ && e.found@ == value@,
            },
    {
        match value {
            MetadataValue::Uint16(v) => Ok(*v),
            other => Err(MetadataTypeError { expected: "Uint16", found: other.clone() }),
        }
    }
}

impl<'a> vstd::std_specs::convert::TryFromSpecImpl<&'a MetadataValue> for u16 {
    open spec fn obeys_try_from_spec() -> bool {
        false
    }

    open spec fn try_from_spec(v: &'a MetadataValue) -> core::result::Result<u16, MetadataTypeError> {
        Err(MetadataTypeError { expected: "Uint16", found: *v })
    }
}

impl TryFrom<MetadataValue> for i16 {
    type Error = MetadataTypeError;

    fn try_from(value: MetadataValue) -> (r: core::result::Result<Self, Self::Error>) {
        match value {
            MetadataValue::Int16(v) => Ok(v),
            other => Err(MetadataTypeError { expected: "Int16", found: other }),
        }
    }
}

impl vstd::std_specs::convert::TryFromSpecImpl<MetadataValue> for i16 {
    open spec fn obeys_try_from_spec() -> bool {
        true
    }

    open spec fn try_from_spec(v: MetadataValue) -> core::result::Result<i16, MetadataTypeError> {
        match v {
            MetadataValue::Int16(x) => Ok(x),
            other => Err(MetadataTypeError { expected: "Int16", found: other }),
        }
    }
}

impl<'a> TryFrom<&'a MetadataValue> for i16 {
    type Error = MetadataTypeError;

    /// The Int16 value inside `value`; for another kind, an error that holds
    /// a copy of `value`.
    fn try_from(value: &'a MetadataValue) -> (r: core::result::Result<Self, Self::Error>)
        ensures
            match value {
                MetadataValue::Int16(v) => r == Ok::<i16, MetadataTypeError>(*v),
                _ => r matches Err(e) && e.expected@ == "Int16"@ && e.found@ == value@,
            },
    {
        match value {
            MetadataValue::Int16(v) => Ok(*v),
            other => Err(MetadataTypeError { expected: "Int16", found: other.clone() }),
        }
    }
}

impl<'a> vstd::std_specs::convert::TryFromSpecImpl<&'a MetadataValue> for i16 {
    open spec fn obeys_try_from_spec() -> bool {
        false
    }

    open spec fn try_from_spec(v: &'a MetadataValue) -> core::result::Result<i16, MetadataTypeError> {
        Err(MetadataTypeError { expected: "Int16", found: *v })
    }
}

impl TryFrom<MetadataValue> for u32 {
    type Error = MetadataTypeError;

    fn try_from(value: MetadataValue) -> (r: core::result::Result<Self, Self::Error>) {
        match value {
            MetadataValue::Uint32(v) => Ok(v),
            other => Err(MetadataTypeError { expected: "Uint32", found: other }),
        }
    }
}

impl vstd::std_specs::convert::TryFromSpecImpl<MetadataValue> for u32 {
    open spec fn obeys_try_from_spec() -> bool {
        true
    }

    open spec fn try_from_spec(v: MetadataValue) -> core::result::Result<u32, MetadataTypeError> {
        match v {
            MetadataValue::Uint32(x) => Ok(x),
            other => Err(MetadataTypeError { expected: "Uint32", found: other }),
        }
    }
}

impl<'a> TryFrom<&'a MetadataValue> for u32 {
    type Error = MetadataTypeError;

    /// The Uint32 value inside `value`; for another kind, an error that holds
    /// a copy of `value`.
    fn try_from(value: &'a MetadataValue) -> (r: core::result::Result<Self, Self::Error>)
        ensures
            match value {
                MetadataValue::Uint32(v) => r == Ok::<u32, MetadataTypeError>(*v),
                _ => r matches Err(e) && e.expected@ == "Uint32"@ && e.found@ == value@,
            },
    {
        match value {
            MetadataValue::Uint32(v) => Ok(*v),
            other => Err(MetadataTypeError { expected: "Uint32", found: other.clone() }),
        }
    }
}

impl<'a> vstd::std_specs::convert::TryFromSpecImpl<&'a MetadataValue> for u32 {
    open spec fn obeys_try_from_spec() -> bool {
        false
    }

    open spec fn try_from_spec(v: &'a MetadataValue) -> core::result::Result<u32, MetadataTypeError> {
        Err(MetadataTypeError { expected: "Uint32", found: *v })
    }
}

impl TryFrom<MetadataValue> for i32 {
    type Error = MetadataTypeError;

    fn try_from(value: MetadataValue) -> (r: core::result::Result<Self, Self::Error>) {
        match value {
            MetadataValue::Int32(v) => Ok(v),
            other => Err(MetadataTypeError { expected: "Int32", found: other }),
        }
    }
}

impl vstd::std_specs::convert::TryFromSpecImpl<MetadataValue> for i32 {
    open spec fn obeys_try_from_spec() -> bool {
        true
    }

    open spec fn try_from_spec(v: MetadataValue) -> core::result::Result<i32, MetadataTypeError> {
        match v {
            MetadataValue::Int32(x) => Ok(x),
            other => Err(MetadataTypeError { expected: "Int32", found: other }),
        }
    }
}

impl<'a> TryFrom<&'a MetadataValue> for i32 {
    type Error = MetadataTypeError;

    /// The Int32 value inside `value`; for another kind, an error that holds
    /// a copy of `value`.
    fn try_from(value: &'a MetadataValue) -> (r: core::result::Result<Self, Self::Error>)
        ensures
            match value {
                MetadataValue::Int32(v) => r == Ok::<i32, MetadataTypeError>(*v),
                _ => r matches Err(e) && e.expected@ == "Int32"@ && e.found@ == value@,
            },
    {
        match value {
            MetadataValue::Int32(v) => Ok(*v),
            other => Err(MetadataTypeError { expected: "Int32", found: other.clone() }),
        }
    }
}

impl<'a> vstd::std_specs::convert::TryFromSpecImpl<&'a MetadataValue> for i32 {
    open spec fn obeys_try_from_spec() -> bool {
        false
    }

    open spec fn try_from_spec(v: &'a MetadataValue) -> core::result::Result<i32, MetadataTypeError> {
        Err(MetadataTypeError { expected: "Int32", found: *v })
    }
}

impl TryFrom<MetadataValue> for bool {
    type Error = MetadataTypeError;

    fn try_from(value: MetadataValue) -> (r: core::result::Result<Self, Self::Error>) {
        match value {
            MetadataValue::Bool(v) => Ok(v),
            other => Err(MetadataTypeError { expected: "Bool", found: other }),
        }
    }
}

impl vstd::std_specs::convert::TryFromSpecImpl<MetadataValue> for bool {
    open spec fn obeys_try_from_spec() -> bool {
        true
    }

    open spec fn try_from_spec(v: MetadataValue) -> core::result::Result<bool, MetadataTypeError> {
        match v {
            MetadataValue::Bool(x) => Ok(x),
            other => Err(MetadataTypeError { expected: "Bool", found: other }),
        }
    }
}

impl<'a> TryFrom<&'a MetadataValue> for bool {
    type Error = MetadataTypeError;

    /// The Bool value inside `value`; for another kind, an error that holds
    /// a copy of `value`.
    fn try_from(value: &'a MetadataValue) -> (r: core::result::Result<Self, Self::Error>)
        ensures
            match value {
                MetadataValue::Bool(v) => r == Ok::<bool, MetadataTypeError>(*v),
                _ => r matches Err(e) && e.expected@ == "Bool"@ && e.found@ == value@,
            },
    {
        match value {
            MetadataValue::Bool(v) => Ok(*v),
            other => Err(MetadataTypeError { expected: "Bool", found: other.clone() }),
        }
    }
}

impl<'a> vstd::std_specs::convert::TryFromSpecImpl<&'a MetadataValue> for bool {
    open spec fn obeys_try_from_spec() -> bool {
        false
    }

    open spec fn try_from_spec(v: &'a MetadataValue) -> core::result::Result<bool, MetadataTypeError> {
        Err(MetadataTypeError { expected: "Bool", found: *v })
    }
}

impl TryFrom<MetadataValue> for u64 {
    type Error = MetadataTypeError;

    fn try_from(value: MetadataValue) -> (r: core::result::Result<Self, Self::Error>) {
        match value {
            MetadataValue::Uint64(v) => Ok(v),
            other => Err(MetadataTypeError { expected: "Uint64", found: other }),
        }
    }
}

impl vstd::std_specs::convert::TryFromSpecImpl<MetadataValue> for u64 {
    open spec fn obeys_try_from_spec() -> bool {
        true
    }

    open spec fn try_from_spec(v: MetadataValue) -> core::result::Result<u64, MetadataTypeError> {
        match v {
            MetadataValue::Uint64(x) => Ok(x),
            other => Err(MetadataTypeError { expected: "Uint64", found: other }),
        }
    }
}

impl<'a> TryFrom<&'a MetadataValue> for u64 {
    type Error = MetadataTypeError;

    /// The Uint64 value inside `value`; for another kind, an error that holds
    /// a copy of `value`.
    fn try_from(value: &'a MetadataValue) -> (r: core::result::Result<Self, Self::Error>)
        ensures
            match value {
                MetadataValue::Uint64(v) => r == Ok::<u64, MetadataTypeError>(*v),
                _ => r matches Err(e) && e.expected@ == "Uint64"@ && e.found@ == value@,
            },
    {
        match value {
            MetadataValue::Uint64(v) => Ok(*v),
            other => Err(MetadataTypeError { expected: "Uint64", found: other.clone() }),
        }
    }
}

impl<'a> vstd::std_specs::convert::TryFromSpecImpl<&'a MetadataValue> for u64 {
    open spec fn obeys_try_from_spec() -> bool {
        false
    }

    open spec fn try_from_spec(v: &'a MetadataValue) -> core::result::Result<u64, MetadataTypeError> {
        Err(MetadataTypeError { expected: "Uint64", found: *v })
    }
}

impl TryFrom<MetadataValue> for i64 {
    type Error = MetadataTypeError;

    fn try_from(value: MetadataValue) -> (r: core::result::Result<Self, Self::Error>) {
        match value {
            MetadataValue::Int64(v) => Ok(v),
            other => Err(MetadataTypeError { expected: "Int64", found: other }),
        }
    }
}

impl vstd::std_specs::convert::TryFromSpecImpl<MetadataValue> for i64 {
    open spec fn obeys_try_from_spec() -> bool {
        true
    }

    open spec fn try_from_spec(v: MetadataValue) -> core::result::Result<i64, MetadataTypeError> {
        match v {
            MetadataValue::Int64(x) => Ok(x),
            other => Err(MetadataTypeError { expected: "Int64", found: other }),
        }
    }
}

impl<'a> TryFrom<&'a MetadataValue> for i64 {
    type Error = MetadataTypeError;

    /// The Int64 value inside `value`; for another kind, an error that holds
    /// a copy of `value`.
    fn try_from(value: &'a MetadataValue) -> (r: core::result::Result<Self, Self::Error>)
        ensures
            match value {
                MetadataValue::Int64(v) => r == Ok::<i64, MetadataTypeError>(*v),
                _ => r matches Err(e) && e.expected@ == "Int64"@ && e.found@ == value@,
            },
    {
        match value {
            MetadataValue::Int64(v) => Ok(*v),
            other => Err(MetadataTypeError { expected: "Int64", found: other.clone() }),
        }
    }
}

impl<'a> vstd::std_specs::convert::TryFromSpecImpl<&'a MetadataValue> for i64 {
    open spec fn obeys_try_from_spec() -> bool {
        false
    }

    open spec fn try_from_spec(v: &'a MetadataValue) -> core::result::Result<i64, MetadataTypeError> {
        Err(MetadataTypeError { expected: "Int64", found: *v })
    }
}

impl TryFrom<MetadataValue> for String {
    type Error = MetadataTypeError;

    fn try_from(value: MetadataValue) -> (r: core::result::Result<Self, Self::Error>) {
        match value {
            MetadataValue::String(v) => Ok(v),
            other => Err(MetadataTypeError { expected: "String", found: other }),
        }
    }
}

impl vstd::std_specs::convert::TryFromSpecImpl<MetadataValue> for String {
    open spec fn obeys_try_from_spec() -> bool {
        true
    }

    open spec fn try_from_spec(v: MetadataValue) -> core::result::Result<String, MetadataTypeError> {
        match v {
            MetadataValue::String(x) => Ok(x),
            other => Err(MetadataTypeError { expected: "String", found: other }),
        }
    }
}

impl<'a> TryFrom<&'a MetadataValue> for String {
    type Error = MetadataTypeError;

    /// The String value inside `value`; for another kind, an error that holds
    /// a copy of `value`.
    fn try_from(value: &'a MetadataValue) -> (r: core::result::Result<Self, Self::Error>)
        ensures
            match value {
                MetadataValue::String(v) => r matches Ok(x) && x@ == v@,
                _ => r matches Err(e) && e.expected@ == "String"@ && e.found@ == value@,
            },
    {
        match value {
            MetadataValue::String(v) => Ok(v.clone()),
            other => Err(MetadataTypeError { expected: "String", found: other.clone() }),
        }
    }
}

impl<'a> vstd::std_specs::convert::TryFromSpecImpl<&'a MetadataValue> for String {
    open spec fn obeys_try_from_spec() -> bool {
        false
    }

    open spec fn try_from_spec(v: &'a MetadataValue) -> core::result::Result<String, MetadataTypeError> {
        Err(MetadataTypeError { expected: "String", found: *v })
    }
}

impl TryFrom<MetadataValue> for Vec<MetadataValue> {
    type Error = MetadataTypeError;

    fn try_from(value: MetadataValue) -> (r: core::result::Result<Self, Self::Error>) {
        match value {
            MetadataValue::Array(v) => Ok(v),
            other => Err(MetadataTypeError { expected: "Array", found: other }),
        }
    }
}

impl vstd::std_specs::convert::TryFromSpecImpl<MetadataValue> for Vec<MetadataValue> {
    open spec fn obeys_try_from_spec() -> bool {
        true
    }

    open spec fn try_from_spec(v: MetadataValue) -> core::result::Result<Vec<MetadataValue>, MetadataTypeError> {
        match v {
            MetadataValue::Array(x) => Ok(x),
            other => Err(MetadataTypeError { expected: "Array", found: other }),
        }
    }
}

impl<'a> TryFrom<&'a MetadataValue> for Vec<MetadataValue> {
    type Error = MetadataTypeError;

    /// The Array value inside `value`; for another kind, an error that holds
    /// a copy of `value`.
    fn try_from(value: &'a MetadataValue) -> (r: core::result::Result<Self, Self::Error>)
        ensures
            match value {
                MetadataValue::Array(v) => r matches Ok(x) && values_view(x@) == values_view(v@),
                _ => r matches Err(e) && e.expected@ == "Array"@ && e.found@ == value@,
            },
    {
        match value {
            MetadataValue::Array(_) => {
                let copy = value.clone();
                match copy {
                    MetadataValue::Array(v) => Ok(v),
                    _ => Err(MetadataTypeError { expected: "Array", found: copy }),
                }
            },
            other => Err(MetadataTypeError { expected: "Array", found: other.clone() }),
        }
    }
}

impl<'a> vstd::std_specs::convert::TryFromSpecImpl<&'a MetadataValue> for Vec<MetadataValue> {
    open spec fn obeys_try_from_spec() -> bool {
        false
    }

    open spec fn try_from_spec(v: &'a MetadataValue) -> core::result::Result<Vec<MetadataValue>, MetadataTypeError> {
        Err(MetadataTypeError { expected: "Array", found: *v })
    }
}

} // verus!
