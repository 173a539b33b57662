//! Text that the library prints: numbers in decimal and hexadecimal, the
//! short form of large counts, and the names of quantization file types.
use vstd::prelude::*;

verus! {

/// The decimal digit `d`.
pub open spec fn digit_char(d: nat) -> char {
    (48 + d) as char
}

/// The lowercase hexadecimal digit `d`.
pub open spec fn hex_char(d: nat) -> char {
    if d < 10 {
        (48 + d) as char
    } else {
        (87 + d) as char
    }
}

/// `n` in decimal, without leading zeros.
pub open spec fn decimal(n: nat) -> Seq<char>
    decreases n,
{
    if n < 10 {
        seq![digit_char(n)]
    } else {
        decimal(n / 10).push(digit_char(n % 10))
    }
}

/// `v` in decimal, with a minus sign in front when negative.
pub open spec fn signed_decimal(v: int) -> Seq<char> {
    if v < 0 {
        seq!['-'] + decimal((-v) as nat)
    } else {
        decimal(v as nat)
    }
}

/// The last `width` hexadecimal digits of `n`, zeros in front.
pub open spec fn hex_digits(n: nat, width: nat) -> Seq<char>
    decreases width,
{
    if width == 0 {
        Seq::empty()
    } else {
        hex_digits(n / 16, (width - 1) as nat).push(hex_char(n % 16))
    }
}

/// `value / divisor` rounded to the nearest whole number, halves to the
/// even neighbour.
pub open spec fn rounded_quotient(value: nat, divisor: nat) -> nat
    recommends
        divisor > 0,
{
    let q = value / divisor;
    let r = value % divisor;
    if 2 * r > divisor || (2 * r == divisor && q % 2 == 1) {
        q + 1
    } else {
        q
    }
}

/// The short form of a count: above a billion, above a million and above a
/// thousand, the rounded number of billions, millions or thousands followed
/// by `B`, `M` or `K`; otherwise the count itself.
pub open spec fn human_text(value: u64) -> Seq<char> {
    if value > 1_000_000_000 {
        decimal(rounded_quotient(value as nat, 1_000_000_000)).push('B')
    } else if value > 1_000_000 {
        decimal(rounded_quotient(value as nat, 1_000_000)).push('M')
    } else if value > 1_000 {
        decimal(rounded_quotient(value as nat, 1_000)).push('K')
    } else {
        decimal(value as nat)
    }
}

/// `String::push`: `c` appended to `s`.
#[verifier::external_body]
pub(crate) fn push_char(s: &mut String, c: char)
    ensures
        final(s)@ == old(s)@.push(c),
{
    s.push(c)
}

fn digit(d: u64) -> (c: char)
    requires
        d < 10,
    ensures
        c == digit_char(d as nat),
{
    let b: u8 = 48u8 + d as u8;
    b as char
}

fn hex_digit(d: u32) -> (c: char)
    requires
        d < 16,
    ensures
        c == hex_char(d as nat),
{
    let b: u8 = if d < 10 {
        48u8 + d as u8
    } else {
        87u8 + d as u8
    };
    b as char
}

/// Appends `n` in decimal to `s`.
pub fn push_decimal(s: &mut String, n: u64)
    ensures
        final(s)@ == old(s)@ + decimal(n as nat),
    decreases n,
{
    if n < 10 {
        push_char(s, digit(n));
        assert(decimal(n as nat) == seq![digit_char(n as nat)]);
    } else {
        push_decimal(s, n / 10);
        push_char(s, digit(n % 10));
        assert(old(s)@ + decimal(n as nat) == old(s)@ + decimal((n / 10) as nat) + seq![digit_char((n % 10) as nat)]);
    }
}

/// Appends `v` in decimal to `s`, with a minus sign when negative.
pub fn push_signed_decimal(s: &mut String, v: i64)
    requires
        v > i64::MIN,
    ensures
        final(s)@ == old(s)@ + signed_decimal(v as int),
{
    if v < 0 {
        push_char(s, '-');
        push_decimal(s, (-v) as u64);
        assert(old(s)@ + signed_decimal(v as int) == old(s)@.push('-') + decimal((-v) as nat));
    } else {
        push_decimal(s, v as u64);
    }
}

/// Appends the last `width` hexadecimal digits of `n` to `s`.
pub fn push_hex(s: &mut String, n: u32, width: u32)
    ensures
        final(s)@ == old(s)@ + hex_digits(n as nat, width as nat),
    decreases width,
{
    if width > 0 {
        push_hex(s, n / 16, width - 1);
        push_char(s, hex_digit(n % 16));
        assert(old(s)@ + hex_digits(n as nat, width as nat) == old(s)@ + hex_digits((n / 16) as nat, (width - 1) as nat) + seq![hex_char((n % 16) as nat)]);
    } else {
        assert(old(s)@ + hex_digits(n as nat, 0) == old(s)@);
    }
}

/// `value / divisor` rounded to the nearest whole number, halves to the
/// even neighbour.
fn round_div(value: u64, divisor: u64) -> (r: u64)
    requires
        divisor > 1,
    ensures
        r as nat == rounded_quotient(value as nat, divisor as nat),
{
    let q = value / divisor;
    let r = value % divisor;
    assert(q < 0xffff_ffff_ffff_ffff) by (nonlinear_arith)
        requires
            divisor > 1,
            q == value / divisor,
            value <= 0xffff_ffff_ffff_ffff,
    ;
    if r > divisor - r || (r == divisor - r && q % 2 == 1) {
        q + 1
    } else {
        q
    }
}

/// Convert a number to a human-readable string: the number of billions,
/// millions or thousands (rounded to the nearest, halves to even) with the
/// suffix `B`, `M` or `K` when the number exceeds that unit, the number
/// itself otherwise. `1001` is `1K`, `1000` is `1000`, `1500` is `2K`.
pub fn human_number(value: u64) -> (r: String)
    ensures
        r@ == human_text(value),
{
    let mut s = String::new();
    if value > 1_000_000_000 {
        push_decimal(&mut s, round_div(value, 1_000_000_000));
        push_char(&mut s, 'B');
    } else if value > 1_000_000 {
        push_decimal(&mut s, round_div(value, 1_000_000));
        push_char(&mut s, 'M');
    } else if value > 1_000 {
        push_decimal(&mut s, round_div(value, 1_000));
        push_char(&mut s, 'K');
    } else {
        push_decimal(&mut s, value);
    }
    s
}

/// The description of the quantization file type `ft`, as stored under
/// `general.file_type`; `unknown` for a number that stands for none.
pub open spec fn file_type_name(ft: u64) -> Seq<char> {
    if ft == 0 {
        "All F32"@
    } else if ft == 1 {
        "Mostly F16"@
    } else if ft == 2 {
        "Mostly Q4_0"@
    } else if ft == 3 {
        "Mostly Q4_1"@
    } else if ft == 4 {
        "Mostly Q4_1 Some F16"@
    } else if ft == 5 {
        "Mostly Q4_2 (UNSUPPORTED)"@
    } else if ft == 6 {
        "Mostly Q4_3 (UNSUPPORTED)"@
    } else if ft == 7 {
        "Mostly Q8_0"@
    } else if ft == 8 {
        "Mostly Q5_0"@
    } else if ft == 9 {
        "Mostly Q5_1"@
    } else if ft == 10 {
        "Mostly Q2_K"@
    } else if ft == 11 {
        "Mostly Q3_K_S"@
    } else if ft == 12 {
        "Mostly Q3_K_M"@
    } else if ft == 13 {
        "Mostly Q3_K_L"@
    } else if ft == 14 {
        "Mostly Q6_K"@
    } else if ft == 15 {
        "Mostly Q4_K_M"@
    } else if ft == 16 {
        "Mostly Q5_K_S"@
    } else if ft == 17 {
        "Mostly Q5_K_M"@
    } else if ft == 18 {
        "Mostly Q6_K"@
    } else if ft == 19 {
        "Mostly IQ2_XXS"@
    } else if ft == 20 {
        "Mostly IQ2_XS"@
    } else if ft == 21 {
        "Mostly Q2_K_S"@
    } else if ft == 22 {
        "Mostly IQ3_XS"@
    } else if ft == 23 {
        "Mostly IQ3_XXS"@
    } else if ft == 24 {
        "Mostly BF16"@
    } else if ft == 25 {
        "Mostly IQ4_NL"@
    } else if ft == 26 {
        "Mostly IQ3_S"@
    } else if ft == 27 {
        "Mostly IQ3_M"@
    } else if ft == 28 {
        "Mostly IQ2_S"@
    } else if ft == 29 {
        "Mostly IQ2_M"@
    } else if ft == 30 {
        "Mostly IQ4_XS"@
    } else if ft == 31 {
        "Mostly IQ1_M"@
    } else if ft == 32 {
        "Mostly BF16"@
    } else if ft == 33 {
        "Mostly Q4_0_4_4 (UNSUPPORTED)"@
    } else if ft == 34 {
        "Mostly Q4_0_4_8 (UNSUPPORTED)"@
    } else if ft == 35 {
        "Mostly Q4_0_8_8 (UNSUPPORTED)"@
    } else if ft == 36 {
        "Mostly TQ1_0"@
    } else if ft == 37 {
        "Mostly TQ2_0"@
    } else if ft == 38 {
        "Mostly MXFP4_MOE"@
    } else if ft == 39 {
        "Mostly NVFP4"@
    } else if ft == 40 {
        "Mostly Q1_0"@
    } else {
        "unknown"@
    }
}

/// Convert a file type to a human-readable string, such as `Mostly Q4_0`;
/// `unknown` for a number that stands for no file type.
pub fn file_type(ft: u64) -> (r: String)
    ensures
        r@ == file_type_name(ft),
{
    let s: &str = match ft {
        0 => "All F32",
        1 => "Mostly F16",
        2 => "Mostly Q4_0",
        3 => "Mostly Q4_1",
        4 => "Mostly Q4_1 Some F16",
        5 => "Mostly Q4_2 (UNSUPPORTED)",
        6 => "Mostly Q4_3 (UNSUPPORTED)",
        7 => "Mostly Q8_0",
        8 => "Mostly Q5_0",
        9 => "Mostly Q5_1",
        10 => "Mostly Q2_K",
        11 => "Mostly Q3_K_S",
        12 => "Mostly Q3_K_M",
        13 => "Mostly Q3_K_L",
        14 => "Mostly Q6_K",
        15 => "Mostly Q4_K_M",
        16 => "Mostly Q5_K_S",
        17 => "Mostly Q5_K_M",
        18 => "Mostly Q6_K",
        19 => "Mostly IQ2_XXS",
        20 => "Mostly IQ2_XS",
        21 => "Mostly Q2_K_S",
        22 => "Mostly IQ3_XS",
        23 => "Mostly IQ3_XXS",
        24 => "Mostly BF16",
        25 => "Mostly IQ4_NL",
        26 => "Mostly IQ3_S",
        27 => "Mostly IQ3_M",
        28 => "Mostly IQ2_S",
        29 => "Mostly IQ2_M",
        30 => "Mostly IQ4_XS",
        31 => "Mostly IQ1_M",
        32 => "Mostly BF16",
        33 => "Mostly Q4_0_4_4 (UNSUPPORTED)",
        34 => "Mostly Q4_0_4_8 (UNSUPPORTED)",
        35 => "Mostly Q4_0_8_8 (UNSUPPORTED)",
        36 => "Mostly TQ1_0",
        37 => "Mostly TQ2_0",
        38 => "Mostly MXFP4_MOE",
        39 => "Mostly NVFP4",
        40 => "Mostly Q1_0",
        _ => "unknown",
    };
    s.to_owned()
}

} // verus!
