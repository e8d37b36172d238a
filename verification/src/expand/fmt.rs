//! Formatting of popped values for the `%d`, `%o`, `%x`, `%X` and `%s`
//! escapes, with printf-like flags, width and precision.

use vstd::prelude::*;

use crate::error::Expand;
use crate::expand::{Parameter, PV};

verus! {

/// The formatter selected by the final byte of a format escape.
#[derive(Eq, PartialEq, Copy, Clone, Debug)]
pub enum Format {
    /// `%d`: signed decimal.
    Dec,
    /// `%o`: octal of the two's-complement bits.
    Oct,
    /// `%x`: lowercase hexadecimal of the two's-complement bits.
    Hex,
    /// `%X`: uppercase hexadecimal of the two's-complement bits.
    UpperHex,
    /// `%s`: the bytes of a string parameter.
    Str,
}

/// Where parsing stands inside a format escape: before the width, inside the
/// width digits, or inside the precision digits.
#[derive(Eq, PartialEq, Copy, Clone, Debug)]
pub enum FormatState {
    Flags,
    Width,
    Precision,
}

/// The flags gathered while parsing a format escape.  Width and precision are
/// 32-bit; overflowing them is reported as an error.
#[derive(Eq, PartialEq, Copy, Clone, Debug)]
pub struct Flags {
    pub width: i32,
    pub precision: i32,
    pub alternate: bool,
    pub left: bool,
    pub sign: bool,
    pub space: bool,
}

impl Flags {
    /// The flags a bare `%d`-style escape formats with.
    pub open spec fn spec_default() -> Flags {
        Flags { width: 0, precision: 0, alternate: false, left: false, sign: false, space: false }
    }

    /// The flags a bare `%d`-style escape formats with.
    pub fn empty() -> (r: Flags)
        ensures
            r == Flags::spec_default(),
    {
        Flags { width: 0, precision: 0, alternate: false, left: false, sign: false, space: false }
    }
}

/// `k` copies of the byte `b` (none when `k` is negative).
pub open spec fn byte_repeat(b: u8, k: int) -> Seq<u8> {
    Seq::new(if k < 0 { 0 } else { k as nat }, |i: int| b)
}

/// `s` padded on the left with zeroes up to length `w`.
pub open spec fn zpad(s: Seq<u8>, w: int) -> Seq<u8> {
    if s.len() >= w {
        s
    } else {
        byte_repeat(48u8, w - s.len()) + s
    }
}

/// The ASCII digit for the value `d`, in the requested case.
pub open spec fn digit_ascii(d: int, upper: bool) -> u8 {
    if d < 10 {
        (48 + d) as u8
    } else if upper {
        (65 + (d - 10)) as u8
    } else {
        (97 + (d - 10)) as u8
    }
}

/// The ASCII digits of `n` in the given base, most significant first, with no
/// sign and no padding.
pub open spec fn digits(n: int, base: int, upper: bool) -> Seq<u8>
    recommends
        n >= 0,
        base == 8 || base == 10 || base == 16,
    decreases n,
        when base >= 2
        via digits_decreases
{
    if n < base {
        seq![digit_ascii(n, upper)]
    } else {
        digits(n / base, base, upper).push(digit_ascii(n % base, upper))
    }
}

#[via_fn]
proof fn digits_decreases(n: int, base: int, upper: bool) {
    if n >= base {
        assert(n / base < n) by (nonlinear_arith)
            requires
                n >= base >= 2,
        ;
    }
}

/// The ASCII decimal representation of a 32-bit number: its digits, behind
/// a minus sign when it is negative.
pub open spec fn ascii_decimal(v: i32) -> Seq<u8> {
    if v < 0 {
        seq![45u8] + digits(-(v as int), 10, false)
    } else {
        digits(v as int, 10, false)
    }
}

/// The two's-complement bits of a 32-bit value, as a non-negative integer.
pub open spec fn to_u32(v: i32) -> int {
    if v >= 0 {
        v as int
    } else {
        v as int + 0x1_0000_0000
    }
}

/// A formatted number, before width padding: the exact bytes Rust's
/// sign-aware zero-padding produces for the corresponding format string.
pub open spec fn fmt_num(v: i32, f: Format, flags: Flags) -> Result<Seq<u8>, Expand> {
    let p = flags.precision as int;
    match f {
        Format::Dec => {
            if flags.sign {
                if v >= 0 {
                    Ok(seq![43u8] + zpad(digits(v as int, 10, false), p - 1))
                } else {
                    Ok(seq![45u8] + zpad(digits(-(v as int), 10, false), p - 1))
                }
            } else if v < 0 {
                Ok(seq![45u8] + zpad(digits(-(v as int), 10, false), p))
            } else if flags.space {
                Ok(seq![32u8] + zpad(digits(v as int, 10, false), p))
            } else {
                Ok(zpad(digits(v as int, 10, false), p))
            }
        },
        Format::Oct => {
            if flags.alternate {
                Ok(seq![48u8] + zpad(digits(to_u32(v), 8, false), p - 1))
            } else {
                Ok(zpad(digits(to_u32(v), 8, false), p))
            }
        },
        Format::Hex => {
            if flags.alternate && v != 0 {
                Ok(seq![48u8, 120u8] + zpad(digits(to_u32(v), 16, false), p))
            } else {
                Ok(zpad(digits(to_u32(v), 16, false), p))
            }
        },
        Format::UpperHex => {
            if flags.alternate && v != 0 {
                Ok(seq![48u8, 88u8] + zpad(digits(to_u32(v), 16, true), p))
            } else {
                Ok(zpad(digits(to_u32(v), 16, true), p))
            }
        },
        Format::Str => Err(Expand::TypeMismatch),
    }
}

/// A formatted string parameter, before width padding: truncated to the
/// precision when one is given.
pub open spec fn fmt_str(s: Seq<u8>, f: Format, flags: Flags) -> Result<Seq<u8>, Expand> {
    match f {
        Format::Str => {
            if flags.precision > 0 && (flags.precision as int) < s.len() {
                Ok(s.take(flags.precision as int))
            } else {
                Ok(s)
            }
        },
        _ => Err(Expand::TypeMismatch),
    }
}

/// `s` padded with spaces up to the width: on the right when left-justified,
/// else on the left.
pub open spec fn pad_width(s: Seq<u8>, flags: Flags) -> Seq<u8> {
    if s.len() < flags.width as int {
        if flags.left {
            s + byte_repeat(32u8, flags.width as int - s.len())
        } else {
            byte_repeat(32u8, flags.width as int - s.len()) + s
        }
    } else {
        s
    }
}

/// What a format escape emits for the popped value `arg`: the formatted
/// value padded to the width, or a type mismatch.
pub open spec fn format_pv(arg: PV, f: Format, flags: Flags) -> Result<Seq<u8>, Expand> {
    match arg {
        PV::Num(v) => match fmt_num(v, f, flags) {
            Ok(s) => Ok(pad_width(s, flags)),
            Err(e) => Err(e),
        },
        PV::Str(s) => match fmt_str(s, f, flags) {
            Ok(s2) => Ok(pad_width(s2, flags)),
            Err(e) => Err(e),
        },
    }
}

/// Appends `k` copies of `b` to `out`.
fn push_repeat(out: &mut Vec<u8>, b: u8, k: usize)
    ensures
        final(out)@ == old(out)@ + byte_repeat(b, k as int),
{
    let mut i: usize = 0;
    while i < k
        invariant
            i <= k,
            out@ == old(out)@ + byte_repeat(b, i as int),
        decreases k - i,
    {
        out.push(b);
        assert(out@ =~= old(out)@ + byte_repeat(b, i as int + 1));
        i = i + 1;
    }
    assert(out@ =~= old(out)@ + byte_repeat(b, k as int));
}

/// Appends all of `src` to `out`.
pub(crate) fn push_all(out: &mut Vec<u8>, src: &Vec<u8>)
    ensures
        final(out)@ == old(out)@ + src@,
{
    let mut i: usize = 0;
    while i < src.len()
        invariant
            i <= src.len(),
            out@ == old(out)@ + src@.take(i as int),
        decreases src.len() - i,
    {
        out.push(src[i]);
        assert(out@ =~= old(out)@ + src@.take(i as int + 1));
        i = i + 1;
    }
    assert(out@ =~= old(out)@ + src@);
}

/// Appends the digits of `n` in the given base to `out`.
fn emit_digits(out: &mut Vec<u8>, n: u32, base: u32, upper: bool)
    requires
        base == 8 || base == 10 || base == 16,
    ensures
        final(out)@ == old(out)@ + digits(n as int, base as int, upper),
    decreases n,
{
    if n < base {
        out.push(digit_char(n, upper));
        assert(out@ =~= old(out)@ + digits(n as int, base as int, upper));
    } else {
        emit_digits(out, n / base, base, upper);
        out.push(digit_char(n % base, upper));
        assert(out@ =~= old(out)@ + digits(n as int, base as int, upper));
    }
}

/// The ASCII digit for the value `d`, in the requested case.
fn digit_char(d: u32, upper: bool) -> (r: u8)
    requires
        d < 16,
    ensures
        r == digit_ascii(d as int, upper),
{
    if d < 10 {
        48 + (d as u8)
    } else if upper {
        65 + ((d as u8) - 10)
    } else {
        97 + ((d as u8) - 10)
    }
}

/// The digits of `n` in the given base, as a fresh buffer.
fn make_digits(n: u32, base: u32, upper: bool) -> (r: Vec<u8>)
    requires
        base == 8 || base == 10 || base == 16,
    ensures
        r@ == digits(n as int, base as int, upper),
{
    let mut out: Vec<u8> = Vec::new();
    emit_digits(&mut out, n, base, upper);
    out
}

/// The number of zeroes that pad `body` up to the 32-bit length `w`.
fn zpad_need(body_len: usize, w: i32) -> (r: usize)
    ensures
        r as int == if body_len as int >= w as int {
            0int
        } else {
            w as int - body_len as int
        },
{
    if w <= 0 {
        0
    } else if (w as usize) <= body_len {
        0
    } else {
        (w as usize) - body_len
    }
}

/// Assembles an optional one- or two-byte prefix, zero padding to the 32-bit
/// length `p`, and the digit bytes.
fn assemble_num(prefix: &Vec<u8>, body: Vec<u8>, p: i32) -> (r: Vec<u8>)
    ensures
        r@ == prefix@ + zpad(body@, p as int),
{
    let mut out: Vec<u8> = Vec::new();
    push_all(&mut out, prefix);
    let need = zpad_need(body.len(), p);
    push_repeat(&mut out, 48, need);
    push_all(&mut out, &body);
    assert(out@ =~= prefix@ + zpad(body@, p as int));
    out
}

/// Pads `body` with spaces to the width in `flags`.
fn apply_width(body: Vec<u8>, flags: &Flags) -> (r: Vec<u8>)
    ensures
        r@ == pad_width(body@, *flags),
{
    let ghost b0 = body@;
    if flags.width > 0 && (flags.width as usize) > body.len() {
        let pad = (flags.width as usize) - body.len();
        if flags.left {
            let mut out = body;
            push_repeat(&mut out, 32, pad);
            assert(out@ =~= pad_width(b0, *flags));
            out
        } else {
            let mut out: Vec<u8> = Vec::new();
            push_repeat(&mut out, 32, pad);
            push_all(&mut out, &body);
            assert(out@ =~= pad_width(b0, *flags));
            out
        }
    } else {
        assert(body@ =~= pad_width(b0, *flags));
        body
    }
}

/// The magnitude of `v` as an unsigned 32-bit value.
fn magnitude(v: i32) -> (r: u32)
    ensures
        v >= 0 ==> r as int == v as int,
        v < 0 ==> r as int == -(v as int),
{
    if v >= 0 {
        v as u32
    } else {
        (-(v as i64)) as u32
    }
}

/// The two's-complement bits of `v` as an unsigned 32-bit value.
fn bits_u32(v: i32) -> (r: u32)
    ensures
        r as int == to_u32(v),
{
    if v >= 0 {
        v as u32
    } else {
        ((v as i64) + 0x1_0000_0000i64) as u32
    }
}

/// Formats `arg` as the escape asks: the spec-level result realized as bytes.
pub(crate) fn format_param(arg: &Parameter, f: Format, flags: &Flags) -> (r: Result<Vec<u8>, Expand>)
    ensures
        match format_pv(arg@, f, *flags) {
            Ok(bs) => r matches Ok(v) && v@ == bs,
            Err(e) => r matches Err(e2) && e2 == e,
        },
{
    match arg {
        Parameter::Number(value) => {
            let v = *value;
            let p = flags.precision;
            let body: Vec<u8> = match f {
                Format::Str => {
                    return Err(Expand::TypeMismatch);
                },
                Format::Dec => {
                    let mag = make_digits(magnitude(v), 10, false);
                    let mut prefix: Vec<u8> = Vec::new();
                    if flags.sign {
                        if v >= 0 {
                            prefix.push(43);
                        } else {
                            prefix.push(45);
                        }
                        assemble_num(&prefix, mag, if p > 0 { p - 1 } else { 0 })
                    } else if v < 0 {
                        prefix.push(45);
                        assemble_num(&prefix, mag, p)
                    } else if flags.space {
                        prefix.push(32);
                        assemble_num(&prefix, mag, p)
                    } else {
                        assemble_num(&prefix, mag, p)
                    }
                },
                Format::Oct => {
                    let mag = make_digits(bits_u32(v), 8, false);
                    let mut prefix: Vec<u8> = Vec::new();
                    if flags.alternate {
                        prefix.push(48);
                        assemble_num(&prefix, mag, if p > 0 { p - 1 } else { 0 })
                    } else {
                        assemble_num(&prefix, mag, p)
                    }
                },
                Format::Hex => {
                    let mag = make_digits(bits_u32(v), 16, false);
                    let mut prefix: Vec<u8> = Vec::new();
                    if flags.alternate && v != 0 {
                        prefix.push(48);
                        prefix.push(120);
                    }
                    assemble_num(&prefix, mag, p)
                },
                Format::UpperHex => {
                    let mag = make_digits(bits_u32(v), 16, true);
                    let mut prefix: Vec<u8> = Vec::new();
                    if flags.alternate && v != 0 {
                        prefix.push(48);
                        prefix.push(88);
                    }
                    assemble_num(&prefix, mag, p)
                },
            };
            Ok(apply_width(body, flags))
        },
        Parameter::String(value) => {
            match f {
                Format::Str => {
                    let body: Vec<u8> = if flags.precision > 0 && (flags.precision as usize)
                        < value.len() {
                        let mut out: Vec<u8> = Vec::new();
                        let mut i: usize = 0;
                        let k = flags.precision as usize;
                        while i < k
                            invariant
                                i <= k,
                                k <= value@.len(),
                                out@ == value@.take(i as int),
                            decreases k - i,
                        {
                            out.push(value[i]);
                            assert(out@ =~= value@.take(i as int + 1));
                            i = i + 1;
                        }
                        out
                    } else {
                        let mut out: Vec<u8> = Vec::new();
                        push_all(&mut out, value);
                        out
                    };
                    Ok(apply_width(body, flags))
                },
                _ => Err(Expand::TypeMismatch),
            }
        },
    }
}

} // verus!
