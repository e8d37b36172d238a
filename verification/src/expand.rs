//! Expansion of parameterized string capabilities.
//!
//! A string capability carries a small stack language introduced by `%`
//! escapes.  [`expand`] interprets that language over a parameter list and a
//! persistent [`Context`], producing the bytes the terminal expects.  The
//! meaning of every escape is fixed by the abstract machine in
//! [`machine`], and [`expand`] is proved to realize it exactly.

pub mod fmt;
pub mod laws;
pub mod machine;

use vstd::prelude::*;

use crate::error::Error;
use crate::expand::fmt::{format_param, Flags, Format, FormatState};
use crate::expand::machine::{Machine, St};

verus! {

/// An expansion parameter: a 32-bit number or a byte string.
#[derive(Eq, PartialEq, Clone, Debug)]
pub enum Parameter {
    /// A number.
    Number(i32),
    /// A byte string.
    String(Vec<u8>),
}

/// The mathematical value of a [`Parameter`].
#[verifier::ext_equal]
pub ghost enum PV {
    Num(i32),
    Str(Seq<u8>),
}

impl View for Parameter {
    type V = PV;

    open spec fn view(&self) -> PV {
        match self {
            Parameter::Number(n) => PV::Num(*n),
            Parameter::String(v) => PV::Str(v@),
        }
    }
}

/// The views of a sequence of parameters.
pub open spec fn views_of(ps: Seq<Parameter>) -> Seq<PV> {
    ps.map_values(|p: Parameter| p@)
}

impl Default for Parameter {
    /// The default parameter is the number zero.
    fn default() -> (r: Self)
        ensures
            r@ == PV::Num(0),
    {
        Parameter::Number(0)
    }
}

/// The expansion context: twenty-six static variables `A..Z`, which persist
/// for the lifetime of a database, and twenty-six dynamic variables `a..z`.
/// The same context should be passed through every expansion for the same
/// database.
#[derive(Debug)]
pub struct Context {
    pub fixed: [Parameter; 26],
    pub dynamic: [Parameter; 26],
}

/// The mathematical value of a [`Context`]: the two variable banks.
#[verifier::ext_equal]
pub ghost struct CtxV {
    pub fixed: Seq<PV>,
    pub dynamic: Seq<PV>,
}

impl View for Context {
    type V = CtxV;

    open spec fn view(&self) -> CtxV {
        CtxV {
            fixed: views_of(self.fixed@),
            dynamic: views_of(self.dynamic@),
        }
    }
}

/// A bank of twenty-six zero parameters.
fn zero_bank() -> (r: [Parameter; 26])
    ensures
        views_of(r@) =~= Seq::new(26, |i: int| PV::Num(0)),
{
    let r: [Parameter; 26] = [
        Parameter::Number(0),
        Parameter::Number(0),
        Parameter::Number(0),
        Parameter::Number(0),
        Parameter::Number(0),
        Parameter::Number(0),
        Parameter::Number(0),
        Parameter::Number(0),
        Parameter::Number(0),
        Parameter::Number(0),
        Parameter::Number(0),
        Parameter::Number(0),
        Parameter::Number(0),
        Parameter::Number(0),
        Parameter::Number(0),
        Parameter::Number(0),
        Parameter::Number(0),
        Parameter::Number(0),
        Parameter::Number(0),
        Parameter::Number(0),
        Parameter::Number(0),
        Parameter::Number(0),
        Parameter::Number(0),
        Parameter::Number(0),
        Parameter::Number(0),
        Parameter::Number(0),
    ];
    r
}

impl Default for Context {
    /// A fresh context holds the number zero in every variable.
    fn default() -> (r: Self)
        ensures
            r@.fixed =~= Seq::new(26, |i: int| PV::Num(0)),
            r@.dynamic =~= Seq::new(26, |i: int| PV::Num(0)),
    {
        Context { fixed: zero_bank(), dynamic: zero_bank() }
    }
}

/// Copies a byte buffer.
fn copy_bytes(src: &Vec<u8>) -> (r: Vec<u8>)
    ensures
        r@ == src@,
{
    let mut out: Vec<u8> = Vec::new();
    let mut i: usize = 0;
    while i < src.len()
        invariant
            i <= src.len(),
            out@ == src@.take(i as int),
        decreases src.len() - i,
    {
        out.push(src[i]);
        assert(out@ =~= src@.take(i as int + 1));
        i = i + 1;
    }
    assert(out@ =~= src@);
    out
}

/// Copies a parameter.
fn dup_param(p: &Parameter) -> (r: Parameter)
    ensures
        r@ == p@,
{
    match p {
        Parameter::Number(n) => Parameter::Number(*n),
        Parameter::String(v) => Parameter::String(copy_bytes(v)),
    }
}

/// The control state between two input bytes; the executable twin of
/// [`machine::St`].
#[derive(Copy, Clone, Debug)]
enum State {
    Input,
    Begin,
    Push,
    SetVar,
    GetVar,
    CharOpen,
    CharClose,
    IntConst(i32),
    Fmt(Flags, FormatState),
    SeekElse(usize),
    SeekElsePct(usize),
    SeekEnd(usize),
    SeekEndPct(usize),
}

/// The abstract control state an executable state stands for.
spec fn st_view(s: State) -> St {
    match s {
        State::Input => St::Input,
        State::Begin => St::Begin,
        State::Push => St::Push,
        State::SetVar => St::SetVar,
        State::GetVar => St::GetVar,
        State::CharOpen => St::CharOpen,
        State::CharClose => St::CharClose,
        State::IntConst(n) => St::IntConst(n),
        State::Fmt(f, fs) => St::Fmt(f, fs),
        State::SeekElse(l) => St::SeekElse(l as int),
        State::SeekElsePct(l) => St::SeekElsePct(l as int),
        State::SeekEnd(l) => St::SeekEnd(l as int),
        State::SeekEndPct(l) => St::SeekEndPct(l as int),
    }
}

/// The expansion-local machine parts: control state, output, stack and the
/// nine parameter slots.
struct ExecMachine {
    state: State,
    output: Vec<u8>,
    stack: Vec<Parameter>,
    params: [Parameter; 9],
}

/// The abstract machine an executable machine and a context stand for.
spec fn abs(em: ExecMachine, ctx: Context) -> Machine {
    Machine {
        st: st_view(em.state),
        out: em.output@,
        stack: views_of(em.stack@),
        params: views_of(em.params@),
        fixed: ctx@.fixed,
        dynamic: ctx@.dynamic,
    }
}

/// Nine zero parameters.
fn zero_params() -> (r: [Parameter; 9])
    ensures
        r@.len() == 9,
        forall|i: int| 0 <= i < 9 ==> #[trigger] r@[i]@ == PV::Num(0),
{
    let r: [Parameter; 9] = [
        Parameter::Number(0),
        Parameter::Number(0),
        Parameter::Number(0),
        Parameter::Number(0),
        Parameter::Number(0),
        Parameter::Number(0),
        Parameter::Number(0),
        Parameter::Number(0),
        Parameter::Number(0),
    ];
    r
}

/// Division as the `%/` escape computes it: truncating, by zero yielding
/// zero, wrapping on overflow.
fn num_div(x: i32, y: i32) -> (r: i32)
    ensures
        r == machine::arith2(47u8, x, y),
{
    if y == 0 {
        0
    } else {
        let xa: u32 = if x >= 0 {
            x as u32
        } else {
            (-(x as i64)) as u32
        };
        let ya: u32 = if y >= 0 {
            y as u32
        } else {
            (-(y as i64)) as u32
        };
        let q: u32 = xa / ya;
        assert(xa as int == vstd::math::abs(x as int));
        assert(ya as int == vstd::math::abs(y as int));
        if (x < 0) != (y < 0) {
            let r = (-(q as i64)) as i32;
            assert(r == machine::arith2(47u8, x, y)) by {
                assert(q as int <= xa as int) by (nonlinear_arith)
                    requires
                        q as int == xa as int / ya as int,
                        ya as int >= 1,
                        xa as int >= 0,
                ;
            }
            r
        } else {
            if q >= 0x8000_0000u32 {
                assert(q as int <= xa as int) by (nonlinear_arith)
                    requires
                        q as int == xa as int / ya as int,
                        ya as int >= 1,
                        xa as int >= 0,
                ;
                assert(q == 0x8000_0000u32);
                i32::MIN
            } else {
                q as i32
            }
        }
    }
}

/// Remainder as the `%m` escape computes it: the sign of the dividend, by
/// zero yielding zero.
fn num_rem(x: i32, y: i32) -> (r: i32)
    ensures
        r == machine::arith2(109u8, x, y),
{
    if y == 0 {
        0
    } else {
        let xa: u32 = if x >= 0 {
            x as u32
        } else {
            (-(x as i64)) as u32
        };
        let ya: u32 = if y >= 0 {
            y as u32
        } else {
            (-(y as i64)) as u32
        };
        let m: u32 = xa % ya;
        assert(xa as int == vstd::math::abs(x as int));
        assert(ya as int == vstd::math::abs(y as int));
        assert(m < ya);
        if x < 0 {
            (-(m as i64)) as i32
        } else {
            m as i32
        }
    }
}

/// The formatter a final format byte selects.
fn format_from_byte(ch: u8) -> (r: Format)
    requires
        machine::format_of(ch) is Some,
    ensures
        machine::format_of(ch) == Some(r),
{
    if ch == 100 {
        Format::Dec
    } else if ch == 111 {
        Format::Oct
    } else if ch == 120 {
        Format::Hex
    } else if ch == 88 {
        Format::UpperHex
    } else {
        Format::Str
    }
}

/// Pops a value, formats it, and appends the bytes to the output.
fn do_format(em: &mut ExecMachine, ctx: &Context, f: Format, flags: &Flags) -> (r: Result<
    (),
    crate::error::Expand,
>)
    ensures
        ({
            let s = machine::step_format(abs(*old(em), *ctx), f, *flags);
            match r {
                Ok(()) => s.err is None && abs(*final(em), *ctx) == s.m,
                Err(e) => s.err == Some(e),
            }
        }),
{
    let ghost m0 = abs(*em, *ctx);
    match em.stack.pop() {
        None => Err(crate::error::Expand::StackUnderflow),
        Some(arg) => {
            proof {
                assert(arg@ == m0.stack.last());
                assert(views_of(em.stack@) =~= m0.stack.drop_last());
            }
            match format_param(&arg, f, flags) {
                Ok(bs) => {
                    fmt::push_all(&mut em.output, &bs);
                    em.state = State::Input;
                    proof {
                        assert(abs(*em, *ctx) =~= machine::step_format(m0, f, *flags).m);
                    }
                    Ok(())
                },
                Err(e) => Err(e),
            }
        },
    }
}

/// Pops two numbers and pushes the binary operation on them.
fn do_binary(em: &mut ExecMachine, ctx: &Context, ch: u8, arith: bool) -> (r: Result<
    (),
    crate::error::Expand,
>)
    ensures
        ({
            let s = machine::step_binary(abs(*old(em), *ctx), ch, arith);
            match r {
                Ok(()) => s.err is None && abs(*final(em), *ctx) == s.m,
                Err(e) => s.err == Some(e),
            }
        }),
{
    let ghost m0 = abs(*em, *ctx);
    if em.stack.len() < 2 {
        return Err(crate::error::Expand::StackUnderflow);
    }
    let y = em.stack.pop().unwrap();
    let x = em.stack.pop().unwrap();
    proof {
        assert(y@ == m0.stack[m0.stack.len() - 1]);
        assert(x@ == m0.stack[m0.stack.len() - 2]);
        assert(views_of(em.stack@) =~= m0.stack.take(m0.stack.len() - 2));
    }
    let xv: i32 = match x {
        Parameter::Number(n) => n,
        Parameter::String(_) => {
            return Err(crate::error::Expand::TypeMismatch);
        },
    };
    let yv: i32 = match y {
        Parameter::Number(n) => n,
        Parameter::String(_) => {
            return Err(crate::error::Expand::TypeMismatch);
        },
    };
    let v: i32 = if arith {
        if ch == 43 {
            xv.wrapping_add(yv)
        } else if ch == 45 {
            xv.wrapping_sub(yv)
        } else if ch == 42 {
            xv.wrapping_mul(yv)
        } else if ch == 47 {
            num_div(xv, yv)
        } else if ch == 109 {
            num_rem(xv, yv)
        } else if ch == 94 {
            xv ^ yv
        } else if ch == 38 {
            xv & yv
        } else {
            xv | yv
        }
    } else {
        let b: bool = if ch == 61 {
            xv == yv
        } else if ch == 60 {
            xv < yv
        } else if ch == 62 {
            xv > yv
        } else if ch == 65 {
            xv > 0 && yv > 0
        } else {
            xv > 0 || yv > 0
        };
        if b {
            1
        } else {
            0
        }
    };
    em.stack.push(Parameter::Number(v));
    em.state = State::Input;
    proof {
        assert(abs(*em, *ctx) =~= machine::step_binary(m0, ch, arith).m);
    }
    Ok(())
}

/// Handles the byte after a lone `%`.
fn do_begin(em: &mut ExecMachine, ctx: &Context, ch: u8) -> (r: Result<(), crate::error::Expand>)
    ensures
        ({
            let s = machine::step_begin(abs(*old(em), *ctx), ch);
            match r {
                Ok(()) => s.err is None && abs(*final(em), *ctx) == s.m,
                Err(e) => s.err == Some(e),
            }
        }),
{
    let ghost m0 = abs(*em, *ctx);
    if ch == 63 || ch == 59 {
        // An executed `%?` or `%;` is a no-op; the test happens at `%t`.
        em.state = State::Input;
        proof {
            assert(abs(*em, *ctx) =~= machine::step_begin(m0, ch).m);
        }
        Ok(())
    } else if ch == 37 {
        em.output.push(37);
        em.state = State::Input;
        proof {
            assert(abs(*em, *ctx) =~= machine::step_begin(m0, ch).m);
        }
        Ok(())
    } else if ch == 99 {
        match em.stack.pop() {
            None => Err(crate::error::Expand::StackUnderflow),
            Some(arg) => {
                proof {
                    assert(arg@ == m0.stack.last());
                    assert(views_of(em.stack@) =~= m0.stack.drop_last());
                }
                match arg {
                    Parameter::Number(v) => {
                        let b: u8 = if v == 0 {
                            128
                        } else {
                            let u: u32 = if v >= 0 {
                                v as u32
                            } else {
                                ((v as i64) + 0x1_0000_0000i64) as u32
                            };
                            assert(u as int == crate::expand::fmt::to_u32(v));
                            (u % 256) as u8
                        };
                        em.output.push(b);
                        em.state = State::Input;
                        proof {
                            assert(abs(*em, *ctx) =~= machine::step_begin(m0, ch).m);
                        }
                        Ok(())
                    },
                    Parameter::String(_) => Err(crate::error::Expand::TypeMismatch),
                }
            },
        }
    } else if ch == 112 {
        em.state = State::Push;
        proof {
            assert(abs(*em, *ctx) =~= machine::step_begin(m0, ch).m);
        }
        Ok(())
    } else if ch == 80 {
        em.state = State::SetVar;
        proof {
            assert(abs(*em, *ctx) =~= machine::step_begin(m0, ch).m);
        }
        Ok(())
    } else if ch == 103 {
        em.state = State::GetVar;
        proof {
            assert(abs(*em, *ctx) =~= machine::step_begin(m0, ch).m);
        }
        Ok(())
    } else if ch == 39 {
        em.state = State::CharOpen;
        proof {
            assert(abs(*em, *ctx) =~= machine::step_begin(m0, ch).m);
        }
        Ok(())
    } else if ch == 123 {
        em.state = State::IntConst(0);
        proof {
            assert(abs(*em, *ctx) =~= machine::step_begin(m0, ch).m);
        }
        Ok(())
    } else if ch == 43 || ch == 45 || ch == 47 || ch == 42 || ch == 94 || ch == 38 || ch == 124
        || ch == 109 {
        do_binary(em, ctx, ch, true)
    } else if ch == 61 || ch == 62 || ch == 60 || ch == 65 || ch == 79 {
        do_binary(em, ctx, ch, false)
    } else if ch == 33 || ch == 126 {
        match em.stack.pop() {
            None => Err(crate::error::Expand::StackUnderflow),
            Some(arg) => {
                proof {
                    assert(arg@ == m0.stack.last());
                    assert(views_of(em.stack@) =~= m0.stack.drop_last());
                }
                match arg {
                    Parameter::Number(x) => {
                        let v: i32 = if ch == 33 {
                            if x > 0 {
                                0
                            } else {
                                1
                            }
                        } else {
                            ((-1i64) - (x as i64)) as i32
                        };
                        em.stack.push(Parameter::Number(v));
                        em.state = State::Input;
                        proof {
                            assert(abs(*em, *ctx) =~= machine::step_begin(m0, ch).m);
                        }
                        Ok(())
                    },
                    Parameter::String(_) => Err(crate::error::Expand::TypeMismatch),
                }
            },
        }
    } else if ch == 105 {
        let p0: Option<i32> = match &em.params[0] {
            Parameter::Number(n) => Some(*n),
            Parameter::String(_) => None,
        };
        let p1: Option<i32> = match &em.params[1] {
            Parameter::Number(n) => Some(*n),
            Parameter::String(_) => None,
        };
        match (p0, p1) {
            (Some(x), Some(y)) => {
                em.params[0] = Parameter::Number(x.wrapping_add(1));
                em.params[1] = Parameter::Number(y.wrapping_add(1));
                em.state = State::Input;
                proof {
                    assert(abs(*em, *ctx) =~= machine::step_begin(m0, ch).m);
                }
                Ok(())
            },
            _ => Err(crate::error::Expand::TypeMismatch),
        }
    } else if ch == 100 || ch == 111 || ch == 120 || ch == 88 || ch == 115 {
        let f = format_from_byte(ch);
        let flags = Flags::empty();
        do_format(em, ctx, f, &flags)
    } else if ch == 58 {
        em.state = State::Fmt(Flags::empty(), FormatState::Flags);
        proof {
            assert(abs(*em, *ctx) =~= machine::step_begin(m0, ch).m);
        }
        Ok(())
    } else if ch == 35 {
        let mut flags = Flags::empty();
        flags.alternate = true;
        em.state = State::Fmt(flags, FormatState::Flags);
        proof {
            assert(abs(*em, *ctx) =~= machine::step_begin(m0, ch).m);
        }
        Ok(())
    } else if ch == 32 {
        let mut flags = Flags::empty();
        flags.space = true;
        em.state = State::Fmt(flags, FormatState::Flags);
        proof {
            assert(abs(*em, *ctx) =~= machine::step_begin(m0, ch).m);
        }
        Ok(())
    } else if ch == 46 {
        em.state = State::Fmt(Flags::empty(), FormatState::Precision);
        proof {
            assert(abs(*em, *ctx) =~= machine::step_begin(m0, ch).m);
        }
        Ok(())
    } else if 48 <= ch && ch <= 57 {
        let mut flags = Flags::empty();
        flags.width = (ch - 48) as i32;
        em.state = State::Fmt(flags, FormatState::Width);
        proof {
            assert(abs(*em, *ctx) =~= machine::step_begin(m0, ch).m);
        }
        Ok(())
    } else if ch == 116 {
        match em.stack.pop() {
            None => Err(crate::error::Expand::StackUnderflow),
            Some(arg) => {
                proof {
                    assert(arg@ == m0.stack.last());
                    assert(views_of(em.stack@) =~= m0.stack.drop_last());
                }
                match arg {
                    Parameter::Number(v) => {
                        if v == 0 {
                            em.state = State::SeekElse(0);
                        } else {
                            em.state = State::Input;
                        }
                        proof {
                            assert(abs(*em, *ctx) =~= machine::step_begin(m0, ch).m);
                        }
                        Ok(())
                    },
                    Parameter::String(_) => Err(crate::error::Expand::TypeMismatch),
                }
            },
        }
    } else if ch == 101 {
        em.state = State::SeekEnd(0);
        proof {
            assert(abs(*em, *ctx) =~= machine::step_begin(m0, ch).m);
        }
        Ok(())
    } else {
        Err(crate::error::Expand::UnrecognizedFormatOption(ch))
    }
}

/// Handles a byte inside a format escape.
fn do_fmt(em: &mut ExecMachine, ctx: &Context, flags: Flags, fs: FormatState, ch: u8) -> (r:
    Result<(), crate::error::Expand>)
    requires
        old(em).state == State::Fmt(flags, fs),
    ensures
        ({
            let s = machine::step_fmt(abs(*old(em), *ctx), flags, fs, ch);
            match r {
                Ok(()) => s.err is None && abs(*final(em), *ctx) == s.m,
                Err(e) => s.err == Some(e),
            }
        }),
{
    let ghost m0 = abs(*em, *ctx);
    if ch == 100 || ch == 111 || ch == 120 || ch == 88 || ch == 115 {
        let f = format_from_byte(ch);
        do_format(em, ctx, f, &flags)
    } else if matches!(fs, FormatState::Flags) && ch == 35 {
        let mut nf = flags;
        nf.alternate = true;
        em.state = State::Fmt(nf, fs);
        proof {
            assert(abs(*em, *ctx) =~= machine::step_fmt(m0, flags, fs, ch).m);
        }
        Ok(())
    } else if matches!(fs, FormatState::Flags) && ch == 45 {
        let mut nf = flags;
        nf.left = true;
        em.state = State::Fmt(nf, fs);
        proof {
            assert(abs(*em, *ctx) =~= machine::step_fmt(m0, flags, fs, ch).m);
        }
        Ok(())
    } else if matches!(fs, FormatState::Flags) && ch == 43 {
        let mut nf = flags;
        nf.sign = true;
        em.state = State::Fmt(nf, fs);
        proof {
            assert(abs(*em, *ctx) =~= machine::step_fmt(m0, flags, fs, ch).m);
        }
        Ok(())
    } else if matches!(fs, FormatState::Flags) && ch == 32 {
        let mut nf = flags;
        nf.space = true;
        em.state = State::Fmt(nf, fs);
        proof {
            assert(abs(*em, *ctx) =~= machine::step_fmt(m0, flags, fs, ch).m);
        }
        Ok(())
    } else if matches!(fs, FormatState::Flags) && 48 <= ch && ch <= 57 {
        let mut nf = flags;
        nf.width = (ch - 48) as i32;
        em.state = State::Fmt(nf, FormatState::Width);
        proof {
            assert(abs(*em, *ctx) =~= machine::step_fmt(m0, flags, fs, ch).m);
        }
        Ok(())
    } else if matches!(fs, FormatState::Width) && 48 <= ch && ch <= 57 {
        match flags.width.checked_mul(10) {
            Some(w10) => match w10.checked_add((ch - 48) as i32) {
                Some(w) => {
                    let mut nf = flags;
                    nf.width = w;
                    em.state = State::Fmt(nf, fs);
                    proof {
                        assert(abs(*em, *ctx) =~= machine::step_fmt(m0, flags, fs, ch).m);
                    }
                    Ok(())
                },
                None => Err(crate::error::Expand::FormatWidthOverflow),
            },
            None => Err(crate::error::Expand::FormatWidthOverflow),
        }
    } else if (matches!(fs, FormatState::Width) || matches!(fs, FormatState::Flags)) && ch == 46 {
        em.state = State::Fmt(flags, FormatState::Precision);
        proof {
            assert(abs(*em, *ctx) =~= machine::step_fmt(m0, flags, fs, ch).m);
        }
        Ok(())
    } else if matches!(fs, FormatState::Precision) && 48 <= ch && ch <= 57 {
        match flags.precision.checked_mul(10) {
            Some(p10) => match p10.checked_add((ch - 48) as i32) {
                Some(p) => {
                    let mut nf = flags;
                    nf.precision = p;
                    em.state = State::Fmt(nf, fs);
                    proof {
                        assert(abs(*em, *ctx) =~= machine::step_fmt(m0, flags, fs, ch).m);
                    }
                    Ok(())
                },
                None => Err(crate::error::Expand::FormatPrecisionOverflow),
            },
            None => Err(crate::error::Expand::FormatPrecisionOverflow),
        }
    } else {
        Err(crate::error::Expand::UnrecognizedFormatOption(ch))
    }
}

/// Feeds one input byte to the machine.
fn do_step(em: &mut ExecMachine, context: &mut Context, ch: u8) -> (r: Result<
    (),
    crate::error::Expand,
>)
    requires
        machine::seek_level(abs(*old(em), *old(context)).st) < usize::MAX as int,
    ensures
        ({
            let s = machine::step(abs(*old(em), *old(context)), ch);
            match r {
                Ok(()) => s.err is None && abs(*final(em), *final(context)) == s.m,
                Err(e) => s.err == Some(e) && final(context)@ == old(context)@,
            }
        }),
{
    let ghost m0 = abs(*em, *context);
    let st = em.state;
    match st {
        State::Input => {
            if ch == 37 {
                em.state = State::Begin;
            } else {
                em.output.push(ch);
            }
            proof {
                assert(abs(*em, *context) =~= machine::step(m0, ch).m);
            }
            Ok(())
        },
        State::Begin => {
            let r = do_begin(em, &*context, ch);
            proof {
                if r is Ok {
                    assert(abs(*em, *context) =~= machine::step(m0, ch).m);
                }
            }
            r
        },
        State::Push => {
            if 49 <= ch && ch <= 57 {
                let idx = (ch - 49) as usize;
                let p = dup_param(&em.params[idx]);
                em.stack.push(p);
                em.state = State::Input;
                proof {
                    assert(abs(*em, *context) =~= machine::step(m0, ch).m);
                }
                Ok(())
            } else {
                Err(crate::error::Expand::InvalidParameterIndex(ch))
            }
        },
        State::SetVar => {
            if 65 <= ch && ch <= 90 {
                match em.stack.pop() {
                    None => Err(crate::error::Expand::StackUnderflow),
                    Some(arg) => {
                        proof {
                            assert(arg@ == m0.stack.last());
                            assert(views_of(em.stack@) =~= m0.stack.drop_last());
                        }
                        context.fixed[(ch - 65) as usize] = arg;
                        em.state = State::Input;
                        proof {
                            assert(abs(*em, *context) =~= machine::step(m0, ch).m);
                        }
                        Ok(())
                    },
                }
            } else if 97 <= ch && ch <= 122 {
                match em.stack.pop() {
                    None => Err(crate::error::Expand::StackUnderflow),
                    Some(arg) => {
                        proof {
                            assert(arg@ == m0.stack.last());
                            assert(views_of(em.stack@) =~= m0.stack.drop_last());
                        }
                        context.dynamic[(ch - 97) as usize] = arg;
                        em.state = State::Input;
                        proof {
                            assert(abs(*em, *context) =~= machine::step(m0, ch).m);
                        }
                        Ok(())
                    },
                }
            } else {
                Err(crate::error::Expand::InvalidVariableName(ch))
            }
        },
        State::GetVar => {
            if 65 <= ch && ch <= 90 {
                let p = dup_param(&context.fixed[(ch - 65) as usize]);
                em.stack.push(p);
                em.state = State::Input;
                proof {
                    assert(abs(*em, *context) =~= machine::step(m0, ch).m);
                }
                Ok(())
            } else if 97 <= ch && ch <= 122 {
                let p = dup_param(&context.dynamic[(ch - 97) as usize]);
                em.stack.push(p);
                em.state = State::Input;
                proof {
                    assert(abs(*em, *context) =~= machine::step(m0, ch).m);
                }
                Ok(())
            } else {
                Err(crate::error::Expand::InvalidVariableName(ch))
            }
        },
        State::CharOpen => {
            em.stack.push(Parameter::Number(ch as i32));
            em.state = State::CharClose;
            proof {
                assert(abs(*em, *context) =~= machine::step(m0, ch).m);
            }
            Ok(())
        },
        State::CharClose => {
            if ch == 39 {
                em.state = State::Input;
                proof {
                    assert(abs(*em, *context) =~= machine::step(m0, ch).m);
                }
                Ok(())
            } else {
                Err(crate::error::Expand::MalformedCharacterConstant)
            }
        },
        State::IntConst(n) => {
            if ch == 125 {
                em.stack.push(Parameter::Number(n));
                em.state = State::Input;
                proof {
                    assert(abs(*em, *context) =~= machine::step(m0, ch).m);
                }
                Ok(())
            } else if 48 <= ch && ch <= 57 {
                match n.checked_mul(10) {
                    Some(n10) => match n10.checked_add((ch - 48) as i32) {
                        Some(n2) => {
                            em.state = State::IntConst(n2);
                            proof {
                                assert(abs(*em, *context) =~= machine::step(m0, ch).m);
                            }
                            Ok(())
                        },
                        None => Err(crate::error::Expand::IntegerConstantOverflow),
                    },
                    None => Err(crate::error::Expand::IntegerConstantOverflow),
                }
            } else {
                Err(crate::error::Expand::MalformedIntegerConstant)
            }
        },
        State::Fmt(flags, fs) => {
            let r = do_fmt(em, &*context, flags, fs, ch);
            proof {
                if r is Ok {
                    assert(abs(*em, *context) =~= machine::step(m0, ch).m);
                }
            }
            r
        },
        State::SeekElse(l) => {
            if ch == 37 {
                em.state = State::SeekElsePct(l);
            } else {
                em.state = State::SeekElse(l);
            }
            proof {
                assert(abs(*em, *context) =~= machine::step(m0, ch).m);
            }
            Ok(())
        },
        State::SeekElsePct(l) => {
            if ch == 59 && l == 0 {
                em.state = State::Input;
            } else if ch == 59 {
                em.state = State::SeekElse(l - 1);
            } else if ch == 101 && l == 0 {
                em.state = State::Input;
            } else if ch == 63 {
                em.state = State::SeekElse(l + 1);
            } else {
                em.state = State::SeekElse(l);
            }
            proof {
                assert(abs(*em, *context) =~= machine::step(m0, ch).m);
            }
            Ok(())
        },
        State::SeekEnd(l) => {
            if ch == 37 {
                em.state = State::SeekEndPct(l);
            } else {
                em.state = State::SeekEnd(l);
            }
            proof {
                assert(abs(*em, *context) =~= machine::step(m0, ch).m);
            }
            Ok(())
        },
        State::SeekEndPct(l) => {
            if ch == 59 && l == 0 {
                em.state = State::Input;
            } else if ch == 59 {
                em.state = State::SeekEnd(l - 1);
            } else if ch == 63 {
                em.state = State::SeekEnd(l + 1);
            } else {
                em.state = State::SeekEnd(l);
            }
            proof {
                assert(abs(*em, *context) =~= machine::step(m0, ch).m);
            }
            Ok(())
        },
    }
}

/// Expands the escape language in `bytes` over the given parameters and
/// context.
///
/// The result, and the final state of the context's variable banks, are
/// exactly what the abstract machine computes: on success the output bytes,
/// on an error that error, with the partial output discarded.  The result is
/// a function of `bytes`, `parameters` and the context's starting value
/// alone, so expansion is deterministic.
pub fn expand(bytes: &[u8], parameters: &[Parameter], context: &mut Context) -> (r: Result<
    Vec<u8>,
    Error,
>)
    ensures
        ({
            let o = machine::expansion(
                bytes@,
                views_of(parameters@),
                old(context)@.fixed,
                old(context)@.dynamic,
            );
            &&& final(context)@.fixed == o.m.fixed
            &&& final(context)@.dynamic == o.m.dynamic
            &&& (match o.err {
                None => r matches Ok(v) && v@ == o.m.out,
                Some(e) => r matches Err(er) && er == Error::Expand(e),
            })
        }),
{
    let ghost params_v = views_of(parameters@);
    let ghost m0 = machine::init_machine(params_v, old(context)@.fixed, old(context)@.dynamic);
    let mut em = ExecMachine {
        state: State::Input,
        output: Vec::new(),
        stack: Vec::new(),
        params: zero_params(),
    };
    let count = if parameters.len() < 9 {
        parameters.len()
    } else {
        9
    };
    let mut j: usize = 0;
    while j < count
        invariant
            j <= count,
            count == if parameters.len() < 9 {
                parameters@.len()
            } else {
                9
            },
            em.params@.len() == 9,
            em.state is Input,
            em.output@ == Seq::<u8>::empty(),
            em.stack@ == Seq::<Parameter>::empty(),
            forall|k: int| 0 <= k < j ==> #[trigger] em.params@[k]@ == parameters@[k]@,
            forall|k: int| j <= k < 9 ==> #[trigger] em.params@[k]@ == PV::Num(0),
        decreases count - j,
    {
        em.params[j] = dup_param(&parameters[j]);
        j = j + 1;
    }
    proof {
        assert(params_v.len() == parameters@.len());
        assert forall|k: int| 0 <= k < 9 implies views_of(em.params@)[k]
            == machine::seed_params(params_v)[k] by {
            assert(views_of(em.params@)[k] == em.params@[k]@);
            if k < params_v.len() {
                assert(params_v[k] == parameters@[k]@);
            }
        }
        assert(views_of(em.params@) =~= machine::seed_params(params_v));
        assert(abs(em, *context) =~= m0);
        assert(machine::run(m0, bytes@.take(0)) == machine::go(m0));
    }
    let mut i: usize = 0;
    while i < bytes.len()
        invariant
            i <= bytes@.len(),
            params_v == views_of(parameters@),
            m0 == machine::init_machine(params_v, old(context)@.fixed, old(context)@.dynamic),
            machine::run(m0, bytes@.take(i as int)).err is None,
            abs(em, *context) == machine::run(m0, bytes@.take(i as int)).m,
            machine::seek_level(abs(em, *context).st) <= i as int,
        decreases bytes@.len() - i,
    {
        let ch = bytes[i];
        proof {
            machine::lemma_run_snoc(m0, bytes@.take(i as int), ch);
            assert(bytes@.take(i as int).push(ch) =~= bytes@.take(i as int + 1));
        }
        let ghost before = abs(em, *context);
        match do_step(&mut em, context, ch) {
            Ok(()) => {
                proof {
                    machine::lemma_step_level(before, ch);
                }
            },
            Err(e) => {
                proof {
                    let s = machine::step(before, ch);
                    assert(s.err == Some(e));
                    assert(machine::run(m0, bytes@.take(i as int + 1)) == s);
                    assert(bytes@ =~= bytes@.take(i as int + 1) + bytes@.skip(i as int + 1));
                    machine::lemma_run_append(
                        m0,
                        bytes@.take(i as int + 1),
                        bytes@.skip(i as int + 1),
                    );
                    assert(machine::run(m0, bytes@) == s);
                    assert(s.m == before);
                }
                return Err(Error::Expand(e));
            },
        }
        i = i + 1;
    }
    proof {
        assert(bytes@.take(bytes@.len() as int) =~= bytes@);
    }
    Ok(em.output)
}

/// Trait for values whose bytes can be expanded.
pub trait Expand {
    /// The bytes this value hands to the expansion machine, or `None` when
    /// it is not a string and cannot be expanded.
    spec fn expansion_input(&self) -> Option<Seq<u8>>;

    /// Expands this value over the given parameters and context, as
    /// [`expand`] does; a value that is not a string reports a type
    /// mismatch and leaves the context alone.
    fn expand(&self, parameters: &[Parameter], context: &mut Context) -> (r: Result<
        Vec<u8>,
        Error,
    >)
        ensures
            ({
                match self.expansion_input() {
                    Some(bytes) => {
                        let o = machine::expansion(
                            bytes,
                            views_of(parameters@),
                            old(context)@.fixed,
                            old(context)@.dynamic,
                        );
                        &&& final(context)@.fixed == o.m.fixed
                        &&& final(context)@.dynamic == o.m.dynamic
                        &&& (match o.err {
                            None => r matches Ok(v) && v@ == o.m.out,
                            Some(e) => r matches Err(er) && er == Error::Expand(e),
                        })
                    },
                    None => {
                        &&& final(context)@ == old(context)@
                        &&& r matches Err(er) && er == Error::Expand(
                            crate::error::Expand::TypeMismatch,
                        )
                    },
                }
            }),
    ;
}

impl Expand for [u8] {
    /// A byte slice expands as itself.
    open spec fn expansion_input(&self) -> Option<Seq<u8>> {
        Some(self@)
    }

    fn expand(&self, parameters: &[Parameter], context: &mut Context) -> (r: Result<
        Vec<u8>,
        Error,
    >) {
        expand(self, parameters, context)
    }
}

impl Expand for Vec<u8> {
    /// A byte vector expands as its bytes.
    open spec fn expansion_input(&self) -> Option<Seq<u8>> {
        Some(self@)
    }

    fn expand(&self, parameters: &[Parameter], context: &mut Context) -> (r: Result<
        Vec<u8>,
        Error,
    >) {
        expand(self.as_slice(), parameters, context)
    }
}

} // verus!
