//! The abstract machine behind expansion.
//!
//! [`step`] gives the effect of one input byte on the machine, [`run`] folds
//! it over a byte string, and [`expansion`] is the meaning of a whole
//! expansion call: the contract of [`crate::expand::expand`] states that its
//! result and its effect on the [`crate::expand::Context`] are exactly what
//! [`expansion`] says.

use vstd::prelude::*;

use crate::error::Expand;
use crate::expand::fmt::{format_pv, Flags, Format, FormatState};
use crate::expand::PV;

verus! {

/// The control state of the machine between two input bytes.
#[verifier::ext_equal]
pub ghost enum St {
    /// Outside any escape: bytes are copied to the output.
    Input,
    /// A `%` was read; the next byte selects the operation.
    Begin,
    /// `%p` was read; the next byte is the parameter index.
    Push,
    /// `%P` was read; the next byte names the variable to store into.
    SetVar,
    /// `%g` was read; the next byte names the variable to push.
    GetVar,
    /// `%'` was read; the next byte is a character constant.
    CharOpen,
    /// The character constant was read; the next byte must close the quote.
    CharClose,
    /// Inside `%{n}`: the value accumulated so far.
    IntConst(i32),
    /// Inside a format escape: the flags gathered so far, and whether the
    /// next digits belong to the flags, the width or the precision.
    Fmt(Flags, FormatState),
    /// Skipping a false then-branch, to the matching `%e` or `%;`, at the
    /// given nesting depth.
    SeekElse(int),
    /// As [`St::SeekElse`], with a `%` just read.
    SeekElsePct(int),
    /// Skipping a taken then-branch's else part, to the matching `%;`.
    SeekEnd(int),
    /// As [`St::SeekEnd`], with a `%` just read.
    SeekEndPct(int),
}

/// The whole machine: control state, output, stack, the nine parameter
/// slots, and the two context banks.
#[verifier::ext_equal]
pub ghost struct Machine {
    pub st: St,
    pub out: Seq<u8>,
    pub stack: Seq<PV>,
    pub params: Seq<PV>,
    pub fixed: Seq<PV>,
    pub dynamic: Seq<PV>,
}

/// A machine together with the error that stopped it, if one did.  When
/// `err` is set, `m` is the machine as it stood when the error arose.
#[verifier::ext_equal]
pub ghost struct Outcome {
    pub m: Machine,
    pub err: Option<Expand>,
}

/// The machine carried on.
pub open spec fn go(m: Machine) -> Outcome {
    Outcome { m, err: None }
}

/// The machine stopped with an error.
pub open spec fn halt(m: Machine, e: Expand) -> Outcome {
    Outcome { m, err: Some(e) }
}

/// An ASCII decimal digit.
pub open spec fn is_digit(ch: u8) -> bool {
    48 <= ch <= 57
}

/// The value of an ASCII decimal digit.
pub open spec fn digit_val(ch: u8) -> int {
    ch as int - 48
}

/// Truncating division, as Rust's `/` computes it on machine integers.
pub open spec fn tdiv(x: int, y: int) -> int {
    let q = vstd::math::abs(x) as int / vstd::math::abs(y) as int;
    if (x < 0) != (y < 0) {
        -q
    } else {
        q
    }
}

/// Truncating remainder, as Rust's `%` computes it on machine integers.
pub open spec fn trem(x: int, y: int) -> int {
    let r = vstd::math::abs(x) as int % vstd::math::abs(y) as int;
    if x < 0 {
        -r
    } else {
        r
    }
}

/// The result of a binary arithmetic escape on two popped numbers.
/// Addition, subtraction and multiplication wrap on two's-complement
/// overflow; division and remainder by zero yield zero, as conventional
/// terminfo interpreters compute them.
pub open spec fn arith2(ch: u8, x: i32, y: i32) -> i32 {
    if ch == 43 {  // +
        vstd::wrapping::i32_specs::wrapping_add(x, y)
    } else if ch == 45 {  // -
        vstd::wrapping::i32_specs::wrapping_sub(x, y)
    } else if ch == 42 {  // *
        vstd::wrapping::i32_specs::wrapping_mul(x, y)
    } else if ch == 47 {  // /
        if y == 0 {
            0
        } else {
            vstd::wrapping::i32_specs::signed_crop(tdiv(x as int, y as int))
        }
    } else if ch == 109 {  // m
        if y == 0 {
            0
        } else {
            trem(x as int, y as int) as i32
        }
    } else if ch == 94 {  // ^
        x ^ y
    } else if ch == 38 {  // &
        x & y
    } else {  // |
        x | y
    }
}

/// The result of a comparison or logical escape on two popped numbers:
/// one for true, zero for false.  An operand is truthy when positive.
pub open spec fn cmp2(ch: u8, x: i32, y: i32) -> i32 {
    let b = if ch == 61 {  // =
        x == y
    } else if ch == 60 {  // <
        x < y
    } else if ch == 62 {  // >
        x > y
    } else if ch == 65 {  // A
        x > 0 && y > 0
    } else {  // O
        x > 0 || y > 0
    };
    if b {
        1
    } else {
        0
    }
}

/// Pops two numbers and pushes the binary operation `ch` on them.
pub open spec fn step_binary(m: Machine, ch: u8, arith: bool) -> Outcome {
    if m.stack.len() < 2 {
        halt(m, Expand::StackUnderflow)
    } else {
        let y = m.stack[m.stack.len() - 1];
        let x = m.stack[m.stack.len() - 2];
        if (y is Num) && (x is Num) {
            let v = if arith {
                arith2(ch, x->Num_0, y->Num_0)
            } else {
                cmp2(ch, x->Num_0, y->Num_0)
            };
            go(
                Machine {
                    st: St::Input,
                    stack: m.stack.take(m.stack.len() - 2).push(PV::Num(v)),
                    ..m
                },
            )
        } else {
            halt(m, Expand::TypeMismatch)
        }
    }
}

/// Pops a value and formats it with the given formatter and flags.
pub open spec fn step_format(m: Machine, f: Format, flags: Flags) -> Outcome {
    if m.stack.len() == 0 {
        halt(m, Expand::StackUnderflow)
    } else {
        let a = m.stack.last();
        match format_pv(a, f, flags) {
            Ok(bs) => go(
                Machine { st: St::Input, out: m.out + bs, stack: m.stack.drop_last(), ..m },
            ),
            Err(e) => halt(m, e),
        }
    }
}

/// The formatter a final format byte selects, if it is one.
pub open spec fn format_of(ch: u8) -> Option<Format> {
    if ch == 100 {  // d
        Some(Format::Dec)
    } else if ch == 111 {  // o
        Some(Format::Oct)
    } else if ch == 120 {  // x
        Some(Format::Hex)
    } else if ch == 88 {  // X
        Some(Format::UpperHex)
    } else if ch == 115 {  // s
        Some(Format::Str)
    } else {
        None
    }
}

/// The effect of the byte after a lone `%`.
pub open spec fn step_begin(m: Machine, ch: u8) -> Outcome {
    if ch == 63 || ch == 59 {  // ? ;
        // An executed `%?` or `%;` is a no-op; the test happens at `%t`.
        go(Machine { st: St::Input, ..m })
    } else if ch == 37 {  // %
        go(Machine { st: St::Input, out: m.out.push(37), ..m })
    } else if ch == 99 {  // c
        if m.stack.len() == 0 {
            halt(m, Expand::StackUnderflow)
        } else {
            match m.stack.last() {
                PV::Num(v) => {
                    let b = if v == 0 {
                        128u8
                    } else {
                        (to_u32_byte(v))
                    };
                    go(
                        Machine {
                            st: St::Input,
                            out: m.out.push(b),
                            stack: m.stack.drop_last(),
                            ..m
                        },
                    )
                },
                PV::Str(_) => halt(m, Expand::TypeMismatch),
            }
        }
    } else if ch == 112 {  // p
        go(Machine { st: St::Push, ..m })
    } else if ch == 80 {  // P
        go(Machine { st: St::SetVar, ..m })
    } else if ch == 103 {  // g
        go(Machine { st: St::GetVar, ..m })
    } else if ch == 39 {  // opening quote
        go(Machine { st: St::CharOpen, ..m })
    } else if ch == 123 {  // {
        go(Machine { st: St::IntConst(0), ..m })
    } else if ch == 43 || ch == 45 || ch == 47 || ch == 42 || ch == 94 || ch == 38 || ch == 124
        || ch == 109 {  // + - / * ^ & | m
        step_binary(m, ch, true)
    } else if ch == 61 || ch == 62 || ch == 60 || ch == 65 || ch == 79 {  // = > < A O
        step_binary(m, ch, false)
    } else if ch == 33 || ch == 126 {  // ! ~
        if m.stack.len() == 0 {
            halt(m, Expand::StackUnderflow)
        } else {
            match m.stack.last() {
                PV::Num(x) => {
                    let v: i32 = if ch == 33 {
                        if x > 0 {
                            0
                        } else {
                            1
                        }
                    } else {
                        // Bitwise not on two's complement.
                        (-1 - x as int) as i32
                    };
                    go(
                        Machine {
                            st: St::Input,
                            stack: m.stack.drop_last().push(PV::Num(v)),
                            ..m
                        },
                    )
                },
                PV::Str(_) => halt(m, Expand::TypeMismatch),
            }
        }
    } else if ch == 105 {  // i
        if (m.params[0] is Num) && (m.params[1] is Num) {
            let x = m.params[0]->Num_0;
            let y = m.params[1]->Num_0;
            go(
                Machine {
                    st: St::Input,
                    params: m.params.update(0, PV::Num(vstd::wrapping::i32_specs::wrapping_add(x, 1))).update(
                        1,
                        PV::Num(vstd::wrapping::i32_specs::wrapping_add(y, 1)),
                    ),
                    ..m
                },
            )
        } else {
            halt(m, Expand::TypeMismatch)
        }
    } else if format_of(ch) is Some {  // d o x X s
        step_format(m, format_of(ch)->Some_0, Flags::spec_default())
    } else if ch == 58 {  // :
        go(Machine { st: St::Fmt(Flags::spec_default(), FormatState::Flags), ..m })
    } else if ch == 35 {  // #
        go(
            Machine {
                st: St::Fmt(
                    Flags { alternate: true, ..Flags::spec_default() },
                    FormatState::Flags,
                ),
                ..m
            },
        )
    } else if ch == 32 {  // space
        go(
            Machine {
                st: St::Fmt(Flags { space: true, ..Flags::spec_default() }, FormatState::Flags),
                ..m
            },
        )
    } else if ch == 46 {  // .
        go(Machine { st: St::Fmt(Flags::spec_default(), FormatState::Precision), ..m })
    } else if is_digit(ch) {
        go(
            Machine {
                st: St::Fmt(
                    Flags { width: digit_val(ch) as i32, ..Flags::spec_default() },
                    FormatState::Width,
                ),
                ..m
            },
        )
    } else if ch == 116 {  // t
        if m.stack.len() == 0 {
            halt(m, Expand::StackUnderflow)
        } else {
            match m.stack.last() {
                PV::Num(v) => {
                    if v == 0 {
                        go(Machine { st: St::SeekElse(0), stack: m.stack.drop_last(), ..m })
                    } else {
                        go(Machine { st: St::Input, stack: m.stack.drop_last(), ..m })
                    }
                },
                PV::Str(_) => halt(m, Expand::TypeMismatch),
            }
        }
    } else if ch == 101 {  // e
        go(Machine { st: St::SeekEnd(0), ..m })
    } else {
        halt(m, Expand::UnrecognizedFormatOption(ch))
    }
}

/// The low byte of a 32-bit number, as `%c` emits it.
pub open spec fn to_u32_byte(v: i32) -> u8 {
    (crate::expand::fmt::to_u32(v) % 256) as u8
}

/// The effect of a byte inside a format escape, after the flags so far.
pub open spec fn step_fmt(m: Machine, flags: Flags, fs: FormatState, ch: u8) -> Outcome {
    if format_of(ch) is Some {
        step_format(m, format_of(ch)->Some_0, flags)
    } else if fs is Flags && ch == 35 {  // #
        go(Machine { st: St::Fmt(Flags { alternate: true, ..flags }, fs), ..m })
    } else if fs is Flags && ch == 45 {  // -
        go(Machine { st: St::Fmt(Flags { left: true, ..flags }, fs), ..m })
    } else if fs is Flags && ch == 43 {  // +
        go(Machine { st: St::Fmt(Flags { sign: true, ..flags }, fs), ..m })
    } else if fs is Flags && ch == 32 {  // space
        go(Machine { st: St::Fmt(Flags { space: true, ..flags }, fs), ..m })
    } else if fs is Flags && is_digit(ch) {
        go(
            Machine {
                st: St::Fmt(Flags { width: digit_val(ch) as i32, ..flags }, FormatState::Width),
                ..m
            },
        )
    } else if fs is Width && is_digit(ch) {
        let w10 = flags.width as int * 10;
        if i32::MIN <= w10 <= i32::MAX && i32::MIN <= w10 + digit_val(ch) <= i32::MAX {
            go(
                Machine {
                    st: St::Fmt(Flags { width: (w10 + digit_val(ch)) as i32, ..flags }, fs),
                    ..m
                },
            )
        } else {
            halt(m, Expand::FormatWidthOverflow)
        }
    } else if (fs is Width || fs is Flags) && ch == 46 {  // .
        go(Machine { st: St::Fmt(flags, FormatState::Precision), ..m })
    } else if fs is Precision && is_digit(ch) {
        let p10 = flags.precision as int * 10;
        if i32::MIN <= p10 <= i32::MAX && i32::MIN <= p10 + digit_val(ch) <= i32::MAX {
            go(
                Machine {
                    st: St::Fmt(Flags { precision: (p10 + digit_val(ch)) as i32, ..flags }, fs),
                    ..m
                },
            )
        } else {
            halt(m, Expand::FormatPrecisionOverflow)
        }
    } else {
        halt(m, Expand::UnrecognizedFormatOption(ch))
    }
}

/// The effect of one input byte on the machine.
pub open spec fn step(m: Machine, ch: u8) -> Outcome {
    match m.st {
        St::Input => {
            if ch == 37 {  // %
                go(Machine { st: St::Begin, ..m })
            } else {
                go(Machine { out: m.out.push(ch), ..m })
            }
        },
        St::Begin => step_begin(m, ch),
        St::Push => {
            if 49 <= ch <= 57 {  // 1..9
                go(
                    Machine {
                        st: St::Input,
                        stack: m.stack.push(m.params[ch as int - 49]),
                        ..m
                    },
                )
            } else {
                halt(m, Expand::InvalidParameterIndex(ch))
            }
        },
        St::SetVar => {
            if 65 <= ch <= 90 {  // A..Z
                if m.stack.len() == 0 {
                    halt(m, Expand::StackUnderflow)
                } else {
                    go(
                        Machine {
                            st: St::Input,
                            stack: m.stack.drop_last(),
                            fixed: m.fixed.update(ch as int - 65, m.stack.last()),
                            ..m
                        },
                    )
                }
            } else if 97 <= ch <= 122 {  // a..z
                if m.stack.len() == 0 {
                    halt(m, Expand::StackUnderflow)
                } else {
                    go(
                        Machine {
                            st: St::Input,
                            stack: m.stack.drop_last(),
                            dynamic: m.dynamic.update(ch as int - 97, m.stack.last()),
                            ..m
                        },
                    )
                }
            } else {
                halt(m, Expand::InvalidVariableName(ch))
            }
        },
        St::GetVar => {
            if 65 <= ch <= 90 {  // A..Z
                go(Machine { st: St::Input, stack: m.stack.push(m.fixed[ch as int - 65]), ..m })
            } else if 97 <= ch <= 122 {  // a..z
                go(
                    Machine {
                        st: St::Input,
                        stack: m.stack.push(m.dynamic[ch as int - 97]),
                        ..m
                    },
                )
            } else {
                halt(m, Expand::InvalidVariableName(ch))
            }
        },
        St::CharOpen => {
            go(Machine { st: St::CharClose, stack: m.stack.push(PV::Num(ch as i32)), ..m })
        },
        St::CharClose => {
            if ch == 39 {  // closing quote
                go(Machine { st: St::Input, ..m })
            } else {
                halt(m, Expand::MalformedCharacterConstant)
            }
        },
        St::IntConst(n) => {
            if ch == 125 {  // }
                go(Machine { st: St::Input, stack: m.stack.push(PV::Num(n)), ..m })
            } else if is_digit(ch) {
                let n10 = n as int * 10;
                if i32::MIN <= n10 <= i32::MAX && i32::MIN <= n10 + digit_val(ch) <= i32::MAX {
                    go(Machine { st: St::IntConst((n10 + digit_val(ch)) as i32), ..m })
                } else {
                    halt(m, Expand::IntegerConstantOverflow)
                }
            } else {
                halt(m, Expand::MalformedIntegerConstant)
            }
        },
        St::Fmt(flags, fs) => step_fmt(m, flags, fs, ch),
        St::SeekElse(l) => {
            if ch == 37 {  // %
                go(Machine { st: St::SeekElsePct(l), ..m })
            } else {
                go(Machine { st: St::SeekElse(l), ..m })
            }
        },
        St::SeekElsePct(l) => {
            if ch == 59 && l == 0 {  // ;
                go(Machine { st: St::Input, ..m })
            } else if ch == 59 {
                go(Machine { st: St::SeekElse(l - 1), ..m })
            } else if ch == 101 && l == 0 {  // e
                go(Machine { st: St::Input, ..m })
            } else if ch == 63 {  // ?
                go(Machine { st: St::SeekElse(l + 1), ..m })
            } else {
                go(Machine { st: St::SeekElse(l), ..m })
            }
        },
        St::SeekEnd(l) => {
            if ch == 37 {  // %
                go(Machine { st: St::SeekEndPct(l), ..m })
            } else {
                go(Machine { st: St::SeekEnd(l), ..m })
            }
        },
        St::SeekEndPct(l) => {
            if ch == 59 && l == 0 {  // ;
                go(Machine { st: St::Input, ..m })
            } else if ch == 59 {
                go(Machine { st: St::SeekEnd(l - 1), ..m })
            } else if ch == 63 {  // ?
                go(Machine { st: St::SeekEnd(l + 1), ..m })
            } else {
                go(Machine { st: St::SeekEnd(l), ..m })
            }
        },
    }
}

/// Folds [`step`] over `bytes`, stopping at the first error.
pub open spec fn run(m: Machine, bytes: Seq<u8>) -> Outcome
    decreases bytes.len(),
{
    if bytes.len() == 0 {
        go(m)
    } else {
        let s = step(m, bytes[0]);
        if s.err is Some {
            s
        } else {
            run(s.m, bytes.subrange(1, bytes.len() as int))
        }
    }
}

/// The nine parameter slots an expansion starts from: the caller's
/// parameters, truncated or padded with zeroes to nine.
pub open spec fn seed_params(ps: Seq<PV>) -> Seq<PV> {
    Seq::new(9, |i: int| if i < ps.len() { ps[i] } else { PV::Num(0) })
}

/// The machine at the start of an expansion.
pub open spec fn init_machine(params: Seq<PV>, fixed: Seq<PV>, dynamic: Seq<PV>) -> Machine {
    Machine {
        st: St::Input,
        out: Seq::empty(),
        stack: Seq::empty(),
        params: seed_params(params),
        fixed,
        dynamic,
    }
}

/// The meaning of one expansion call: the machine run over the capability's
/// bytes from a fresh stack and output, with the given parameters and
/// context banks.
pub open spec fn expansion(bytes: Seq<u8>, params: Seq<PV>, fixed: Seq<PV>, dynamic: Seq<PV>) -> Outcome {
    run(init_machine(params, fixed, dynamic), bytes)
}

/// Running over a concatenation runs over each part in turn; an error in
/// the first part stops the whole run.
pub proof fn lemma_run_append(m: Machine, b1: Seq<u8>, b2: Seq<u8>)
    ensures
        run(m, b1 + b2) == (if run(m, b1).err is Some {
            run(m, b1)
        } else {
            run(run(m, b1).m, b2)
        }),
    decreases b1.len(),
{
    if b1.len() == 0 {
        assert(b1 + b2 =~= b2);
    } else {
        let s = step(m, b1[0]);
        assert((b1 + b2)[0] == b1[0]);
        assert((b1 + b2).subrange(1, (b1 + b2).len() as int) =~= b1.subrange(
            1,
            b1.len() as int,
        ) + b2);
        if s.err is None {
            lemma_run_append(s.m, b1.subrange(1, b1.len() as int), b2);
        }
    }
}

/// Extending a run by one byte steps the machine once more.
pub proof fn lemma_run_snoc(m: Machine, b: Seq<u8>, ch: u8)
    ensures
        run(m, b.push(ch)) == (if run(m, b).err is Some {
            run(m, b)
        } else {
            step(run(m, b).m, ch)
        }),
{
    assert(b.push(ch) =~= b + seq![ch]);
    lemma_run_append(m, b, seq![ch]);
    let r = run(m, b);
    if r.err is None {
        let s = step(r.m, ch);
        assert(seq![ch].subrange(1, 1) =~= Seq::<u8>::empty());
        if s.err is None {
            assert(run(s.m, seq![ch].subrange(1, 1)) == go(s.m));
        }
    }
}

/// The conditional-skip depth of a control state.
pub open spec fn seek_level(st: St) -> int {
    match st {
        St::SeekElse(l) => l,
        St::SeekElsePct(l) => l,
        St::SeekEnd(l) => l,
        St::SeekEndPct(l) => l,
        _ => 0,
    }
}

/// One step raises the skip depth by at most one.
pub proof fn lemma_step_level(m: Machine, ch: u8)
    requires
        step(m, ch).err is None,
    ensures
        seek_level(step(m, ch).m.st) <= seek_level(m.st) + 1,
{
}

} // verus!
